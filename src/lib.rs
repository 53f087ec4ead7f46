// An emulator of the NES's 6502 CPU: the cartridge decoder, the memory bus, the instruction
// table, the CPU core with its specification, a tracer and a screen reader.
pub mod bus;
pub mod cpu;
pub mod lemmas;
pub mod model;
pub mod opcodes;
pub mod rom;
pub mod screen;
pub mod trace;
