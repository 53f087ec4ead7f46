use nes_cpu::bus::{Bus, BusError};
use nes_cpu::cpu::{Mem, CPU};
use nes_cpu::model::CpuError;
use nes_cpu::rom::{Mirroring, Rom};

fn rom_with_prg(prg: Vec<u8>) -> Rom {
    Rom { prg_rom: prg, chr_rom: vec![], mapper: 0, screen_mirroring: Mirroring::Horizontal }
}

fn cpu_at_0600(program: &[u8]) -> CPU {
    cpu_at_0600_with_rom(program, rom_with_prg(vec![0u8; 0x4000]))
}

fn cpu_at_0600_with_rom(program: &[u8], rom: Rom) -> CPU {
    let mut cpu = CPU::new(Bus::new(rom));
    // the reset vector lies in program ROM, so loading ends with a refused write
    assert_eq!(cpu.load(program.to_vec()), Err(BusError::PrgRomWrite(0xFFFC)));
    cpu.program_counter = 0x0600;
    cpu
}

#[test]
fn lda_tax_inx_sequence() {
    let mut cpu = cpu_at_0600(&[0xA9, 0xC0, 0xAA, 0xE8, 0x00]);
    cpu.run().unwrap();
    assert_eq!(cpu.register_a, 0xC0);
    assert_eq!(cpu.register_x, 0xC1);
}

#[test]
fn adc_sets_carry_and_overflow() {
    let mut cpu = cpu_at_0600(&[0x69, 0x50, 0x00]);
    cpu.register_a = 0x50;
    cpu.status = 0;
    cpu.run().unwrap();
    assert_eq!(cpu.register_a, 0xA0);
    assert_eq!(cpu.status & 0b0000_0001, 0, "C");
    assert_ne!(cpu.status & 0b0100_0000, 0, "V");
    assert_ne!(cpu.status & 0b1000_0000, 0, "N");
    assert_eq!(cpu.status & 0b0000_0010, 0, "Z");
}

#[test]
fn adc_carry_out_with_carry_in() {
    let mut cpu = cpu_at_0600(&[0x69, 0xFF, 0x00]);
    cpu.register_a = 0x10;
    cpu.status = 0b0000_0001;
    cpu.run().unwrap();
    assert_eq!(cpu.register_a, 0x10);
    assert_ne!(cpu.status & 0b0000_0001, 0, "C");
}

#[test]
fn branch_taken_offset() {
    let mut cpu = cpu_at_0600(&[0xB0, 0x10, 0x00]);
    cpu.status = 0b0000_0001;
    cpu.run().unwrap();
    assert_eq!(cpu.program_counter, 0x0600 + 2 + 16 + 1);
}

#[test]
fn bit_copies_v_and_n_from_memory() {
    let mut cpu = cpu_at_0600(&[0x24, 0xC0, 0x00]);
    cpu.mem_write(0x00C0, 0x41).unwrap();
    cpu.register_a = 0x01;
    cpu.run().unwrap();
    assert_eq!(cpu.status & 0b0000_0010, 0, "Z");
    assert_eq!(cpu.status & 0b1000_0000, 0, "N");
    assert_ne!(cpu.status & 0b0100_0000, 0, "V");
}

#[test]
fn jsr_then_rts() {
    let mut prg = vec![0u8; 0x4000];
    prg[0x0601] = 0x60;
    let mut cpu = cpu_at_0600_with_rom(&[0x20, 0x01, 0xC6, 0x00], rom_with_prg(prg));
    let sp = cpu.stack_pointer;
    cpu.run().unwrap();
    assert_eq!(cpu.stack_pointer, sp);
    assert_eq!(cpu.program_counter, 0x0603 + 1);
}

#[test]
fn pha_then_pla_restores_a() {
    // LDA #$80; PHA; LDA #$00; PLA; BRK
    let mut cpu = cpu_at_0600(&[0xA9, 0x80, 0x48, 0xA9, 0x00, 0x68, 0x00]);
    cpu.run().unwrap();
    assert_eq!(cpu.register_a, 0x80);
    assert_eq!(cpu.stack_pointer, 0xFD);
    assert_eq!(cpu.status & 0b0000_0010, 0, "Z");
    assert_ne!(cpu.status & 0b1000_0000, 0, "N");
}

#[test]
fn txs_then_tsx_restores_x() {
    let mut cpu = cpu_at_0600(&[0x9A, 0xBA, 0x00]);
    cpu.register_x = 0x42;
    cpu.run().unwrap();
    assert_eq!(cpu.register_x, 0x42);
    assert_eq!(cpu.stack_pointer, 0x42);
}

#[test]
fn adc_then_sbc_gives_back_a() {
    // CLC; ADC #$37; SEC; SBC #$37; BRK
    let mut cpu = cpu_at_0600(&[0x18, 0x69, 0x37, 0x38, 0xE9, 0x37, 0x00]);
    cpu.register_a = 0xE5;
    cpu.run().unwrap();
    assert_eq!(cpu.register_a, 0xE5);
}

#[test]
fn zero_and_negative_follow_the_result() {
    let mut cpu = cpu_at_0600(&[0xA2, 0x00, 0x00]);
    cpu.run().unwrap();
    assert_ne!(cpu.status & 0b0000_0010, 0, "Z");
    assert_eq!(cpu.status & 0b1000_0000, 0, "N");
}

#[test]
fn inc_flags_follow_the_new_value() {
    let mut cpu = cpu_at_0600(&[0xE6, 0x10, 0x00]);
    cpu.mem_write(0x10, 0xFF).unwrap();
    cpu.run().unwrap();
    assert_eq!(cpu.mem_read(0x10), Ok(0x00));
    assert_ne!(cpu.status & 0b0000_0010, 0, "Z");
}

#[test]
fn shifts_and_rotates_move_the_carry() {
    // SEC; ROR A; BRK  with A = 0x02
    let mut cpu = cpu_at_0600(&[0x38, 0x6A, 0x00]);
    cpu.register_a = 0x02;
    cpu.run().unwrap();
    assert_eq!(cpu.register_a, 0x81);
    assert_eq!(cpu.status & 0b0000_0001, 0);

    // ASL $10 with $10 = 0x81
    let mut cpu = cpu_at_0600(&[0x06, 0x10, 0x00]);
    cpu.mem_write(0x10, 0x81).unwrap();
    cpu.run().unwrap();
    assert_eq!(cpu.mem_read(0x10), Ok(0x02));
    assert_ne!(cpu.status & 0b0000_0001, 0);
}

#[test]
fn cmp_sets_carry_when_register_not_below() {
    let mut cpu = cpu_at_0600(&[0xC9, 0x05, 0x00]);
    cpu.register_a = 0x05;
    cpu.run().unwrap();
    assert_eq!(cpu.status & 0b0000_0011, 0b0000_0011);
}

#[test]
fn php_plp_and_rti_handle_break_and_unused_bits() {
    // PHP; PLA; BRK
    let mut cpu = cpu_at_0600(&[0x08, 0x68, 0x00]);
    cpu.status = 0b0000_0001;
    cpu.run().unwrap();
    assert_eq!(cpu.register_a, 0b0011_0001);

    // LDA #$FF; PHA; PLP; BRK
    let mut cpu = cpu_at_0600(&[0xA9, 0xFF, 0x48, 0x28, 0x00]);
    cpu.run().unwrap();
    assert_eq!(cpu.status, 0b1110_1111);
}

#[test]
fn indirect_y_adds_y_to_the_pointer() {
    // LDA ($20),Y with Y = 1: the pointer is read from $21/$22
    let mut cpu = cpu_at_0600(&[0xB1, 0x20, 0x00]);
    cpu.mem_write(0x21, 0x00).unwrap();
    cpu.mem_write(0x22, 0x03).unwrap();
    cpu.mem_write(0x0300, 0x77).unwrap();
    cpu.register_y = 1;
    cpu.run().unwrap();
    assert_eq!(cpu.register_a, 0x77);
}

#[test]
fn unknown_opcode_stops_the_run() {
    let mut cpu = cpu_at_0600(&[0x02]);
    assert_eq!(cpu.run(), Err(CpuError::UnknownOpcode(0x02)));
    assert_eq!(cpu.program_counter, 0x0600);
}

#[test]
fn ppu_access_stops_the_run() {
    let mut cpu = cpu_at_0600(&[0xAD, 0x00, 0x20, 0x00]);
    assert_eq!(cpu.run(), Err(CpuError::Bus(BusError::PpuNotImplemented(0x2000))));
}

#[test]
fn write_to_program_rom_stops_the_run() {
    let mut cpu = cpu_at_0600(&[0x8D, 0x00, 0x80, 0x00]);
    assert_eq!(cpu.run(), Err(CpuError::Bus(BusError::PrgRomWrite(0x8000))));
}

#[test]
fn reset_reads_the_vector() {
    let mut prg = vec![0u8; 0x4000];
    prg[0x3FFC] = 0x34;
    prg[0x3FFD] = 0x12;
    let mut cpu = CPU::new(Bus::new(rom_with_prg(prg)));
    cpu.register_a = 9;
    cpu.stack_pointer = 0;
    cpu.reset().unwrap();
    assert_eq!(cpu.program_counter, 0x1234);
    assert_eq!(cpu.register_a, 0);
    assert_eq!(cpu.stack_pointer, 0xFD);
    assert_eq!(cpu.status, 0b0010_0100);
}

#[test]
fn reset_without_program_rom_fails() {
    let mut cpu = CPU::new(Bus::new(rom_with_prg(vec![])));
    assert_eq!(cpu.reset(), Err(BusError::PrgRomUnmapped(0xFFFC)));
}

#[test]
fn load_places_the_program_at_0600() {
    let cpu = cpu_at_0600(&[0xA9, 0x01]);
    assert_eq!(cpu.mem_read(0x0600), Ok(0xA9));
    assert_eq!(cpu.mem_read(0x0601), Ok(0x01));
}

#[test]
fn load_too_long_stops_at_the_ppu_window() {
    let mut cpu = CPU::new(Bus::new(rom_with_prg(vec![0u8; 0x4000])));
    assert_eq!(cpu.load(vec![0xEA; 0x1A01]), Err(BusError::PpuNotImplemented(0x2000)));
}

#[test]
fn add_returns_the_sum_and_sets_carry() {
    let mut cpu = CPU::new(Bus::new(rom_with_prg(vec![0u8; 0x4000])));
    cpu.register_a = 0xF0;
    cpu.status = 0;
    assert_eq!(cpu.add(0x20), 0x10);
    assert_eq!(cpu.register_a, 0xF0);
    assert_eq!(cpu.status & 0b0000_0001, 1);
}

#[test]
fn stack_push_and_pull_wrap() {
    let mut cpu = CPU::new(Bus::new(rom_with_prg(vec![0u8; 0x4000])));
    cpu.stack_pointer = 0x00;
    cpu.push_to_stack(0xAB);
    assert_eq!(cpu.stack_pointer, 0xFF);
    assert_eq!(cpu.mem_read(0x0100), Ok(0xAB));
    assert_eq!(cpu.pull_from_stack(), 0xAB);
    assert_eq!(cpu.stack_pointer, 0x00);
}

#[test]
fn step_reports_brk() {
    let mut cpu = cpu_at_0600(&[0xEA, 0x00]);
    assert_eq!(cpu.step(), Ok(false));
    assert_eq!(cpu.step(), Ok(true));
    assert_eq!(cpu.program_counter, 0x0602);
}

#[test]
fn callback_sees_each_instruction_and_may_write_memory() {
    // LDA $FE; BRK
    let mut cpu = cpu_at_0600(&[0xA5, 0xFE, 0x00]);
    let mut seen: Vec<u16> = vec![];
    cpu.run_with_callback(|c| {
        seen.push(c.program_counter);
        c.mem_write(0xFE, 7).unwrap();
    })
    .unwrap();
    assert_eq!(seen, vec![0x0600, 0x0602]);
    assert_eq!(cpu.register_a, 7);
}

#[test]
fn get_operand_address_modes() {
    let mut cpu = cpu_at_0600(&[0xB5, 0xF0]);
    cpu.register_x = 0x20;
    assert_eq!(cpu.get_operand_address(nes_cpu::opcodes::AddressingMode::ZeroPage_X), Ok(0x10));
    assert_eq!(cpu.get_operand_address(nes_cpu::opcodes::AddressingMode::Immediate), Ok(0x0601));
}

#[test]
fn unknown_opcode_stops_after_the_observer() {
    let mut cpu = cpu_at_0600(&[0xE8, 0x02]);
    let mut calls = 0;
    let outcome = cpu.run_with_callback(|c| {
        calls += 1;
        c.register_y = 0x33;
    });
    assert_eq!(outcome, Err(CpuError::UnknownOpcode(0x02)));
    assert_eq!(calls, 2);
    assert_eq!(cpu.program_counter, 0x0601);
    assert_eq!(cpu.register_x, 1);
    assert_eq!(cpu.register_y, 0x33);
}
