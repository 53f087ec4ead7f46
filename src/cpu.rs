use vstd::prelude::*;

use crate::bus::{Bus, BusError, BusView};
use crate::model::{
    adc_status, add_with_carry, advance, execute, lemma_step_error_kind, loaded,
    observed_run,
    operand, operand_address, outcome, pull, pulled, push, set_flag, step_result, steps, zn,
    CpuError, CpuView, BREAK, CARRY, DECIMAL, INTERRUPT, NEGATIVE, OVERFLOW, RESET_VECTOR, STACK,
    STACK_RESET, STATUS_RESET, UNUSED, ZERO,
};
use crate::opcodes::{lookup, AddressingMode, Mnemonic, OpCode};

verus! {

/// Byte and word access to the CPU's address space.
pub trait Mem: Sized {
    /// The memory that the accesses reach.
    spec fn mem(&self) -> BusView;

    /// `self` and `other` agree on everything but memory.
    spec fn same_besides_memory(&self, other: &Self) -> bool;

    fn mem_read(&self, addr: u16) -> (r: Result<u8, BusError>)
        ensures
            r == self.mem().read(addr),
    ;

    fn mem_write(&mut self, addr: u16, data: u8) -> (r: Result<(), BusError>)
        ensures
            match old(self).mem().write(addr, data) {
                Ok(m) => r == Ok::<(), BusError>(()) && final(self).mem() == m
                    && old(self).same_besides_memory(final(self)),
                Err(e) => r == Err::<(), BusError>(e) && *final(self) == *old(self),
            },
    ;

    /// Reads the little-endian word at `pos` and `pos + 1`.
    fn mem_read_u16(&self, pos: u16) -> (r: Result<u16, BusError>)
        ensures
            r == self.mem().read_u16(pos),
    ;

    /// Writes `data` little-endian at `pos` and `pos + 1`.
    fn mem_write_u16(&mut self, pos: u16, data: u16) -> (r: Result<(), BusError>)
        ensures
            final(self).mem() == old(self).mem().write_u16(pos, data).0,
            r == old(self).mem().write_u16(pos, data).1,
            old(self).same_besides_memory(final(self)),
    ;
}

/// The 6502 core: registers, and the bus it drives.
pub struct CPU {
    pub register_a: u8,
    pub register_x: u8,
    pub register_y: u8,
    pub status: u8,
    pub program_counter: u16,
    pub stack_pointer: u8,
    pub bus: Bus,
}

impl View for CPU {
    type V = CpuView;

    open spec fn view(&self) -> CpuView {
        CpuView {
            a: self.register_a,
            x: self.register_x,
            y: self.register_y,
            status: self.status,
            pc: self.program_counter,
            sp: self.stack_pointer,
            mem: self.bus@,
        }
    }
}

impl Mem for CPU {
    open spec fn mem(&self) -> BusView {
        self.bus@
    }

    open spec fn same_besides_memory(&self, other: &Self) -> bool {
        &&& self.register_a == other.register_a
        &&& self.register_x == other.register_x
        &&& self.register_y == other.register_y
        &&& self.status == other.status
        &&& self.program_counter == other.program_counter
        &&& self.stack_pointer == other.stack_pointer
    }

    fn mem_read(&self, addr: u16) -> (r: Result<u8, BusError>) {
        self.bus.mem_read(addr)
    }

    fn mem_write(&mut self, addr: u16, data: u8) -> (r: Result<(), BusError>) {
        self.bus.mem_write(addr, data)
    }

    fn mem_read_u16(&self, pos: u16) -> (r: Result<u16, BusError>) {
        self.bus.mem_read_u16(pos)
    }

    fn mem_write_u16(&mut self, pos: u16, data: u16) -> (r: Result<(), BusError>) {
        self.bus.mem_write_u16(pos, data)
    }
}

impl CPU {
    pub fn new(bus: Bus) -> (r: CPU)
        ensures
            r@ == (CpuView {
                a: 0,
                x: 0,
                y: 0,
                status: STATUS_RESET,
                pc: 0,
                sp: STACK_RESET,
                mem: bus@,
            }),
    {
        CPU {
            register_a: 0,
            register_x: 0,
            register_y: 0,
            status: STATUS_RESET,
            program_counter: 0,
            stack_pointer: STACK_RESET,
            bus,
        }
    }

    /// The effective address of the instruction at the program counter under `mode`.
    pub fn get_operand_address(&self, mode: AddressingMode) -> (r: Result<u16, BusError>)
        ensures
            r == operand_address(self@, mode),
    {
        let arg = self.program_counter.wrapping_add(1);
        match mode {
            AddressingMode::Immediate => Ok(arg),
            AddressingMode::ZeroPage => match self.bus.mem_read(arg) {
                Ok(b) => Ok(b as u16),
                Err(e) => Err(e),
            },
            AddressingMode::ZeroPage_X => match self.bus.mem_read(arg) {
                Ok(pos) => Ok(pos.wrapping_add(self.register_x) as u16),
                Err(e) => Err(e),
            },
            AddressingMode::ZeroPage_Y => match self.bus.mem_read(arg) {
                Ok(pos) => Ok(pos.wrapping_add(self.register_y) as u16),
                Err(e) => Err(e),
            },
            AddressingMode::Absolute => self.bus.mem_read_u16(arg),
            AddressingMode::Absolute_X => match self.bus.mem_read_u16(arg) {
                Ok(pos) => Ok(pos.wrapping_add(self.register_x as u16)),
                Err(e) => Err(e),
            },
            AddressingMode::Absolute_Y => match self.bus.mem_read_u16(arg) {
                Ok(pos) => Ok(pos.wrapping_add(self.register_y as u16)),
                Err(e) => Err(e),
            },
            AddressingMode::Indirect => match self.bus.mem_read_u16(arg) {
                Ok(ptr) => self.bus.mem_read_u16(ptr),
                Err(e) => Err(e),
            },
            AddressingMode::Indirect_X => match self.bus.mem_read(arg) {
                Ok(base) => self.zero_page_pointer(base.wrapping_add(self.register_x)),
                Err(e) => Err(e),
            },
            AddressingMode::Indirect_Y => match self.bus.mem_read(arg) {
                Ok(base) => self.zero_page_pointer(base.wrapping_add(self.register_y)),
                Err(e) => Err(e),
            },
            AddressingMode::Relative => match self.bus.mem_read(arg) {
                Ok(offset) => {
                    // the jump target, before the instruction's length is added
                    if offset & 0b1000_0000 != 0 {
                        let inverted = offset ^ 0b1111_1111;
                        assert(offset >= 0x80 && inverted == 255 - offset) by (bit_vector)
                            requires
                                offset & 0x80 != 0,
                                inverted == offset ^ 0xFF,
                        ;
                        let back = inverted + 1;
                        Ok(self.program_counter.wrapping_sub(back as u16))
                    } else {
                        assert(offset < 0x80) by (bit_vector)
                            requires
                                offset & 0x80 == 0,
                        ;
                        Ok(self.program_counter.wrapping_add(offset as u16))
                    }
                },
                Err(e) => Err(e),
            },
            AddressingMode::NoneAddressing => Ok(0),
        }
    }

    /// The pointer held at zero-page cells `ptr` and `ptr + 1`.
    fn zero_page_pointer(&self, ptr: u8) -> (r: Result<u16, BusError>)
        ensures
            r == crate::model::zero_page_pointer(self@.mem, ptr),
    {
        let lo = match self.bus.mem_read(ptr as u16) {
            Ok(b) => b,
            Err(e) => return Err(e),
        };
        let hi = match self.bus.mem_read(ptr.wrapping_add(1) as u16) {
            Ok(b) => b,
            Err(e) => return Err(e),
        };
        Ok(((hi as u16) << 8u16) | (lo as u16))
    }

    /// The byte at the effective address under `mode`.
    fn operand_value(&self, mode: AddressingMode) -> (r: Result<u8, BusError>)
        ensures
            r == operand(self@, mode),
    {
        match self.get_operand_address(mode) {
            Ok(addr) => self.bus.mem_read(addr),
            Err(e) => Err(e),
        }
    }

    /// Reinitialises the registers and loads the program counter from the reset vector.
    /// RAM is kept.
    pub fn reset(&mut self) -> (r: Result<(), BusError>)
        ensures
            match old(self)@.mem.read_u16(RESET_VECTOR) {
                Ok(pc) => r == Ok::<(), BusError>(()) && final(self)@ == (CpuView {
                    a: 0,
                    x: 0,
                    y: 0,
                    status: STATUS_RESET,
                    pc,
                    sp: STACK_RESET,
                    mem: old(self)@.mem,
                }),
                Err(e) => r == Err::<(), BusError>(e) && final(self)@ == old(self)@,
            },
    {
        let pc = match self.bus.mem_read_u16(RESET_VECTOR) {
            Ok(w) => w,
            Err(e) => return Err(e),
        };
        self.register_a = 0;
        self.register_x = 0;
        self.register_y = 0;
        self.status = STATUS_RESET;
        self.program_counter = pc;
        self.stack_pointer = STACK_RESET;
        Ok(())
    }

    /// Places `program` in RAM from `$0600` on, then points the reset vector at it. RAM ends at
    /// `$1FFF`: a longer program stops at the PPU window, and the reset vector lies in program
    /// ROM, so the last step is always refused.
    pub fn load(&mut self, program: Vec<u8>) -> (r: Result<(), BusError>)
        ensures
            program@.len() <= 0x1A00 ==> r == Err::<(), BusError>(BusError::PrgRomWrite(RESET_VECTOR)),
            program@.len() > 0x1A00 ==> r == Err::<(), BusError>(BusError::PpuNotImplemented(0x2000)),
            final(self)@ == (CpuView {
                mem: BusView {
                    ram: loaded(
                        old(self)@.mem.ram,
                        program@,
                        if program@.len() <= 0x1A00 { program@.len() } else { 0x1A00 },
                    ),
                    rom: old(self)@.mem.rom,
                },
                ..old(self)@
            }),
    {
        let len = program.len();
        let n: usize = if len <= 0x1A00 {
            len
        } else {
            0x1A00
        };
        let mut i: usize = 0;
        while i < n
            invariant
                n <= program@.len(),
                n <= 0x1A00,
                i <= n,
                self@ == (CpuView {
                    mem: BusView {
                        ram: loaded(old(self)@.mem.ram, program@, i as nat),
                        rom: old(self)@.mem.rom,
                    },
                    ..old(self)@
                }),
            decreases n - i,
        {
            let addr = 0x0600 + i as u16;
            let _ = self.bus.mem_write(addr, program[i]);
            i = i + 1;
        }
        if len > 0x1A00 {
            return Err(BusError::PpuNotImplemented(0x2000));
        }
        self.bus.mem_write_u16(RESET_VECTOR, 0x0600)
    }

    fn set_status_flag(&mut self, mask: u8, on: bool)
        ensures
            final(self)@ == (CpuView { status: set_flag(old(self).status, mask, on), ..old(self)@ }),
    {
        if on {
            self.status = self.status | mask;
        } else {
            self.status = self.status & !mask;
        }
    }

    fn update_zero_and_negative_flags(&mut self, result: u8)
        ensures
            final(self)@ == (CpuView { status: zn(old(self).status, result), ..old(self)@ }),
    {
        self.set_status_flag(ZERO, result == 0);
        self.set_status_flag(NEGATIVE, result & 0b1000_0000 != 0);
    }

    fn set_carry_flag(&mut self, carry: bool)
        ensures
            final(self)@ == (CpuView { status: set_flag(old(self).status, CARRY, carry), ..old(self)@ }),
    {
        self.set_status_flag(CARRY, carry);
    }

    fn set_overflow_flag(&mut self, overflow: bool)
        ensures
            final(self)@ == (CpuView {
                status: set_flag(old(self).status, OVERFLOW, overflow),
                ..old(self)@
            }),
    {
        self.set_status_flag(OVERFLOW, overflow);
    }

    fn set_interrupt_flag(&mut self, interrupt: bool)
        ensures
            final(self)@ == (CpuView {
                status: set_flag(old(self).status, INTERRUPT, interrupt),
                ..old(self)@
            }),
    {
        self.set_status_flag(INTERRUPT, interrupt);
    }

    fn set_decimal_flag(&mut self, decimal: bool)
        ensures
            final(self)@ == (CpuView {
                status: set_flag(old(self).status, DECIMAL, decimal),
                ..old(self)@
            }),
    {
        self.set_status_flag(DECIMAL, decimal);
    }

    /// `A + value + C`: sets C on unsigned carry out and V on signed overflow, and returns the
    /// sum's low byte. A itself is left for the caller to set.
    pub fn add(&mut self, value: u8) -> (r: u8)
        ensures
            r == add_with_carry(old(self)@, value).a,
            final(self)@ == (CpuView { status: adc_status(old(self)@, value), ..old(self)@ }),
    {
        let status = self.status;
        let carry = status & CARRY;
        assert(carry == 0 || carry == 1) by (bit_vector)
            requires
                carry == status & 0b0000_0001,
        ;
        let sum: u16 = self.register_a as u16 + value as u16 + carry as u16;
        let result = (sum % 256) as u8;
        self.set_carry_flag(sum > 0xFF);
        self.set_overflow_flag((self.register_a ^ result) & (value ^ result) & 0b1000_0000 != 0);
        result
    }

    /// Writes `value` at the stack cell, then decrements the stack pointer.
    pub fn push_to_stack(&mut self, value: u8)
        ensures
            final(self)@ == push(old(self)@, value),
    {
        let addr = STACK + self.stack_pointer as u16;
        assert(addr & 0x07FF == addr) by (bit_vector)
            requires
                addr <= 0x01FF,
        ;
        let _ = self.bus.mem_write(addr, value);
        self.stack_pointer = self.stack_pointer.wrapping_sub(1);
    }

    /// Increments the stack pointer, then reads the stack cell.
    pub fn pull_from_stack(&mut self) -> (r: u8)
        ensures
            r == pulled(old(self)@),
            final(self)@ == pull(old(self)@),
    {
        self.stack_pointer = self.stack_pointer.wrapping_add(1);
        let addr = STACK + self.stack_pointer as u16;
        assert(addr & 0x07FF == addr) by (bit_vector)
            requires
                addr <= 0x01FF,
        ;
        match self.bus.mem_read(addr) {
            Ok(v) => v,
            Err(_) => 0,
        }
    }

    fn adc(&mut self, op: &OpCode) -> (r: Result<(), BusError>)
        requires
            op.mnemonic == Mnemonic::Adc,
        ensures
            outcome(old(self)@, final(self)@, r, execute(old(self)@, *op)),
    {
        let value = match self.operand_value(op.mode) {
            Ok(v) => v,
            Err(e) => return Err(e),
        };
        let result = self.add(value);
        self.register_a = result;
        self.update_zero_and_negative_flags(result);
        self.program_counter = self.program_counter.wrapping_add(op.length);
        Ok(())
    }

    fn and(&mut self, op: &OpCode) -> (r: Result<(), BusError>)
        requires
            op.mnemonic == Mnemonic::And,
        ensures
            outcome(old(self)@, final(self)@, r, execute(old(self)@, *op)),
    {
        let value = match self.operand_value(op.mode) {
            Ok(v) => v,
            Err(e) => return Err(e),
        };
        self.register_a = self.register_a & value;
        self.update_zero_and_negative_flags(self.register_a);
        self.program_counter = self.program_counter.wrapping_add(op.length);
        Ok(())
    }

    fn asl(&mut self, op: &OpCode) -> (r: Result<(), BusError>)
        requires
            op.mnemonic == Mnemonic::Asl,
        ensures
            outcome(old(self)@, final(self)@, r, execute(old(self)@, *op)),
    {
        if op.mode == AddressingMode::NoneAddressing {
            let value = self.register_a;
            let result = value << 1u8;
            self.set_carry_flag(value & 0b1000_0000 != 0);
            self.register_a = result;
            self.update_zero_and_negative_flags(result);
        } else {
            let addr = match self.get_operand_address(op.mode) {
                Ok(a) => a,
                Err(e) => return Err(e),
            };
            let value = match self.bus.mem_read(addr) {
                Ok(v) => v,
                Err(e) => return Err(e),
            };
            let result = value << 1u8;
            match self.bus.mem_write(addr, result) {
                Ok(()) => {},
                Err(e) => return Err(e),
            }
            self.set_carry_flag(value & 0b1000_0000 != 0);
            self.update_zero_and_negative_flags(result);
        }
        self.program_counter = self.program_counter.wrapping_add(op.length);
        Ok(())
    }

    fn bcc(&mut self, op: &OpCode) -> (r: Result<(), BusError>)
        requires
            op.mnemonic == Mnemonic::Bcc,
        ensures
            outcome(old(self)@, final(self)@, r, execute(old(self)@, *op)),
    {
        self.branch(op, self.status & CARRY == 0)
    }

    fn bcs(&mut self, op: &OpCode) -> (r: Result<(), BusError>)
        requires
            op.mnemonic == Mnemonic::Bcs,
        ensures
            outcome(old(self)@, final(self)@, r, execute(old(self)@, *op)),
    {
        self.branch(op, self.status & CARRY != 0)
    }

    fn beq(&mut self, op: &OpCode) -> (r: Result<(), BusError>)
        requires
            op.mnemonic == Mnemonic::Beq,
        ensures
            outcome(old(self)@, final(self)@, r, execute(old(self)@, *op)),
    {
        self.branch(op, self.status & ZERO != 0)
    }

    fn bit(&mut self, op: &OpCode) -> (r: Result<(), BusError>)
        requires
            op.mnemonic == Mnemonic::Bit,
        ensures
            outcome(old(self)@, final(self)@, r, execute(old(self)@, *op)),
    {
        let value = match self.operand_value(op.mode) {
            Ok(v) => v,
            Err(e) => return Err(e),
        };
        self.set_status_flag(ZERO, self.register_a & value == 0);
        self.set_status_flag(NEGATIVE, value & 0b1000_0000 != 0);
        self.set_overflow_flag(value & 0b0100_0000 != 0);
        self.program_counter = self.program_counter.wrapping_add(op.length);
        Ok(())
    }

    fn bmi(&mut self, op: &OpCode) -> (r: Result<(), BusError>)
        requires
            op.mnemonic == Mnemonic::Bmi,
        ensures
            outcome(old(self)@, final(self)@, r, execute(old(self)@, *op)),
    {
        self.branch(op, self.status & NEGATIVE != 0)
    }

    fn bne(&mut self, op: &OpCode) -> (r: Result<(), BusError>)
        requires
            op.mnemonic == Mnemonic::Bne,
        ensures
            outcome(old(self)@, final(self)@, r, execute(old(self)@, *op)),
    {
        self.branch(op, self.status & ZERO == 0)
    }

    fn bpl(&mut self, op: &OpCode) -> (r: Result<(), BusError>)
        requires
            op.mnemonic == Mnemonic::Bpl,
        ensures
            outcome(old(self)@, final(self)@, r, execute(old(self)@, *op)),
    {
        self.branch(op, self.status & NEGATIVE == 0)
    }

    fn bvc(&mut self, op: &OpCode) -> (r: Result<(), BusError>)
        requires
            op.mnemonic == Mnemonic::Bvc,
        ensures
            outcome(old(self)@, final(self)@, r, execute(old(self)@, *op)),
    {
        self.branch(op, self.status & OVERFLOW == 0)
    }

    fn bvs(&mut self, op: &OpCode) -> (r: Result<(), BusError>)
        requires
            op.mnemonic == Mnemonic::Bvs,
        ensures
            outcome(old(self)@, final(self)@, r, execute(old(self)@, *op)),
    {
        self.branch(op, self.status & OVERFLOW != 0)
    }

    fn clc(&mut self, op: &OpCode) -> (r: Result<(), BusError>)
        requires
            op.mnemonic == Mnemonic::Clc,
        ensures
            outcome(old(self)@, final(self)@, r, execute(old(self)@, *op)),
    {
        self.set_carry_flag(false);
        self.program_counter = self.program_counter.wrapping_add(op.length);
        Ok(())
    }

    fn cld(&mut self, op: &OpCode) -> (r: Result<(), BusError>)
        requires
            op.mnemonic == Mnemonic::Cld,
        ensures
            outcome(old(self)@, final(self)@, r, execute(old(self)@, *op)),
    {
        self.set_decimal_flag(false);
        self.program_counter = self.program_counter.wrapping_add(op.length);
        Ok(())
    }

    fn cli(&mut self, op: &OpCode) -> (r: Result<(), BusError>)
        requires
            op.mnemonic == Mnemonic::Cli,
        ensures
            outcome(old(self)@, final(self)@, r, execute(old(self)@, *op)),
    {
        self.set_interrupt_flag(false);
        self.program_counter = self.program_counter.wrapping_add(op.length);
        Ok(())
    }

    fn clv(&mut self, op: &OpCode) -> (r: Result<(), BusError>)
        requires
            op.mnemonic == Mnemonic::Clv,
        ensures
            outcome(old(self)@, final(self)@, r, execute(old(self)@, *op)),
    {
        self.set_overflow_flag(false);
        self.program_counter = self.program_counter.wrapping_add(op.length);
        Ok(())
    }

    fn cmp(&mut self, op: &OpCode) -> (r: Result<(), BusError>)
        requires
            op.mnemonic == Mnemonic::Cmp,
        ensures
            outcome(old(self)@, final(self)@, r, execute(old(self)@, *op)),
    {
        let value = match self.operand_value(op.mode) {
            Ok(v) => v,
            Err(e) => return Err(e),
        };
        self.set_carry_flag(self.register_a >= value);
        self.update_zero_and_negative_flags(self.register_a.wrapping_sub(value));
        self.program_counter = self.program_counter.wrapping_add(op.length);
        Ok(())
    }

    fn cpx(&mut self, op: &OpCode) -> (r: Result<(), BusError>)
        requires
            op.mnemonic == Mnemonic::Cpx,
        ensures
            outcome(old(self)@, final(self)@, r, execute(old(self)@, *op)),
    {
        let value = match self.operand_value(op.mode) {
            Ok(v) => v,
            Err(e) => return Err(e),
        };
        self.set_carry_flag(self.register_x >= value);
        self.update_zero_and_negative_flags(self.register_x.wrapping_sub(value));
        self.program_counter = self.program_counter.wrapping_add(op.length);
        Ok(())
    }

    fn cpy(&mut self, op: &OpCode) -> (r: Result<(), BusError>)
        requires
            op.mnemonic == Mnemonic::Cpy,
        ensures
            outcome(old(self)@, final(self)@, r, execute(old(self)@, *op)),
    {
        let value = match self.operand_value(op.mode) {
            Ok(v) => v,
            Err(e) => return Err(e),
        };
        self.set_carry_flag(self.register_y >= value);
        self.update_zero_and_negative_flags(self.register_y.wrapping_sub(value));
        self.program_counter = self.program_counter.wrapping_add(op.length);
        Ok(())
    }

    fn dec(&mut self, op: &OpCode) -> (r: Result<(), BusError>)
        requires
            op.mnemonic == Mnemonic::Dec,
        ensures
            outcome(old(self)@, final(self)@, r, execute(old(self)@, *op)),
    {
        let addr = match self.get_operand_address(op.mode) {
            Ok(a) => a,
            Err(e) => return Err(e),
        };
        let value = match self.bus.mem_read(addr) {
            Ok(v) => v,
            Err(e) => return Err(e),
        };
        let result = value.wrapping_sub(1);
        match self.bus.mem_write(addr, result) {
            Ok(()) => {},
            Err(e) => return Err(e),
        }
        self.update_zero_and_negative_flags(result);
        self.program_counter = self.program_counter.wrapping_add(op.length);
        Ok(())
    }

    fn dex(&mut self, op: &OpCode) -> (r: Result<(), BusError>)
        requires
            op.mnemonic == Mnemonic::Dex,
        ensures
            outcome(old(self)@, final(self)@, r, execute(old(self)@, *op)),
    {
        self.register_x = self.register_x.wrapping_sub(1);
        self.update_zero_and_negative_flags(self.register_x);
        self.program_counter = self.program_counter.wrapping_add(op.length);
        Ok(())
    }

    fn dey(&mut self, op: &OpCode) -> (r: Result<(), BusError>)
        requires
            op.mnemonic == Mnemonic::Dey,
        ensures
            outcome(old(self)@, final(self)@, r, execute(old(self)@, *op)),
    {
        self.register_y = self.register_y.wrapping_sub(1);
        self.update_zero_and_negative_flags(self.register_y);
        self.program_counter = self.program_counter.wrapping_add(op.length);
        Ok(())
    }

    fn eor(&mut self, op: &OpCode) -> (r: Result<(), BusError>)
        requires
            op.mnemonic == Mnemonic::Eor,
        ensures
            outcome(old(self)@, final(self)@, r, execute(old(self)@, *op)),
    {
        let value = match self.operand_value(op.mode) {
            Ok(v) => v,
            Err(e) => return Err(e),
        };
        self.register_a = self.register_a ^ value;
        self.update_zero_and_negative_flags(self.register_a);
        self.program_counter = self.program_counter.wrapping_add(op.length);
        Ok(())
    }

    fn inc(&mut self, op: &OpCode) -> (r: Result<(), BusError>)
        requires
            op.mnemonic == Mnemonic::Inc,
        ensures
            outcome(old(self)@, final(self)@, r, execute(old(self)@, *op)),
    {
        let addr = match self.get_operand_address(op.mode) {
            Ok(a) => a,
            Err(e) => return Err(e),
        };
        let value = match self.bus.mem_read(addr) {
            Ok(v) => v,
            Err(e) => return Err(e),
        };
        let result = value.wrapping_add(1);
        match self.bus.mem_write(addr, result) {
            Ok(()) => {},
            Err(e) => return Err(e),
        }
        self.update_zero_and_negative_flags(result);
        self.program_counter = self.program_counter.wrapping_add(op.length);
        Ok(())
    }

    fn inx(&mut self, op: &OpCode) -> (r: Result<(), BusError>)
        requires
            op.mnemonic == Mnemonic::Inx,
        ensures
            outcome(old(self)@, final(self)@, r, execute(old(self)@, *op)),
    {
        self.register_x = self.register_x.wrapping_add(1);
        self.update_zero_and_negative_flags(self.register_x);
        self.program_counter = self.program_counter.wrapping_add(op.length);
        Ok(())
    }

    fn iny(&mut self, op: &OpCode) -> (r: Result<(), BusError>)
        requires
            op.mnemonic == Mnemonic::Iny,
        ensures
            outcome(old(self)@, final(self)@, r, execute(old(self)@, *op)),
    {
        self.register_y = self.register_y.wrapping_add(1);
        self.update_zero_and_negative_flags(self.register_y);
        self.program_counter = self.program_counter.wrapping_add(op.length);
        Ok(())
    }

    fn jmp(&mut self, op: &OpCode) -> (r: Result<(), BusError>)
        requires
            op.mnemonic == Mnemonic::Jmp,
        ensures
            outcome(old(self)@, final(self)@, r, execute(old(self)@, *op)),
    {
        let addr = match self.get_operand_address(op.mode) {
            Ok(a) => a,
            Err(e) => return Err(e),
        };
        self.program_counter = addr;
        Ok(())
    }

    fn jsr(&mut self, op: &OpCode) -> (r: Result<(), BusError>)
        requires
            op.mnemonic == Mnemonic::Jsr,
        ensures
            outcome(old(self)@, final(self)@, r, execute(old(self)@, *op)),
    {
        let jump_addr = match self.get_operand_address(op.mode) {
            Ok(a) => a,
            Err(e) => return Err(e),
        };
        let return_addr = self.program_counter.wrapping_add(op.length).wrapping_sub(1);
        self.push_to_stack((return_addr >> 8u16) as u8);
        self.push_to_stack((return_addr & 0xFF) as u8);
        self.program_counter = jump_addr;
        Ok(())
    }

    fn lda(&mut self, op: &OpCode) -> (r: Result<(), BusError>)
        requires
            op.mnemonic == Mnemonic::Lda,
        ensures
            outcome(old(self)@, final(self)@, r, execute(old(self)@, *op)),
    {
        let value = match self.operand_value(op.mode) {
            Ok(v) => v,
            Err(e) => return Err(e),
        };
        self.register_a = value;
        self.update_zero_and_negative_flags(self.register_a);
        self.program_counter = self.program_counter.wrapping_add(op.length);
        Ok(())
    }

    fn ldx(&mut self, op: &OpCode) -> (r: Result<(), BusError>)
        requires
            op.mnemonic == Mnemonic::Ldx,
        ensures
            outcome(old(self)@, final(self)@, r, execute(old(self)@, *op)),
    {
        let value = match self.operand_value(op.mode) {
            Ok(v) => v,
            Err(e) => return Err(e),
        };
        self.register_x = value;
        self.update_zero_and_negative_flags(self.register_x);
        self.program_counter = self.program_counter.wrapping_add(op.length);
        Ok(())
    }

    fn ldy(&mut self, op: &OpCode) -> (r: Result<(), BusError>)
        requires
            op.mnemonic == Mnemonic::Ldy,
        ensures
            outcome(old(self)@, final(self)@, r, execute(old(self)@, *op)),
    {
        let value = match self.operand_value(op.mode) {
            Ok(v) => v,
            Err(e) => return Err(e),
        };
        self.register_y = value;
        self.update_zero_and_negative_flags(self.register_y);
        self.program_counter = self.program_counter.wrapping_add(op.length);
        Ok(())
    }

    fn lsr(&mut self, op: &OpCode) -> (r: Result<(), BusError>)
        requires
            op.mnemonic == Mnemonic::Lsr,
        ensures
            outcome(old(self)@, final(self)@, r, execute(old(self)@, *op)),
    {
        if op.mode == AddressingMode::NoneAddressing {
            let value = self.register_a;
            let result = value >> 1u8;
            self.set_carry_flag(value & 0b0000_0001 != 0);
            self.register_a = result;
            self.update_zero_and_negative_flags(result);
        } else {
            let addr = match self.get_operand_address(op.mode) {
                Ok(a) => a,
                Err(e) => return Err(e),
            };
            let value = match self.bus.mem_read(addr) {
                Ok(v) => v,
                Err(e) => return Err(e),
            };
            let result = value >> 1u8;
            match self.bus.mem_write(addr, result) {
                Ok(()) => {},
                Err(e) => return Err(e),
            }
            self.set_carry_flag(value & 0b0000_0001 != 0);
            self.update_zero_and_negative_flags(result);
        }
        self.program_counter = self.program_counter.wrapping_add(op.length);
        Ok(())
    }

    fn nop(&mut self, op: &OpCode) -> (r: Result<(), BusError>)
        requires
            op.mnemonic == Mnemonic::Nop,
        ensures
            outcome(old(self)@, final(self)@, r, execute(old(self)@, *op)),
    {
        self.program_counter = self.program_counter.wrapping_add(op.length);
        Ok(())
    }

    fn ora(&mut self, op: &OpCode) -> (r: Result<(), BusError>)
        requires
            op.mnemonic == Mnemonic::Ora,
        ensures
            outcome(old(self)@, final(self)@, r, execute(old(self)@, *op)),
    {
        let value = match self.operand_value(op.mode) {
            Ok(v) => v,
            Err(e) => return Err(e),
        };
        self.register_a = self.register_a | value;
        self.update_zero_and_negative_flags(self.register_a);
        self.program_counter = self.program_counter.wrapping_add(op.length);
        Ok(())
    }

    fn pha(&mut self, op: &OpCode) -> (r: Result<(), BusError>)
        requires
            op.mnemonic == Mnemonic::Pha,
        ensures
            outcome(old(self)@, final(self)@, r, execute(old(self)@, *op)),
    {
        self.push_to_stack(self.register_a);
        self.program_counter = self.program_counter.wrapping_add(op.length);
        Ok(())
    }

    fn php(&mut self, op: &OpCode) -> (r: Result<(), BusError>)
        requires
            op.mnemonic == Mnemonic::Php,
        ensures
            outcome(old(self)@, final(self)@, r, execute(old(self)@, *op)),
    {
        self.push_to_stack(self.status | BREAK | UNUSED);
        self.program_counter = self.program_counter.wrapping_add(op.length);
        Ok(())
    }

    fn pla(&mut self, op: &OpCode) -> (r: Result<(), BusError>)
        requires
            op.mnemonic == Mnemonic::Pla,
        ensures
            outcome(old(self)@, final(self)@, r, execute(old(self)@, *op)),
    {
        self.register_a = self.pull_from_stack();
        self.update_zero_and_negative_flags(self.register_a);
        self.program_counter = self.program_counter.wrapping_add(op.length);
        Ok(())
    }

    fn plp(&mut self, op: &OpCode) -> (r: Result<(), BusError>)
        requires
            op.mnemonic == Mnemonic::Plp,
        ensures
            outcome(old(self)@, final(self)@, r, execute(old(self)@, *op)),
    {
        let status = self.pull_from_stack();
        self.status = (status & !BREAK) | UNUSED;
        self.program_counter = self.program_counter.wrapping_add(op.length);
        Ok(())
    }

    fn rol(&mut self, op: &OpCode) -> (r: Result<(), BusError>)
        requires
            op.mnemonic == Mnemonic::Rol,
        ensures
            outcome(old(self)@, final(self)@, r, execute(old(self)@, *op)),
    {
        if op.mode == AddressingMode::NoneAddressing {
            let value = self.register_a;
            let result = (value << 1u8) | (self.status & CARRY);
            self.set_carry_flag(value & 0b1000_0000 != 0);
            self.register_a = result;
            self.update_zero_and_negative_flags(result);
        } else {
            let addr = match self.get_operand_address(op.mode) {
                Ok(a) => a,
                Err(e) => return Err(e),
            };
            let value = match self.bus.mem_read(addr) {
                Ok(v) => v,
                Err(e) => return Err(e),
            };
            let result = (value << 1u8) | (self.status & CARRY);
            match self.bus.mem_write(addr, result) {
                Ok(()) => {},
                Err(e) => return Err(e),
            }
            self.set_carry_flag(value & 0b1000_0000 != 0);
            self.update_zero_and_negative_flags(result);
        }
        self.program_counter = self.program_counter.wrapping_add(op.length);
        Ok(())
    }

    fn ror(&mut self, op: &OpCode) -> (r: Result<(), BusError>)
        requires
            op.mnemonic == Mnemonic::Ror,
        ensures
            outcome(old(self)@, final(self)@, r, execute(old(self)@, *op)),
    {
        if op.mode == AddressingMode::NoneAddressing {
            let value = self.register_a;
            let result = (value >> 1u8) | ((self.status & CARRY) << 7u8);
            self.set_carry_flag(value & 0b0000_0001 != 0);
            self.register_a = result;
            self.update_zero_and_negative_flags(result);
        } else {
            let addr = match self.get_operand_address(op.mode) {
                Ok(a) => a,
                Err(e) => return Err(e),
            };
            let value = match self.bus.mem_read(addr) {
                Ok(v) => v,
                Err(e) => return Err(e),
            };
            let result = (value >> 1u8) | ((self.status & CARRY) << 7u8);
            match self.bus.mem_write(addr, result) {
                Ok(()) => {},
                Err(e) => return Err(e),
            }
            self.set_carry_flag(value & 0b0000_0001 != 0);
            self.update_zero_and_negative_flags(result);
        }
        self.program_counter = self.program_counter.wrapping_add(op.length);
        Ok(())
    }

    fn rti(&mut self, op: &OpCode) -> (r: Result<(), BusError>)
        requires
            op.mnemonic == Mnemonic::Rti,
        ensures
            outcome(old(self)@, final(self)@, r, execute(old(self)@, *op)),
    {
        let status = self.pull_from_stack();
        let lo = self.pull_from_stack();
        let hi = self.pull_from_stack();
        self.status = (status & !BREAK) | UNUSED;
        self.program_counter = ((hi as u16) << 8u16) | (lo as u16);
        Ok(())
    }

    fn rts(&mut self, op: &OpCode) -> (r: Result<(), BusError>)
        requires
            op.mnemonic == Mnemonic::Rts,
        ensures
            outcome(old(self)@, final(self)@, r, execute(old(self)@, *op)),
    {
        let lo = self.pull_from_stack();
        let hi = self.pull_from_stack();
        self.program_counter = (((hi as u16) << 8u16) | (lo as u16)).wrapping_add(1);
        Ok(())
    }

    fn sbc(&mut self, op: &OpCode) -> (r: Result<(), BusError>)
        requires
            op.mnemonic == Mnemonic::Sbc,
        ensures
            outcome(old(self)@, final(self)@, r, execute(old(self)@, *op)),
    {
        let value = match self.operand_value(op.mode) {
            Ok(v) => v,
            Err(e) => return Err(e),
        };
        // A - M - (1 - C) is A + !M + C
        let result = self.add(!value);
        self.register_a = result;
        self.update_zero_and_negative_flags(result);
        self.program_counter = self.program_counter.wrapping_add(op.length);
        Ok(())
    }

    fn sec(&mut self, op: &OpCode) -> (r: Result<(), BusError>)
        requires
            op.mnemonic == Mnemonic::Sec,
        ensures
            outcome(old(self)@, final(self)@, r, execute(old(self)@, *op)),
    {
        self.set_carry_flag(true);
        self.program_counter = self.program_counter.wrapping_add(op.length);
        Ok(())
    }

    fn sed(&mut self, op: &OpCode) -> (r: Result<(), BusError>)
        requires
            op.mnemonic == Mnemonic::Sed,
        ensures
            outcome(old(self)@, final(self)@, r, execute(old(self)@, *op)),
    {
        self.set_decimal_flag(true);
        self.program_counter = self.program_counter.wrapping_add(op.length);
        Ok(())
    }

    fn sei(&mut self, op: &OpCode) -> (r: Result<(), BusError>)
        requires
            op.mnemonic == Mnemonic::Sei,
        ensures
            outcome(old(self)@, final(self)@, r, execute(old(self)@, *op)),
    {
        self.set_interrupt_flag(true);
        self.program_counter = self.program_counter.wrapping_add(op.length);
        Ok(())
    }

    fn sta(&mut self, op: &OpCode) -> (r: Result<(), BusError>)
        requires
            op.mnemonic == Mnemonic::Sta,
        ensures
            outcome(old(self)@, final(self)@, r, execute(old(self)@, *op)),
    {
        let addr = match self.get_operand_address(op.mode) {
            Ok(a) => a,
            Err(e) => return Err(e),
        };
        match self.bus.mem_write(addr, self.register_a) {
            Ok(()) => {},
            Err(e) => return Err(e),
        }
        self.program_counter = self.program_counter.wrapping_add(op.length);
        Ok(())
    }

    fn stx(&mut self, op: &OpCode) -> (r: Result<(), BusError>)
        requires
            op.mnemonic == Mnemonic::Stx,
        ensures
            outcome(old(self)@, final(self)@, r, execute(old(self)@, *op)),
    {
        let addr = match self.get_operand_address(op.mode) {
            Ok(a) => a,
            Err(e) => return Err(e),
        };
        match self.bus.mem_write(addr, self.register_x) {
            Ok(()) => {},
            Err(e) => return Err(e),
        }
        self.program_counter = self.program_counter.wrapping_add(op.length);
        Ok(())
    }

    fn sty(&mut self, op: &OpCode) -> (r: Result<(), BusError>)
        requires
            op.mnemonic == Mnemonic::Sty,
        ensures
            outcome(old(self)@, final(self)@, r, execute(old(self)@, *op)),
    {
        let addr = match self.get_operand_address(op.mode) {
            Ok(a) => a,
            Err(e) => return Err(e),
        };
        match self.bus.mem_write(addr, self.register_y) {
            Ok(()) => {},
            Err(e) => return Err(e),
        }
        self.program_counter = self.program_counter.wrapping_add(op.length);
        Ok(())
    }

    fn tax(&mut self, op: &OpCode) -> (r: Result<(), BusError>)
        requires
            op.mnemonic == Mnemonic::Tax,
        ensures
            outcome(old(self)@, final(self)@, r, execute(old(self)@, *op)),
    {
        self.register_x = self.register_a;
        self.update_zero_and_negative_flags(self.register_x);
        self.program_counter = self.program_counter.wrapping_add(op.length);
        Ok(())
    }

    fn tay(&mut self, op: &OpCode) -> (r: Result<(), BusError>)
        requires
            op.mnemonic == Mnemonic::Tay,
        ensures
            outcome(old(self)@, final(self)@, r, execute(old(self)@, *op)),
    {
        self.register_y = self.register_a;
        self.update_zero_and_negative_flags(self.register_y);
        self.program_counter = self.program_counter.wrapping_add(op.length);
        Ok(())
    }

    fn tsx(&mut self, op: &OpCode) -> (r: Result<(), BusError>)
        requires
            op.mnemonic == Mnemonic::Tsx,
        ensures
            outcome(old(self)@, final(self)@, r, execute(old(self)@, *op)),
    {
        self.register_x = self.stack_pointer;
        self.update_zero_and_negative_flags(self.register_x);
        self.program_counter = self.program_counter.wrapping_add(op.length);
        Ok(())
    }

    fn txa(&mut self, op: &OpCode) -> (r: Result<(), BusError>)
        requires
            op.mnemonic == Mnemonic::Txa,
        ensures
            outcome(old(self)@, final(self)@, r, execute(old(self)@, *op)),
    {
        self.register_a = self.register_x;
        self.update_zero_and_negative_flags(self.register_a);
        self.program_counter = self.program_counter.wrapping_add(op.length);
        Ok(())
    }

    fn txs(&mut self, op: &OpCode) -> (r: Result<(), BusError>)
        requires
            op.mnemonic == Mnemonic::Txs,
        ensures
            outcome(old(self)@, final(self)@, r, execute(old(self)@, *op)),
    {
        self.stack_pointer = self.register_x;
        self.program_counter = self.program_counter.wrapping_add(op.length);
        Ok(())
    }

    fn tya(&mut self, op: &OpCode) -> (r: Result<(), BusError>)
        requires
            op.mnemonic == Mnemonic::Tya,
        ensures
            outcome(old(self)@, final(self)@, r, execute(old(self)@, *op)),
    {
        self.register_a = self.register_y;
        self.update_zero_and_negative_flags(self.register_a);
        self.program_counter = self.program_counter.wrapping_add(op.length);
        Ok(())
    }

    /// Takes the branch `op` when `condition` holds: the program counter becomes the relative
    /// target plus the instruction's length. Otherwise it only moves past the instruction.
    fn branch(&mut self, op: &OpCode, condition: bool) -> (r: Result<(), BusError>)
        ensures
            condition ==> match operand_address(old(self)@, op.mode) {
                Ok(t) => r == Ok::<(), BusError>(()) && final(self)@ == (CpuView {
                    pc: t.wrapping_add(op.length),
                    ..old(self)@
                }),
                Err(e) => r == Err::<(), BusError>(e) && final(self)@ == old(self)@,
            },
            !condition ==> r == Ok::<(), BusError>(()) && final(self)@ == advance(old(self)@, *op),
    {
        if condition {
            let target = match self.get_operand_address(op.mode) {
                Ok(t) => t,
                Err(e) => return Err(e),
            };
            self.program_counter = target;
        }
        self.program_counter = self.program_counter.wrapping_add(op.length);
        Ok(())
    }

    /// Executes the instruction `op`, which sits at the program counter.
    fn dispatch(&mut self, op: &OpCode) -> (r: Result<(), BusError>)
        ensures
            outcome(old(self)@, final(self)@, r, execute(old(self)@, *op)),
    {
        match op.mnemonic {
            Mnemonic::Adc => self.adc(op),
            Mnemonic::And => self.and(op),
            Mnemonic::Asl => self.asl(op),
            Mnemonic::Bcc => self.bcc(op),
            Mnemonic::Bcs => self.bcs(op),
            Mnemonic::Beq => self.beq(op),
            Mnemonic::Bit => self.bit(op),
            Mnemonic::Bmi => self.bmi(op),
            Mnemonic::Bne => self.bne(op),
            Mnemonic::Bpl => self.bpl(op),
            Mnemonic::Bvc => self.bvc(op),
            Mnemonic::Bvs => self.bvs(op),
            Mnemonic::Clc => self.clc(op),
            Mnemonic::Cld => self.cld(op),
            Mnemonic::Cli => self.cli(op),
            Mnemonic::Clv => self.clv(op),
            Mnemonic::Cmp => self.cmp(op),
            Mnemonic::Cpx => self.cpx(op),
            Mnemonic::Cpy => self.cpy(op),
            Mnemonic::Dec => self.dec(op),
            Mnemonic::Dex => self.dex(op),
            Mnemonic::Dey => self.dey(op),
            Mnemonic::Eor => self.eor(op),
            Mnemonic::Inc => self.inc(op),
            Mnemonic::Inx => self.inx(op),
            Mnemonic::Iny => self.iny(op),
            Mnemonic::Jmp => self.jmp(op),
            Mnemonic::Jsr => self.jsr(op),
            Mnemonic::Lda => self.lda(op),
            Mnemonic::Ldx => self.ldx(op),
            Mnemonic::Ldy => self.ldy(op),
            Mnemonic::Lsr => self.lsr(op),
            Mnemonic::Nop => self.nop(op),
            Mnemonic::Ora => self.ora(op),
            Mnemonic::Pha => self.pha(op),
            Mnemonic::Php => self.php(op),
            Mnemonic::Pla => self.pla(op),
            Mnemonic::Plp => self.plp(op),
            Mnemonic::Rol => self.rol(op),
            Mnemonic::Ror => self.ror(op),
            Mnemonic::Rti => self.rti(op),
            Mnemonic::Rts => self.rts(op),
            Mnemonic::Sbc => self.sbc(op),
            Mnemonic::Sec => self.sec(op),
            Mnemonic::Sed => self.sed(op),
            Mnemonic::Sei => self.sei(op),
            Mnemonic::Sta => self.sta(op),
            Mnemonic::Stx => self.stx(op),
            Mnemonic::Sty => self.sty(op),
            Mnemonic::Tax => self.tax(op),
            Mnemonic::Tay => self.tay(op),
            Mnemonic::Tsx => self.tsx(op),
            Mnemonic::Txa => self.txa(op),
            Mnemonic::Txs => self.txs(op),
            Mnemonic::Tya => self.tya(op),
            Mnemonic::Brk => {
                self.program_counter = self.program_counter.wrapping_add(op.length);
                Ok(())
            },
        }
    }

    /// Fetches, decodes and executes one instruction. Returns whether it was `BRK`; on a fatal
    /// condition the state is left as it was.
    pub fn step(&mut self) -> (r: Result<bool, CpuError>)
        ensures
            match step_result(old(self)@) {
                Ok((t, halted)) => r == Ok::<bool, CpuError>(halted) && final(self)@ == t,
                Err(e) => r == Err::<bool, CpuError>(e) && final(self)@ == old(self)@,
            },
    {
        reveal(step_result);
        let code = match self.bus.mem_read(self.program_counter) {
            Ok(b) => b,
            Err(e) => return Err(CpuError::Bus(e)),
        };
        let opcode = match lookup(code) {
            Some(op) => op,
            None => return Err(CpuError::UnknownOpcode(code)),
        };
        match self.dispatch(&opcode) {
            Ok(()) => Ok(opcode.mnemonic == Mnemonic::Brk),
            Err(e) => Err(CpuError::Bus(e)),
        }
    }

    /// Runs until `BRK` has executed or a fatal condition stops the run.
    pub fn run(&mut self) -> (r: Result<(), CpuError>)
        ensures
            match r {
                Ok(()) => exists|n: nat, t: CpuView|
                    steps(old(self)@, n) == Some(t) && step_result(t) == Ok::<(CpuView, bool), CpuError>((final(self)@, true)),
                Err(CpuError::StepLimit) => steps(old(self)@, u64::MAX as nat) == Some(final(self)@),
                Err(e) => exists|n: nat|
                    steps(old(self)@, n) == Some(final(self)@) && step_result(final(self)@) == Err::<(CpuView, bool), CpuError>(e),
            },
    {
        let ghost start = self@;
        let mut n: u64 = 0;
        loop
            invariant
                start == old(self)@,
                steps(start, n as nat) == Some(self@),
            decreases u64::MAX - n,
        {
            if n == u64::MAX {
                return Err(CpuError::StepLimit);
            }
            let ghost before = self@;
            proof {
                lemma_step_error_kind(before);
            }
            match self.step() {
                Ok(true) => {
                    assert(steps(start, n as nat) == Some(before));
                    return Ok(());
                },
                Ok(false) => {},
                Err(e) => {
                    assert(steps(start, n as nat) == Some(self@));
                    return Err(e);
                },
            }
            n = n + 1;
            assert(steps(start, n as nat) == Some(self@));
        }
    }

    /// Runs as `run` does, calling `callback` before each instruction is fetched. The callback
    /// may change the CPU and its memory; the instruction then runs from the state it left.
    /// The `k`-th call of the callback is `calls[k]`: the CPU it was handed holds `pre[k]` when
    /// the call begins and `post[k]` when it returns.
    pub fn run_with_callback<F>(&mut self, callback: F) -> (r: Result<(), CpuError>)
        where
            F: FnMut(&mut CPU),
        requires
            forall|c: &mut CPU| call_requires(callback, (c,)),
        ensures
            exists|pre: Seq<CpuView>, post: Seq<CpuView>, calls: Seq<&mut CPU>|
                {
                    &&& observed_run(old(self)@, pre, post, r, final(self)@)
                    &&& calls.len() == post.len()
                    &&& forall|k: int|
                        0 <= k < post.len() ==> call_ensures(callback, (#[trigger] calls[k],), ())
                            && calls[k]@ == pre[k] && final(calls[k])@ == post[k]
                },
    {
        let mut observe = callback;
        let ghost mut pre: Seq<CpuView> = seq![self@];
        let ghost mut post: Seq<CpuView> = Seq::empty();
        assert(Seq::<&mut CPU>::empty().len() == 0);
        let mut n: u64 = 0;
        loop
            invariant
                forall|c: &mut CPU| call_requires(observe, (c,)),
                observe == callback,
                pre.len() == n + 1,
                post.len() == n,
                pre[0] == old(self)@,
                pre.last() == self@,
                forall|k: int|
                    0 <= k < pre.len() - 1 ==> #[trigger] step_result(post[k]) == Ok::<
                        (CpuView, bool),
                        CpuError,
                    >((pre[k + 1], false)),
                // The calls are known through their final values, which no ghost variable can
                // hold: they are kept as a witness that exists.
                exists|calls: Seq<&mut CPU>|
                    calls.len() == post.len() && forall|k: int|
                            0 <= k < post.len() ==> call_ensures(callback, (#[trigger] calls[k],), ())
                                && calls[k]@ == pre[k] && final(calls[k])@ == post[k],
            decreases u64::MAX - n,
        {
            if n == u64::MAX {
                proof {
                    let calls = choose|calls: Seq<&mut CPU>|
                        calls.len() == post.len() && forall|k: int|
                            0 <= k < post.len() ==> call_ensures(callback, (#[trigger] calls[k],), ())
                                && calls[k]@ == pre[k] && final(calls[k])@ == post[k];
                    assert(observed_run(old(self)@, pre, post, Err(CpuError::StepLimit), self@)
                        && calls.len() == post.len() && forall|k: int|
                        0 <= k < post.len() ==> call_ensures(callback, (#[trigger] calls[k],), ())
                            && calls[k]@ == pre[k] && final(calls[k])@ == post[k]);
                }
                return Err(CpuError::StepLimit);
            }
            let ghost before = self@;
            observe(self);
            proof {
                let earlier_pre = pre;
                let earlier_post = post;
                let calls = choose|calls: Seq<&mut CPU>|
                    calls.len() == earlier_post.len() && forall|k: int|
                        0 <= k < earlier_post.len() ==> call_ensures(callback, (#[trigger] calls[k],), ())
                            && calls[k]@ == earlier_pre[k] && final(calls[k])@ == earlier_post[k];
                assert(exists|c: &mut CPU|
                    call_ensures(callback, (c,), ()) && c@ == before && final(c)@ == self@);
                let c = choose|c: &mut CPU|
                    call_ensures(callback, (c,), ()) && c@ == before && final(c)@ == self@;
                post = post.push(self@);
                let calls2 = calls.push(c);
                assert(calls2.len() == post.len() && forall|k: int|
                    0 <= k < post.len() ==> call_ensures(callback, (#[trigger] calls2[k],), ())
                        && calls2[k]@ == pre[k] && final(calls2[k])@ == post[k]);
                lemma_step_error_kind(self@);
            }
            match self.step() {
                Ok(true) => {
                    proof {
                        let calls = choose|calls: Seq<&mut CPU>|
                            calls.len() == post.len() && forall|k: int|
                                0 <= k < post.len() ==> call_ensures(callback, (#[trigger] calls[k],), ())
                                    && calls[k]@ == pre[k] && final(calls[k])@ == post[k];
                        assert(observed_run(old(self)@, pre, post, Ok(()), self@) && calls.len()
                            == post.len() && forall|k: int|
                            0 <= k < post.len() ==> call_ensures(callback, (#[trigger] calls[k],), ())
                                && calls[k]@ == pre[k] && final(calls[k])@ == post[k]);
                    }
                    return Ok(());
                },
                Ok(false) => {},
                Err(e) => {
                    proof {
                        let calls = choose|calls: Seq<&mut CPU>|
                            calls.len() == post.len() && forall|k: int|
                                0 <= k < post.len() ==> call_ensures(callback, (#[trigger] calls[k],), ())
                                    && calls[k]@ == pre[k] && final(calls[k])@ == post[k];
                        assert(observed_run(old(self)@, pre, post, Err(e), self@) && calls.len()
                            == post.len() && forall|k: int|
                            0 <= k < post.len() ==> call_ensures(callback, (#[trigger] calls[k],), ())
                                && calls[k]@ == pre[k] && final(calls[k])@ == post[k]);
                    }
                    return Err(e);
                },
            }
            proof {
                pre = pre.push(self@);
            }
            n = n + 1;
        }
    }
}

} // verus!
