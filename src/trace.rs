use vstd::prelude::*;

use crate::bus::BusError;
use crate::cpu::{Mem, CPU};
use crate::model::{operand_address, CpuError, CpuView};
use crate::opcodes::{lookup, mnemonic_text, opcode_table, AddressingMode};

verus! {

/// The upper-case hexadecimal digit for `n` (below 16).
pub open spec fn hex_char(n: u8) -> char {
    match n {
        0 => '0',
        1 => '1',
        2 => '2',
        3 => '3',
        4 => '4',
        5 => '5',
        6 => '6',
        7 => '7',
        8 => '8',
        9 => '9',
        10 => 'A',
        11 => 'B',
        12 => 'C',
        13 => 'D',
        14 => 'E',
        15 => 'F',
        _ => 'F',
    }
}

/// A byte as two upper-case hexadecimal digits.
pub open spec fn hex2(b: u8) -> Seq<char> {
    seq![hex_char(b / 16), hex_char(b % 16)]
}

/// A word as four upper-case hexadecimal digits.
pub open spec fn hex4(w: u16) -> Seq<char> {
    hex2((w / 256) as u8) + hex2((w % 256) as u8)
}

pub open spec fn spaces(n: nat) -> Seq<char> {
    Seq::new(n, |i: int| ' ')
}

/// `s` followed by spaces up to `width` characters.
pub open spec fn pad_right(s: Seq<char>, width: nat) -> Seq<char> {
    if s.len() < width {
        s + spaces((width - s.len()) as nat)
    } else {
        s
    }
}

/// The instruction's bytes, space-separated.
pub open spec fn byte_column(b0: u8, b1: u8, b2: u8, len: u16) -> Seq<char> {
    if len <= 1 {
        hex2(b0)
    } else if len == 2 {
        hex2(b0) + " "@ + hex2(b1)
    } else {
        hex2(b0) + " "@ + hex2(b1) + " "@ + hex2(b2)
    }
}

/// The operand as the trace shows it, from the byte `arg` after the opcode and the byte `b2`
/// after that; memory operands show the effective address and the byte there.
pub open spec fn operand_column(s: CpuView, mode: AddressingMode, arg: u8, b2: u8) -> Result<
    Seq<char>,
    BusError,
> {
    match mode {
        AddressingMode::Immediate => Ok("#$"@ + hex2(arg)),
        AddressingMode::ZeroPage => match s.mem.read(arg as u16) {
            Err(e) => Err(e),
            Ok(v) => Ok("$"@ + hex2(arg) + " = "@ + hex2(v)),
        },
        AddressingMode::ZeroPage_X => match s.mem.read(arg.wrapping_add(s.x) as u16) {
            Err(e) => Err(e),
            Ok(v) => Ok(
                "$"@ + hex2(arg) + ",X @ "@ + hex2(arg.wrapping_add(s.x)) + " = "@ + hex2(v),
            ),
        },
        AddressingMode::ZeroPage_Y => match s.mem.read(arg.wrapping_add(s.y) as u16) {
            Err(e) => Err(e),
            Ok(v) => Ok(
                "$"@ + hex2(arg) + ",Y @ "@ + hex2(arg.wrapping_add(s.y)) + " = "@ + hex2(v),
            ),
        },
        AddressingMode::Absolute => Ok("$"@ + hex2(b2) + hex2(arg)),
        AddressingMode::Absolute_X => Ok("$"@ + hex2(b2) + hex2(arg) + ",X"@),
        AddressingMode::Absolute_Y => Ok("$"@ + hex2(b2) + hex2(arg) + ",Y"@),
        AddressingMode::Indirect | AddressingMode::Indirect_X | AddressingMode::Indirect_Y => {
            match operand_address(s, mode) {
                Err(e) => Err(e),
                Ok(a) => match s.mem.read(a) {
                    Err(e) => Err(e),
                    Ok(v) => Ok(
                        "($"@ + hex2(arg) + (if mode == AddressingMode::Indirect {
                            ") = "@
                        } else if mode == AddressingMode::Indirect_X {
                            "),X = "@
                        } else {
                            "),Y = "@
                        }) + hex4(a) + " @ "@ + hex4(a) + " = "@ + hex2(v),
                    ),
                },
            }
        },
        AddressingMode::Relative => match operand_address(s, mode) {
            Err(e) => Err(e),
            Ok(t) => Ok("$"@ + hex4(t.wrapping_add(2))),
        },
        AddressingMode::NoneAddressing => Ok(Seq::empty()),
    }
}

/// The disassembly of the instruction at the program counter: its bytes, its mnemonic and its
/// operand, in columns of 8, 4 and 26 characters.
pub open spec fn instruction_text(s: CpuView) -> Result<Seq<char>, CpuError> {
    match s.mem.read(s.pc) {
        Err(e) => Err(CpuError::Bus(e)),
        Ok(code) => match opcode_table(code) {
            None => Err(CpuError::UnknownOpcode(code)),
            Some(op) => match s.mem.read(s.pc.wrapping_add(1)) {
                Err(e) => Err(CpuError::Bus(e)),
                Ok(arg) => match (if op.length >= 3 {
                    s.mem.read(s.pc.wrapping_add(2))
                } else {
                    Ok(0u8)
                }) {
                    Err(e) => Err(CpuError::Bus(e)),
                    Ok(b2) => match operand_column(s, op.mode, arg, b2) {
                        Err(e) => Err(CpuError::Bus(e)),
                        Ok(t) => Ok(
                            pad_right(byte_column(code, arg, b2, op.length), 8) + " "@ + spaces(1)
                                + mnemonic_text(op.mnemonic) + " "@ + pad_right(t, 26),
                        ),
                    },
                },
            },
        },
    }
}

/// One trace line: the program counter, the disassembly, then the registers.
pub open spec fn trace_line(s: CpuView, text: Seq<char>) -> Seq<char> {
    hex4(s.pc) + "  "@ + text + "  A:"@ + hex2(s.a) + " X:"@ + hex2(s.x) + " Y:"@ + hex2(s.y)
        + " P:"@ + hex2(s.status) + " SP:"@ + hex2(s.sp)
}

fn hex_digit(n: u8) -> (r: &'static str)
    requires
        n < 16,
    ensures
        r@ == seq![hex_char(n)],
{
    match n {
        0 => {
            proof {
                reveal_strlit("0");
            }
            "0"
        },
        1 => {
            proof {
                reveal_strlit("1");
            }
            "1"
        },
        2 => {
            proof {
                reveal_strlit("2");
            }
            "2"
        },
        3 => {
            proof {
                reveal_strlit("3");
            }
            "3"
        },
        4 => {
            proof {
                reveal_strlit("4");
            }
            "4"
        },
        5 => {
            proof {
                reveal_strlit("5");
            }
            "5"
        },
        6 => {
            proof {
                reveal_strlit("6");
            }
            "6"
        },
        7 => {
            proof {
                reveal_strlit("7");
            }
            "7"
        },
        8 => {
            proof {
                reveal_strlit("8");
            }
            "8"
        },
        9 => {
            proof {
                reveal_strlit("9");
            }
            "9"
        },
        10 => {
            proof {
                reveal_strlit("A");
            }
            "A"
        },
        11 => {
            proof {
                reveal_strlit("B");
            }
            "B"
        },
        12 => {
            proof {
                reveal_strlit("C");
            }
            "C"
        },
        13 => {
            proof {
                reveal_strlit("D");
            }
            "D"
        },
        14 => {
            proof {
                reveal_strlit("E");
            }
            "E"
        },
        15 => {
            proof {
                reveal_strlit("F");
            }
            "F"
        },
        _ => {
            proof {
                reveal_strlit("F");
            }
            "F"
        },
    }
}

fn push_hex2(out: &mut String, b: u8)
    ensures
        final(out)@ == old(out)@ + hex2(b),
{
    out.append(hex_digit(b / 16));
    out.append(hex_digit(b % 16));
    assert(final(out)@ =~= old(out)@ + hex2(b));
}

fn push_hex4(out: &mut String, w: u16)
    ensures
        final(out)@ == old(out)@ + hex4(w),
{
    push_hex2(out, (w / 256) as u8);
    push_hex2(out, (w % 256) as u8);
    assert(final(out)@ =~= old(out)@ + hex4(w));
}

fn push_spaces(out: &mut String, n: usize)
    ensures
        final(out)@ == old(out)@ + spaces(n as nat),
{
    let mut i: usize = 0;
    while i < n
        invariant
            i <= n,
            out@ == old(out)@ + spaces(i as nat),
        decreases n - i,
    {
        proof {
            reveal_strlit(" ");
        }
        out.append(" ");
        i = i + 1;
        assert(out@ =~= old(out)@ + spaces(i as nat));
    }
}

/// The operand column of the trace.
fn operand_text(cpu: &CPU, mode: AddressingMode, arg: u8, b2: u8) -> (r: Result<String, BusError>)
    ensures
        match operand_column(cpu@, mode, arg, b2) {
            Ok(t) => r matches Ok(out) && out@ == t,
            Err(e) => r == Err::<String, BusError>(e),
        },
{
    let mut out = String::new();
    match mode {
        AddressingMode::Immediate => {
            out.append("#$");
            push_hex2(&mut out, arg);
        },
        AddressingMode::ZeroPage => {
            let value = match cpu.mem_read(arg as u16) {
                Ok(v) => v,
                Err(e) => return Err(e),
            };
            out.append("$");
            push_hex2(&mut out, arg);
            out.append(" = ");
            push_hex2(&mut out, value);
        },
        AddressingMode::ZeroPage_X | AddressingMode::ZeroPage_Y => {
            let addr = if mode == AddressingMode::ZeroPage_X {
                arg.wrapping_add(cpu.register_x)
            } else {
                arg.wrapping_add(cpu.register_y)
            };
            let value = match cpu.mem_read(addr as u16) {
                Ok(v) => v,
                Err(e) => return Err(e),
            };
            out.append("$");
            push_hex2(&mut out, arg);
            if mode == AddressingMode::ZeroPage_X {
                out.append(",X @ ");
            } else {
                out.append(",Y @ ");
            }
            push_hex2(&mut out, addr);
            out.append(" = ");
            push_hex2(&mut out, value);
        },
        AddressingMode::Absolute | AddressingMode::Absolute_X | AddressingMode::Absolute_Y => {
            out.append("$");
            push_hex2(&mut out, b2);
            push_hex2(&mut out, arg);
            match mode {
                AddressingMode::Absolute_X => out.append(",X"),
                AddressingMode::Absolute_Y => out.append(",Y"),
                _ => {},
            }
        },
        AddressingMode::Indirect | AddressingMode::Indirect_X | AddressingMode::Indirect_Y => {
            let addr = match cpu.get_operand_address(mode) {
                Ok(a) => a,
                Err(e) => return Err(e),
            };
            let value = match cpu.mem_read(addr) {
                Ok(v) => v,
                Err(e) => return Err(e),
            };
            out.append("($");
            push_hex2(&mut out, arg);
            match mode {
                AddressingMode::Indirect => out.append(") = "),
                AddressingMode::Indirect_X => out.append("),X = "),
                _ => out.append("),Y = "),
            }
            push_hex4(&mut out, addr);
            out.append(" @ ");
            push_hex4(&mut out, addr);
            out.append(" = ");
            push_hex2(&mut out, value);
        },
        AddressingMode::Relative => {
            // the target as the branch takes it, past the instruction's two bytes
            let target = match cpu.get_operand_address(mode) {
                Ok(t) => t,
                Err(e) => return Err(e),
            };
            out.append("$");
            push_hex4(&mut out, target.wrapping_add(2));
        },
        AddressingMode::NoneAddressing => {},
    }
    assert(out@ =~= operand_column(cpu@, mode, arg, b2)->Ok_0);
    Ok(out)
}

/// Appends spaces until `out` has grown by `width` characters since it held `start` of them.
fn pad_to(out: &mut String, start: usize, width: usize)
    requires
        start <= old(out)@.len(),
    ensures
        final(out)@ == old(out)@.subrange(0, start as int) + pad_right(
            old(out)@.subrange(start as int, old(out)@.len() as int),
            width as nat,
        ),
{
    let len = out.as_str().unicode_len();
    let ghost tail = old(out)@.subrange(start as int, old(out)@.len() as int);
    assert(old(out)@ =~= old(out)@.subrange(0, start as int) + tail);
    if len - start < width {
        push_spaces(out, width - (len - start));
        assert(final(out)@ =~= old(out)@.subrange(0, start as int) + (tail + spaces(
            (width - tail.len()) as nat,
        )));
    }
}

/// Disassembles the instruction at the program counter: its bytes, its mnemonic and its
/// operand, in columns of 8, 4 and 26 characters.
pub fn format_instruction(cpu: &CPU) -> (r: Result<String, CpuError>)
    ensures
        match instruction_text(cpu@) {
            Ok(t) => r matches Ok(out) && out@ == t,
            Err(e) => r == Err::<String, CpuError>(e),
        },
{
    let pc = cpu.program_counter;
    let code = match cpu.mem_read(pc) {
        Ok(b) => b,
        Err(e) => return Err(CpuError::Bus(e)),
    };
    let opcode = match lookup(code) {
        Some(op) => op,
        None => return Err(CpuError::UnknownOpcode(code)),
    };
    let arg = match cpu.mem_read(pc.wrapping_add(1)) {
        Ok(b) => b,
        Err(e) => return Err(CpuError::Bus(e)),
    };
    let b2 = if opcode.length >= 3 {
        match cpu.mem_read(pc.wrapping_add(2)) {
            Ok(b) => b,
            Err(e) => return Err(CpuError::Bus(e)),
        }
    } else {
        0
    };
    let operand = match operand_text(cpu, opcode.mode, arg, b2) {
        Ok(t) => t,
        Err(e) => return Err(CpuError::Bus(e)),
    };
    let mut out = String::new();
    push_hex2(&mut out, code);
    if opcode.length >= 2 {
        out.append(" ");
        push_hex2(&mut out, arg);
    }
    if opcode.length >= 3 {
        out.append(" ");
        push_hex2(&mut out, b2);
    }
    assert(out@ =~= byte_column(code, arg, b2, opcode.length));
    pad_to(&mut out, 0, 8);
    assert(out@ =~= pad_right(byte_column(code, arg, b2, opcode.length), 8));
    let ghost before_name = out@;
    out.append(" ");
    push_spaces(&mut out, 1);
    out.append(opcode.name());
    out.append(" ");
    let start = out.as_str().unicode_len();
    out.append(operand.as_str());
    assert(out@.subrange(0, start as int) =~= before_name + " "@ + spaces(1) + mnemonic_text(
        opcode.mnemonic,
    ) + " "@);
    assert(out@.subrange(start as int, out@.len() as int) =~= operand@);
    pad_to(&mut out, start, 26);
    assert(out@ =~= instruction_text(cpu@)->Ok_0);
    Ok(out)
}

/// One trace line for the instruction about to execute: the program counter, the disassembly,
/// then A, X, Y, P and SP.
pub fn trace(cpu: &CPU) -> (r: Result<String, CpuError>)
    ensures
        match instruction_text(cpu@) {
            Ok(t) => r matches Ok(out) && out@ == trace_line(cpu@, t),
            Err(e) => r == Err::<String, CpuError>(e),
        },
{
    let text = match format_instruction(cpu) {
        Ok(t) => t,
        Err(e) => return Err(e),
    };
    let mut out = String::new();
    push_hex4(&mut out, cpu.program_counter);
    out.append("  ");
    out.append(text.as_str());
    out.append("  A:");
    push_hex2(&mut out, cpu.register_a);
    out.append(" X:");
    push_hex2(&mut out, cpu.register_x);
    out.append(" Y:");
    push_hex2(&mut out, cpu.register_y);
    out.append(" P:");
    push_hex2(&mut out, cpu.status);
    out.append(" SP:");
    push_hex2(&mut out, cpu.stack_pointer);
    assert(out@ =~= trace_line(cpu@, text@));
    Ok(out)
}

} // verus!
