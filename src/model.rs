use vstd::prelude::*;

use crate::bus::{ram_index, word, BusError, BusView};
use crate::opcodes::{opcode_table, AddressingMode, Mnemonic, OpCode};

verus! {

// Status register bits: NV1B_DIZC.
pub const CARRY: u8 = 0b0000_0001;

pub const ZERO: u8 = 0b0000_0010;

pub const INTERRUPT: u8 = 0b0000_0100;

pub const DECIMAL: u8 = 0b0000_1000;

pub const BREAK: u8 = 0b0001_0000;

pub const UNUSED: u8 = 0b0010_0000;

pub const OVERFLOW: u8 = 0b0100_0000;

pub const NEGATIVE: u8 = 0b1000_0000;

pub const STACK: u16 = 0x0100;

pub const STACK_RESET: u8 = 0xFD;

pub const STATUS_RESET: u8 = 0b0010_0100;

pub const RESET_VECTOR: u16 = 0xFFFC;

/// Why a run stopped before reaching `BRK`.
#[derive(Debug, Clone, Copy, PartialEq, Eq, Structural)]
pub enum CpuError {
    /// The byte at the program counter is not a documented opcode.
    UnknownOpcode(u8),
    /// An instruction made a fatal bus access.
    Bus(BusError),
    /// The run executed `u64::MAX` instructions without halting.
    StepLimit,
}

/// The registers and the memory the CPU reaches.
pub struct CpuView {
    pub a: u8,
    pub x: u8,
    pub y: u8,
    pub status: u8,
    pub pc: u16,
    pub sp: u8,
    pub mem: BusView,
}

pub open spec fn set_flag(p: u8, mask: u8, on: bool) -> u8 {
    if on {
        p | mask
    } else {
        p & !mask
    }
}

pub open spec fn flag(p: u8, mask: u8) -> bool {
    p & mask != 0
}

/// `p` with Z and N describing the byte `v`.
pub open spec fn zn(p: u8, v: u8) -> u8 {
    set_flag(set_flag(p, ZERO, v == 0), NEGATIVE, v & 0x80 != 0)
}

/// The target of a branch at `pc` with offset byte `off`, read as a signed byte.
pub open spec fn relative_target(pc: u16, off: u8) -> u16 {
    if off < 0x80 {
        pc.wrapping_add(off as u16)
    } else {
        pc.wrapping_sub((256 - off) as u16)
    }
}

/// The pointer held at zero-page cells `p` and `p + 1`, the second wrapping within the page.
pub open spec fn zero_page_pointer(m: BusView, p: u8) -> Result<u16, BusError> {
    match m.read(p as u16) {
        Err(e) => Err(e),
        Ok(lo) => match m.read(p.wrapping_add(1) as u16) {
            Err(e) => Err(e),
            Ok(hi) => Ok(word(lo, hi)),
        },
    }
}

/// The effective address of the instruction at `s.pc` under `mode`.
pub open spec fn operand_address(s: CpuView, mode: AddressingMode) -> Result<u16, BusError> {
    let m = s.mem;
    let arg = s.pc.wrapping_add(1);
    match mode {
        AddressingMode::Immediate => Ok(arg),
        AddressingMode::ZeroPage => match m.read(arg) {
            Err(e) => Err(e),
            Ok(b) => Ok(b as u16),
        },
        AddressingMode::ZeroPage_X => match m.read(arg) {
            Err(e) => Err(e),
            Ok(b) => Ok(b.wrapping_add(s.x) as u16),
        },
        AddressingMode::ZeroPage_Y => match m.read(arg) {
            Err(e) => Err(e),
            Ok(b) => Ok(b.wrapping_add(s.y) as u16),
        },
        AddressingMode::Absolute => m.read_u16(arg),
        AddressingMode::Absolute_X => match m.read_u16(arg) {
            Err(e) => Err(e),
            Ok(w) => Ok(w.wrapping_add(s.x as u16)),
        },
        AddressingMode::Absolute_Y => match m.read_u16(arg) {
            Err(e) => Err(e),
            Ok(w) => Ok(w.wrapping_add(s.y as u16)),
        },
        // The pointer's high byte is read from `ptr + 1` even across a page boundary; the
        // hardware's wrap within the page is not reproduced.
        AddressingMode::Indirect => match m.read_u16(arg) {
            Err(e) => Err(e),
            Ok(ptr) => m.read_u16(ptr),
        },
        AddressingMode::Indirect_X => match m.read(arg) {
            Err(e) => Err(e),
            Ok(b) => zero_page_pointer(m, b.wrapping_add(s.x)),
        },
        // Y is added to the zero-page pointer, the way X is for `(Indirect,X)`, not to the
        // address the pointer holds.
        AddressingMode::Indirect_Y => match m.read(arg) {
            Err(e) => Err(e),
            Ok(b) => zero_page_pointer(m, b.wrapping_add(s.y)),
        },
        AddressingMode::Relative => match m.read(arg) {
            Err(e) => Err(e),
            Ok(off) => Ok(relative_target(s.pc, off)),
        },
        AddressingMode::NoneAddressing => Ok(0),
    }
}

/// The byte at the effective address.
pub open spec fn operand(s: CpuView, mode: AddressingMode) -> Result<u8, BusError> {
    match operand_address(s, mode) {
        Err(e) => Err(e),
        Ok(addr) => s.mem.read(addr),
    }
}

/// `s` with the program counter moved past `op`.
pub open spec fn advance(s: CpuView, op: OpCode) -> CpuView {
    CpuView { pc: s.pc.wrapping_add(op.length), ..s }
}

/// The stack cell that `sp` designates.
pub open spec fn stack_addr(sp: u8) -> u16 {
    (0x0100 + sp) as u16
}

/// Pushes `v`: it is written at the current stack cell, then the stack pointer decreases.
pub open spec fn push(s: CpuView, v: u8) -> CpuView {
    CpuView {
        sp: s.sp.wrapping_sub(1),
        mem: BusView { ram: s.mem.ram.update(stack_addr(s.sp) as int, v), rom: s.mem.rom },
        ..s
    }
}

/// The byte that a pull returns: the stack pointer increases, then its cell is read.
pub open spec fn pulled(s: CpuView) -> u8 {
    s.mem.ram[stack_addr(s.sp.wrapping_add(1)) as int]
}

/// `s` after a pull.
pub open spec fn pull(s: CpuView) -> CpuView {
    CpuView { sp: s.sp.wrapping_add(1), ..s }
}

/// `A + M + C` as an integer.
pub open spec fn sum_with_carry(s: CpuView, m: u8) -> int {
    s.a as int + m as int + (if flag(s.status, CARRY) { 1int } else { 0int })
}

/// The flags that `A + M + C` sets besides Z and N: C on unsigned carry out, V on signed
/// overflow.
pub open spec fn adc_status(s: CpuView, m: u8) -> u8 {
    let sum = sum_with_carry(s, m);
    let r = (sum % 256) as u8;
    set_flag(set_flag(s.status, CARRY, sum > 255), OVERFLOW, (s.a ^ r) & (m ^ r) & 0x80 != 0)
}

/// `A + M + C`, with C, V, Z and N set from it.
pub open spec fn add_with_carry(s: CpuView, m: u8) -> CpuView {
    let r = (sum_with_carry(s, m) % 256) as u8;
    CpuView { a: r, status: zn(adc_status(s, m), r), ..s }
}

/// The flags after comparing register value `reg` with `m`.
pub open spec fn compare(p: u8, reg: u8, m: u8) -> u8 {
    zn(set_flag(p, CARRY, reg >= m), reg.wrapping_sub(m))
}

/// The instructions that read one operand byte `m` and change registers only.
pub open spec fn apply_operand(s: CpuView, mn: Mnemonic, m: u8) -> CpuView {
    match mn {
        Mnemonic::Adc => add_with_carry(s, m),
        Mnemonic::Sbc => add_with_carry(s, !m),
        Mnemonic::And => CpuView { a: s.a & m, status: zn(s.status, s.a & m), ..s },
        Mnemonic::Ora => CpuView { a: s.a | m, status: zn(s.status, s.a | m), ..s },
        Mnemonic::Eor => CpuView { a: s.a ^ m, status: zn(s.status, s.a ^ m), ..s },
        Mnemonic::Lda => CpuView { a: m, status: zn(s.status, m), ..s },
        Mnemonic::Ldx => CpuView { x: m, status: zn(s.status, m), ..s },
        Mnemonic::Ldy => CpuView { y: m, status: zn(s.status, m), ..s },
        Mnemonic::Cmp => CpuView { status: compare(s.status, s.a, m), ..s },
        Mnemonic::Cpx => CpuView { status: compare(s.status, s.x, m), ..s },
        Mnemonic::Cpy => CpuView { status: compare(s.status, s.y, m), ..s },
        Mnemonic::Bit => CpuView {
            status: set_flag(
                set_flag(set_flag(s.status, ZERO, s.a & m == 0), NEGATIVE, m & 0x80 != 0),
                OVERFLOW,
                m & 0x40 != 0,
            ),
            ..s
        },
        _ => s,
    }
}

/// Shifts, rotates, increments and decrements of a byte `v`: the new byte and the new flags.
pub open spec fn modify(p: u8, mn: Mnemonic, v: u8) -> (u8, u8) {
    match mn {
        Mnemonic::Asl => (v << 1u8, zn(set_flag(p, CARRY, v & 0x80 != 0), v << 1u8)),
        Mnemonic::Lsr => (v >> 1u8, zn(set_flag(p, CARRY, v & 0x01 != 0), v >> 1u8)),
        Mnemonic::Rol => {
            let r = (v << 1u8) | (p & CARRY);
            (r, zn(set_flag(p, CARRY, v & 0x80 != 0), r))
        },
        Mnemonic::Ror => {
            let r = (v >> 1u8) | ((p & CARRY) << 7u8);
            (r, zn(set_flag(p, CARRY, v & 0x01 != 0), r))
        },
        // Z and N describe the byte after the increment or decrement, as on the hardware.
        Mnemonic::Inc => (v.wrapping_add(1), zn(p, v.wrapping_add(1))),
        Mnemonic::Dec => (v.wrapping_sub(1), zn(p, v.wrapping_sub(1))),
        _ => (v, p),
    }
}

/// A read-modify-write of the byte at the effective address.
pub open spec fn modify_memory(s: CpuView, op: OpCode) -> Result<CpuView, BusError> {
    match operand_address(s, op.mode) {
        Err(e) => Err(e),
        Ok(addr) => match s.mem.read(addr) {
            Err(e) => Err(e),
            Ok(v) => match s.mem.write(addr, modify(s.status, op.mnemonic, v).0) {
                Err(e) => Err(e),
                Ok(m) => Ok(
                    advance(CpuView { status: modify(s.status, op.mnemonic, v).1, mem: m, ..s }, op),
                ),
            },
        },
    }
}

/// Whether the branch instruction `mn` is taken under status `p`.
pub open spec fn branch_taken(p: u8, mn: Mnemonic) -> bool {
    match mn {
        Mnemonic::Bcc => !flag(p, CARRY),
        Mnemonic::Bcs => flag(p, CARRY),
        Mnemonic::Bne => !flag(p, ZERO),
        Mnemonic::Beq => flag(p, ZERO),
        Mnemonic::Bpl => !flag(p, NEGATIVE),
        Mnemonic::Bmi => flag(p, NEGATIVE),
        Mnemonic::Bvc => !flag(p, OVERFLOW),
        Mnemonic::Bvs => flag(p, OVERFLOW),
        _ => false,
    }
}

/// The instructions without an operand that change registers only.
pub open spec fn apply_implied(s: CpuView, mn: Mnemonic) -> CpuView {
    match mn {
        Mnemonic::Clc => CpuView { status: set_flag(s.status, CARRY, false), ..s },
        Mnemonic::Sec => CpuView { status: set_flag(s.status, CARRY, true), ..s },
        Mnemonic::Cld => CpuView { status: set_flag(s.status, DECIMAL, false), ..s },
        Mnemonic::Sed => CpuView { status: set_flag(s.status, DECIMAL, true), ..s },
        Mnemonic::Cli => CpuView { status: set_flag(s.status, INTERRUPT, false), ..s },
        Mnemonic::Sei => CpuView { status: set_flag(s.status, INTERRUPT, true), ..s },
        Mnemonic::Clv => CpuView { status: set_flag(s.status, OVERFLOW, false), ..s },
        Mnemonic::Inx => CpuView { x: s.x.wrapping_add(1), status: zn(s.status, s.x.wrapping_add(1)), ..s },
        Mnemonic::Iny => CpuView { y: s.y.wrapping_add(1), status: zn(s.status, s.y.wrapping_add(1)), ..s },
        Mnemonic::Dex => CpuView { x: s.x.wrapping_sub(1), status: zn(s.status, s.x.wrapping_sub(1)), ..s },
        Mnemonic::Dey => CpuView { y: s.y.wrapping_sub(1), status: zn(s.status, s.y.wrapping_sub(1)), ..s },
        Mnemonic::Tax => CpuView { x: s.a, status: zn(s.status, s.a), ..s },
        Mnemonic::Tay => CpuView { y: s.a, status: zn(s.status, s.a), ..s },
        Mnemonic::Txa => CpuView { a: s.x, status: zn(s.status, s.x), ..s },
        Mnemonic::Tya => CpuView { a: s.y, status: zn(s.status, s.y), ..s },
        Mnemonic::Tsx => CpuView { x: s.sp, status: zn(s.status, s.sp), ..s },
        Mnemonic::Txs => CpuView { sp: s.x, ..s },
        _ => s,
    }
}

/// The status byte that `PLP` and `RTI` restore from a pulled byte.
pub open spec fn restored_status(v: u8) -> u8 {
    (v & !BREAK) | UNUSED
}

/// The state after executing `op` at `s.pc`, or the fatal access it makes.
pub open spec fn execute(s: CpuView, op: OpCode) -> Result<CpuView, BusError> {
    match op.mnemonic {
        Mnemonic::Adc | Mnemonic::Sbc | Mnemonic::And | Mnemonic::Ora | Mnemonic::Eor
        | Mnemonic::Lda | Mnemonic::Ldx | Mnemonic::Ldy | Mnemonic::Cmp | Mnemonic::Cpx
        | Mnemonic::Cpy | Mnemonic::Bit => match operand(s, op.mode) {
            Err(e) => Err(e),
            Ok(m) => Ok(advance(apply_operand(s, op.mnemonic, m), op)),
        },
        Mnemonic::Sta | Mnemonic::Stx | Mnemonic::Sty => match operand_address(s, op.mode) {
            Err(e) => Err(e),
            Ok(addr) => {
                let v = if op.mnemonic == Mnemonic::Sta {
                    s.a
                } else if op.mnemonic == Mnemonic::Stx {
                    s.x
                } else {
                    s.y
                };
                match s.mem.write(addr, v) {
                    Err(e) => Err(e),
                    Ok(m) => Ok(advance(CpuView { mem: m, ..s }, op)),
                }
            },
        },
        Mnemonic::Asl | Mnemonic::Lsr | Mnemonic::Rol | Mnemonic::Ror => {
            if op.mode == AddressingMode::NoneAddressing {
                let (r, p) = modify(s.status, op.mnemonic, s.a);
                Ok(advance(CpuView { a: r, status: p, ..s }, op))
            } else {
                modify_memory(s, op)
            }
        },
        Mnemonic::Inc | Mnemonic::Dec => modify_memory(s, op),
        Mnemonic::Bcc | Mnemonic::Bcs | Mnemonic::Bne | Mnemonic::Beq | Mnemonic::Bpl
        | Mnemonic::Bmi | Mnemonic::Bvc | Mnemonic::Bvs => {
            if branch_taken(s.status, op.mnemonic) {
                match operand_address(s, op.mode) {
                    Err(e) => Err(e),
                    Ok(t) => Ok(CpuView { pc: t.wrapping_add(op.length), ..s }),
                }
            } else {
                Ok(advance(s, op))
            }
        },
        Mnemonic::Jmp => match operand_address(s, op.mode) {
            Err(e) => Err(e),
            Ok(t) => Ok(CpuView { pc: t, ..s }),
        },
        Mnemonic::Jsr => match operand_address(s, op.mode) {
            Err(e) => Err(e),
            Ok(t) => {
                let ret = s.pc.wrapping_add(op.length).wrapping_sub(1);
                Ok(CpuView { pc: t, ..push(push(s, (ret >> 8u16) as u8), (ret & 0xFF) as u8) })
            },
        },
        Mnemonic::Rts => {
            let s1 = pull(s);
            let s2 = pull(s1);
            Ok(CpuView { pc: word(pulled(s), pulled(s1)).wrapping_add(1), ..s2 })
        },
        Mnemonic::Rti => {
            let s1 = pull(s);
            let s2 = pull(s1);
            let s3 = pull(s2);
            Ok(
                CpuView {
                    status: restored_status(pulled(s)),
                    pc: word(pulled(s1), pulled(s2)),
                    ..s3
                },
            )
        },
        Mnemonic::Pha => Ok(advance(push(s, s.a), op)),
        Mnemonic::Php => Ok(advance(push(s, s.status | BREAK | UNUSED), op)),
        Mnemonic::Pla => Ok(
            advance(CpuView { a: pulled(s), status: zn(s.status, pulled(s)), ..pull(s) }, op),
        ),
        Mnemonic::Plp => Ok(advance(CpuView { status: restored_status(pulled(s)), ..pull(s) }, op)),
        // BRK halts the run (see `step_result`); no interrupt is taken.
        Mnemonic::Brk => Ok(advance(s, op)),
        _ => Ok(advance(apply_implied(s, op.mnemonic), op)),
    }
}

/// One fetch-decode-execute step: the next state, and whether it halted on `BRK`.
#[verifier::opaque]
pub open spec fn step_result(s: CpuView) -> Result<(CpuView, bool), CpuError> {
    match s.mem.read(s.pc) {
        Err(e) => Err(CpuError::Bus(e)),
        Ok(b) => match opcode_table(b) {
            None => Err(CpuError::UnknownOpcode(b)),
            Some(op) => match execute(s, op) {
                Err(e) => Err(CpuError::Bus(e)),
                Ok(t) => Ok((t, op.mnemonic == Mnemonic::Brk)),
            },
        },
    }
}

/// The state after `n` steps from `s` that all went on running, if there are `n` such steps.
pub open spec fn steps(s: CpuView, n: nat) -> Option<CpuView>
    decreases n,
{
    if n == 0 {
        Some(s)
    } else {
        match steps(s, (n - 1) as nat) {
            None => None,
            Some(t) => match step_result(t) {
                Ok((u, false)) => Some(u),
                _ => None,
            },
        }
    }
}

/// A step fails only on a fatal access or an unknown opcode.
pub proof fn lemma_step_error_kind(s: CpuView)
    ensures
        step_result(s) != Err::<(CpuView, bool), CpuError>(CpuError::StepLimit),
{
    reveal(step_result);
}

/// A run with an observer, from `start`: `pre[k]` is the state handed to the `k`-th call of
/// the observer and `post[k]` the state it left, from which the `k`-th instruction ran. Every
/// instruction but the last went on running and led to the next observed state; the last one
/// halted on `BRK` in `fin`, or failed on `post.last()`, which is then `fin`. After `u64::MAX`
/// observed instructions the run gives up in the state the last of them produced.
pub open spec fn observed_run(
    start: CpuView,
    pre: Seq<CpuView>,
    post: Seq<CpuView>,
    r: Result<(), CpuError>,
    fin: CpuView,
) -> bool {
    &&& pre.len() >= 1
    &&& post.len() >= pre.len() - 1
    &&& pre[0] == start
    &&& forall|k: int|
        0 <= k < pre.len() - 1 ==> #[trigger] step_result(post[k]) == Ok::<(CpuView, bool), CpuError>(
            (pre[k + 1], false),
        )
    &&& match r {
        Ok(()) => post.len() == pre.len() && step_result(post.last()) == Ok::<
            (CpuView, bool),
            CpuError,
        >((fin, true)),
        Err(CpuError::StepLimit) => pre.len() == u64::MAX as int + 1 && post.len() == u64::MAX as int
            && fin == pre.last(),
        Err(e) => post.len() == pre.len() && fin == post.last() && step_result(fin) == Err::<
            (CpuView, bool),
            CpuError,
        >(e),
    }
}

/// RAM after the first `n` bytes of `prog` were written from `$0600` on.
pub open spec fn loaded(ram: Seq<u8>, prog: Seq<u8>, n: nat) -> Seq<u8>
    decreases n,
{
    if n == 0 {
        ram
    } else {
        loaded(ram, prog, (n - 1) as nat).update(ram_index((0x0600 + n - 1) as u16), prog[n - 1])
    }
}

/// How an instruction whose effect is `expected` left `pre` as `post`, returning `r`:
/// the fatal access leaves the state as it was.
pub open spec fn outcome(
    pre: CpuView,
    post: CpuView,
    r: Result<(), BusError>,
    expected: Result<CpuView, BusError>,
) -> bool {
    match expected {
        Ok(t) => r == Ok::<(), BusError>(()) && post == t,
        Err(e) => r == Err::<(), BusError>(e) && post == pre,
    }
}

} // verus!
