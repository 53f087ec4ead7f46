use vstd::prelude::*;

use crate::bus::{ram_index, word, BusError, BusView};
use crate::model::{
    add_with_carry, apply_operand, execute, flag, set_flag, zn, CpuView, CARRY, NEGATIVE, ZERO,
};
use crate::opcodes::{AddressingMode, Mnemonic, OpCode};

verus! {

/// The instructions that leave their result byte in a register.
pub open spec fn writes_register(op: OpCode) -> bool {
    match op.mnemonic {
        Mnemonic::Lda | Mnemonic::Ldx | Mnemonic::Ldy | Mnemonic::And | Mnemonic::Ora
        | Mnemonic::Eor | Mnemonic::Adc | Mnemonic::Sbc | Mnemonic::Inx | Mnemonic::Iny
        | Mnemonic::Dex | Mnemonic::Dey | Mnemonic::Tax | Mnemonic::Tay | Mnemonic::Txa
        | Mnemonic::Tya | Mnemonic::Tsx | Mnemonic::Pla => true,
        Mnemonic::Asl | Mnemonic::Lsr | Mnemonic::Rol | Mnemonic::Ror => op.mode
            == AddressingMode::NoneAddressing,
        _ => false,
    }
}

/// The register that such an instruction writes, read in state `t`.
pub open spec fn result_register(t: CpuView, mn: Mnemonic) -> u8 {
    match mn {
        Mnemonic::Ldx | Mnemonic::Inx | Mnemonic::Dex | Mnemonic::Tax | Mnemonic::Tsx => t.x,
        Mnemonic::Ldy | Mnemonic::Iny | Mnemonic::Dey | Mnemonic::Tay => t.y,
        _ => t.a,
    }
}

/// Setting or clearing one status bit leaves it as asked.
pub proof fn lemma_set_flag(p: u8, mask: u8, on: bool)
    requires
        mask == 0x01 || mask == 0x02 || mask == 0x04 || mask == 0x08 || mask == 0x10 || mask
            == 0x20 || mask == 0x40 || mask == 0x80,
    ensures
        flag(set_flag(p, mask, on), mask) == on,
{
    let q = set_flag(p, mask, on);
    assert(q & mask != 0 <==> on) by (bit_vector)
        requires
            mask == 0x01 || mask == 0x02 || mask == 0x04 || mask == 0x08 || mask == 0x10 || mask
                == 0x20 || mask == 0x40 || mask == 0x80,
            q == (if on { p | mask } else { p & !mask }),
    ;
}

/// Z and N describe the byte that `zn` was given.
pub proof fn lemma_zn(p: u8, v: u8)
    ensures
        flag(zn(p, v), ZERO) <==> v == 0,
        flag(zn(p, v), NEGATIVE) <==> v & 0x80 != 0,
{
    let q = set_flag(p, ZERO, v == 0);
    assert(q & 0x02 != 0 <==> v == 0) by (bit_vector)
        requires
            q == (if v == 0 { p | 0x02 } else { p & !0x02u8 }),
    ;
    let r = set_flag(q, NEGATIVE, v & 0x80 != 0);
    assert((r & 0x02 == q & 0x02) && (r & 0x80 != 0 <==> v & 0x80 != 0)) by (bit_vector)
        requires
            r == (if v & 0x80 != 0 { q | 0x80 } else { q & !0x80u8 }),
    ;
}

/// After any instruction that leaves a byte in a register, Z is set exactly when that byte is
/// zero and N exactly when its bit 7 is set.
pub proof fn lemma_register_result_flags(s: CpuView, op: OpCode)
    requires
        writes_register(op),
        execute(s, op) is Ok,
    ensures
        ({
            let t = execute(s, op)->Ok_0;
            let v = result_register(t, op.mnemonic);
            &&& flag(t.status, ZERO) <==> v == 0
            &&& flag(t.status, NEGATIVE) <==> v & 0x80 != 0
        }),
{
    let t = execute(s, op)->Ok_0;
    let v = result_register(t, op.mnemonic);
    match op.mnemonic {
        Mnemonic::Adc | Mnemonic::Sbc | Mnemonic::And | Mnemonic::Ora | Mnemonic::Eor
        | Mnemonic::Lda | Mnemonic::Ldx | Mnemonic::Ldy => {
            let m = crate::model::operand(s, op.mode)->Ok_0;
            let u = apply_operand(s, op.mnemonic, m);
            if op.mnemonic == Mnemonic::Adc {
                lemma_zn(crate::model::adc_status(s, m), u.a);
            } else if op.mnemonic == Mnemonic::Sbc {
                lemma_zn(crate::model::adc_status(s, !m), u.a);
            } else {
                lemma_zn(s.status, v);
            }
        },
        Mnemonic::Asl | Mnemonic::Lsr | Mnemonic::Rol | Mnemonic::Ror => {
            let r = crate::model::modify(s.status, op.mnemonic, s.a).0;
            if op.mnemonic == Mnemonic::Asl || op.mnemonic == Mnemonic::Rol {
                lemma_zn(set_flag(s.status, CARRY, s.a & 0x80 != 0), r);
            } else {
                lemma_zn(set_flag(s.status, CARRY, s.a & 0x01 != 0), r);
            }
        },
        Mnemonic::Pla => {
            lemma_zn(s.status, crate::model::pulled(s));
        },
        _ => {
            lemma_zn(s.status, v);
        },
    }
}

proof fn lemma_add_back(a: int, m: int, c: int)
    requires
        0 <= a < 256,
        0 <= m < 256,
        c == 0 || c == 1,
    ensures
        ((a + m + c) % 256 + (255 - m) + (1 - c)) % 256 == a,
{
    let r = (a + m + c) % 256;
    assert(r == a + m + c || r == a + m + c - 256);
}

/// `ADC m` followed by `SBC m`, with the carry before `SBC` set to the opposite of the carry
/// before `ADC`, gives back the accumulator.
pub proof fn lemma_adc_then_sbc(s: CpuView, m: u8)
    ensures
        ({
            let t = apply_operand(s, Mnemonic::Adc, m);
            let u = CpuView { status: set_flag(t.status, CARRY, !flag(s.status, CARRY)), ..t };
            apply_operand(u, Mnemonic::Sbc, m).a == s.a
        }),
{
    let t = add_with_carry(s, m);
    let u = CpuView { status: set_flag(t.status, CARRY, !flag(s.status, CARRY)), ..t };
    lemma_set_flag(t.status, CARRY, !flag(s.status, CARRY));
    assert(!m == 255 - m) by (bit_vector);
    let c: int = if flag(s.status, CARRY) { 1 } else { 0 };
    lemma_add_back(s.a as int, m as int, c);
    assert(t.a as int == (s.a as int + m as int + c) % 256);
    assert(crate::model::sum_with_carry(u, !m) == t.a as int + (255 - m) + (1 - c));
}

/// The two bytes of a word put back together.
pub proof fn lemma_word_bytes(w: u16)
    ensures
        word((w & 0xFF) as u8, (w >> 8u16) as u8) == w,
{
    assert(((((w >> 8u16) as u8) as u16) << 8u16) | (((w & 0xFF) as u8) as u16) == w)
        by (bit_vector);
}

/// `PHA` then `PLA` gives back A and the stack pointer, with Z and N describing A.
pub proof fn lemma_pha_then_pla(s: CpuView, pha: OpCode, pla: OpCode)
    requires
        s.mem.wf(),
        pha.mnemonic == Mnemonic::Pha,
        pla.mnemonic == Mnemonic::Pla,
    ensures
        execute(s, pha) is Ok,
        execute(execute(s, pha)->Ok_0, pla) is Ok,
        ({
            let u = execute(execute(s, pha)->Ok_0, pla)->Ok_0;
            u.a == s.a && u.sp == s.sp && u.status == zn(s.status, s.a)
        }),
{
    assert(s.sp.wrapping_sub(1).wrapping_add(1) == s.sp);
}

/// `TXS` then `TSX` leaves X as it was, and the stack pointer equal to it.
pub proof fn lemma_txs_then_tsx(s: CpuView, txs: OpCode, tsx: OpCode)
    requires
        txs.mnemonic == Mnemonic::Txs,
        tsx.mnemonic == Mnemonic::Tsx,
    ensures
        execute(s, txs) is Ok,
        execute(execute(s, txs)->Ok_0, tsx) is Ok,
        ({
            let u = execute(execute(s, txs)->Ok_0, tsx)->Ok_0;
            u.x == s.x && u.sp == s.x
        }),
{
}

/// `JSR` then `RTS` returns to the instruction after the `JSR`, with the stack pointer as it
/// was.
pub proof fn lemma_jsr_then_rts(s: CpuView, jsr: OpCode, rts: OpCode)
    requires
        s.mem.wf(),
        jsr.mnemonic == Mnemonic::Jsr,
        rts.mnemonic == Mnemonic::Rts,
        execute(s, jsr) is Ok,
    ensures
        execute(execute(s, jsr)->Ok_0, rts) is Ok,
        ({
            let u = execute(execute(s, jsr)->Ok_0, rts)->Ok_0;
            u.pc == s.pc.wrapping_add(jsr.length) && u.sp == s.sp
        }),
{
    let ret = s.pc.wrapping_add(jsr.length).wrapping_sub(1);
    lemma_word_bytes(ret);
    assert(ret.wrapping_add(1) == s.pc.wrapping_add(jsr.length));
    let sp1 = s.sp.wrapping_sub(1);
    let sp2 = sp1.wrapping_sub(1);
    assert(sp2.wrapping_add(1) == sp1);
    assert(sp1.wrapping_add(1) == s.sp);
    assert(sp1 != s.sp);
}

/// The offsets at which RAM repeats within `$0000-$1FFF`.
pub open spec fn ram_alias(k: u16) -> bool {
    k == 0 || k == 0x0800 || k == 0x1000 || k == 0x1800
}

/// RAM is mirrored: an address of `$0000-$1FFF` reads as each of its aliases does, and a byte
/// written through any alias is read back through every alias.
pub proof fn lemma_ram_mirroring(m: BusView, addr: u16, data: u8)
    requires
        m.wf(),
        addr <= 0x1FFF,
    ensures
        forall|k: u16| ram_alias(k) ==> #[trigger] m.read(addr ^ k) == m.read(addr),
        forall|k: u16, j: u16|
            ram_alias(k) && ram_alias(j) ==> m.write(addr ^ k, data) is Ok
                && #[trigger] m.write(addr ^ k, data)->Ok_0.read(addr ^ j) == Ok::<u8, BusError>(data),
{
    assert forall|k: u16| ram_alias(k) implies (addr ^ k) <= 0x1FFF && ram_index(addr ^ k)
        == ram_index(addr) by {
        let b = addr ^ k;
        assert(b <= 0x1FFF && b & 0x07FF == addr & 0x07FF) by (bit_vector)
            requires
                addr <= 0x1FFF,
                k == 0 || k == 0x0800 || k == 0x1000 || k == 0x1800,
                b == addr ^ k,
        ;
    }
    assert forall|k: u16, j: u16| ram_alias(k) && ram_alias(j) implies m.write(addr ^ k, data) is Ok
        && #[trigger] m.write(addr ^ k, data)->Ok_0.read(addr ^ j) == Ok::<u8, BusError>(data) by {
        assert((addr ^ k) <= 0x1FFF && ram_index(addr ^ k) == ram_index(addr));
        assert((addr ^ j) <= 0x1FFF && ram_index(addr ^ j) == ram_index(addr));
        assert(ram_index(addr) < 0x0800) by {
            assert(addr & 0x07FF < 0x0800) by (bit_vector);
        }
    }
}

/// With a single 16 KiB bank of program ROM, `$C000-$FFFF` reads as `$8000-$BFFF` does.
pub proof fn lemma_prg_mirroring(m: BusView, k: u16)
    requires
        m.rom.prg_rom@.len() == 0x4000,
        k < 0x4000,
    ensures
        m.read((0xC000 + k) as u16) == m.read((0x8000 + k) as u16),
{
}

} // verus!
