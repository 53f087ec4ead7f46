use vstd::prelude::*;

verus! {

/// How an instruction finds its operand.
#[allow(non_camel_case_types)]
#[derive(Debug, Clone, Copy, PartialEq, Eq, Structural)]
pub enum AddressingMode {
    Immediate,
    ZeroPage,
    ZeroPage_X,
    ZeroPage_Y,
    Absolute,
    Absolute_X,
    Absolute_Y,
    Indirect,
    Indirect_X,
    Indirect_Y,
    Relative,
    NoneAddressing,
}

/// The documented 6502 instructions.
#[derive(Debug, Clone, Copy, PartialEq, Eq, Structural)]
pub enum Mnemonic {
    Adc,
    And,
    Asl,
    Bcc,
    Bcs,
    Beq,
    Bit,
    Bmi,
    Bne,
    Bpl,
    Brk,
    Bvc,
    Bvs,
    Clc,
    Cld,
    Cli,
    Clv,
    Cmp,
    Cpx,
    Cpy,
    Dec,
    Dex,
    Dey,
    Eor,
    Inc,
    Inx,
    Iny,
    Jmp,
    Jsr,
    Lda,
    Ldx,
    Ldy,
    Lsr,
    Nop,
    Ora,
    Pha,
    Php,
    Pla,
    Plp,
    Rol,
    Ror,
    Rti,
    Rts,
    Sbc,
    Sec,
    Sed,
    Sei,
    Sta,
    Stx,
    Sty,
    Tax,
    Tay,
    Tsx,
    Txa,
    Txs,
    Tya,
}

/// The three letters of a mnemonic.
pub open spec fn mnemonic_text(m: Mnemonic) -> Seq<char> {
    match m {
        Mnemonic::Adc => seq!['A', 'D', 'C'],
        Mnemonic::And => seq!['A', 'N', 'D'],
        Mnemonic::Asl => seq!['A', 'S', 'L'],
        Mnemonic::Bcc => seq!['B', 'C', 'C'],
        Mnemonic::Bcs => seq!['B', 'C', 'S'],
        Mnemonic::Beq => seq!['B', 'E', 'Q'],
        Mnemonic::Bit => seq!['B', 'I', 'T'],
        Mnemonic::Bmi => seq!['B', 'M', 'I'],
        Mnemonic::Bne => seq!['B', 'N', 'E'],
        Mnemonic::Bpl => seq!['B', 'P', 'L'],
        Mnemonic::Brk => seq!['B', 'R', 'K'],
        Mnemonic::Bvc => seq!['B', 'V', 'C'],
        Mnemonic::Bvs => seq!['B', 'V', 'S'],
        Mnemonic::Clc => seq!['C', 'L', 'C'],
        Mnemonic::Cld => seq!['C', 'L', 'D'],
        Mnemonic::Cli => seq!['C', 'L', 'I'],
        Mnemonic::Clv => seq!['C', 'L', 'V'],
        Mnemonic::Cmp => seq!['C', 'M', 'P'],
        Mnemonic::Cpx => seq!['C', 'P', 'X'],
        Mnemonic::Cpy => seq!['C', 'P', 'Y'],
        Mnemonic::Dec => seq!['D', 'E', 'C'],
        Mnemonic::Dex => seq!['D', 'E', 'X'],
        Mnemonic::Dey => seq!['D', 'E', 'Y'],
        Mnemonic::Eor => seq!['E', 'O', 'R'],
        Mnemonic::Inc => seq!['I', 'N', 'C'],
        Mnemonic::Inx => seq!['I', 'N', 'X'],
        Mnemonic::Iny => seq!['I', 'N', 'Y'],
        Mnemonic::Jmp => seq!['J', 'M', 'P'],
        Mnemonic::Jsr => seq!['J', 'S', 'R'],
        Mnemonic::Lda => seq!['L', 'D', 'A'],
        Mnemonic::Ldx => seq!['L', 'D', 'X'],
        Mnemonic::Ldy => seq!['L', 'D', 'Y'],
        Mnemonic::Lsr => seq!['L', 'S', 'R'],
        Mnemonic::Nop => seq!['N', 'O', 'P'],
        Mnemonic::Ora => seq!['O', 'R', 'A'],
        Mnemonic::Pha => seq!['P', 'H', 'A'],
        Mnemonic::Php => seq!['P', 'H', 'P'],
        Mnemonic::Pla => seq!['P', 'L', 'A'],
        Mnemonic::Plp => seq!['P', 'L', 'P'],
        Mnemonic::Rol => seq!['R', 'O', 'L'],
        Mnemonic::Ror => seq!['R', 'O', 'R'],
        Mnemonic::Rti => seq!['R', 'T', 'I'],
        Mnemonic::Rts => seq!['R', 'T', 'S'],
        Mnemonic::Sbc => seq!['S', 'B', 'C'],
        Mnemonic::Sec => seq!['S', 'E', 'C'],
        Mnemonic::Sed => seq!['S', 'E', 'D'],
        Mnemonic::Sei => seq!['S', 'E', 'I'],
        Mnemonic::Sta => seq!['S', 'T', 'A'],
        Mnemonic::Stx => seq!['S', 'T', 'X'],
        Mnemonic::Sty => seq!['S', 'T', 'Y'],
        Mnemonic::Tax => seq!['T', 'A', 'X'],
        Mnemonic::Tay => seq!['T', 'A', 'Y'],
        Mnemonic::Tsx => seq!['T', 'S', 'X'],
        Mnemonic::Txa => seq!['T', 'X', 'A'],
        Mnemonic::Txs => seq!['T', 'X', 'S'],
        Mnemonic::Tya => seq!['T', 'Y', 'A'],
    }
}

impl Mnemonic {
    /// The mnemonic as assembly text, such as `LDA`.
    pub fn name(&self) -> (r: &'static str)
        ensures
            r@ == mnemonic_text(*self),
    {
        match self {
            Mnemonic::Adc => {
                proof {
                    reveal_strlit("ADC");
                }
                "ADC"
            },
            Mnemonic::And => {
                proof {
                    reveal_strlit("AND");
                }
                "AND"
            },
            Mnemonic::Asl => {
                proof {
                    reveal_strlit("ASL");
                }
                "ASL"
            },
            Mnemonic::Bcc => {
                proof {
                    reveal_strlit("BCC");
                }
                "BCC"
            },
            Mnemonic::Bcs => {
                proof {
                    reveal_strlit("BCS");
                }
                "BCS"
            },
            Mnemonic::Beq => {
                proof {
                    reveal_strlit("BEQ");
                }
                "BEQ"
            },
            Mnemonic::Bit => {
                proof {
                    reveal_strlit("BIT");
                }
                "BIT"
            },
            Mnemonic::Bmi => {
                proof {
                    reveal_strlit("BMI");
                }
                "BMI"
            },
            Mnemonic::Bne => {
                proof {
                    reveal_strlit("BNE");
                }
                "BNE"
            },
            Mnemonic::Bpl => {
                proof {
                    reveal_strlit("BPL");
                }
                "BPL"
            },
            Mnemonic::Brk => {
                proof {
                    reveal_strlit("BRK");
                }
                "BRK"
            },
            Mnemonic::Bvc => {
                proof {
                    reveal_strlit("BVC");
                }
                "BVC"
            },
            Mnemonic::Bvs => {
                proof {
                    reveal_strlit("BVS");
                }
                "BVS"
            },
            Mnemonic::Clc => {
                proof {
                    reveal_strlit("CLC");
                }
                "CLC"
            },
            Mnemonic::Cld => {
                proof {
                    reveal_strlit("CLD");
                }
                "CLD"
            },
            Mnemonic::Cli => {
                proof {
                    reveal_strlit("CLI");
                }
                "CLI"
            },
            Mnemonic::Clv => {
                proof {
                    reveal_strlit("CLV");
                }
                "CLV"
            },
            Mnemonic::Cmp => {
                proof {
                    reveal_strlit("CMP");
                }
                "CMP"
            },
            Mnemonic::Cpx => {
                proof {
                    reveal_strlit("CPX");
                }
                "CPX"
            },
            Mnemonic::Cpy => {
                proof {
                    reveal_strlit("CPY");
                }
                "CPY"
            },
            Mnemonic::Dec => {
                proof {
                    reveal_strlit("DEC");
                }
                "DEC"
            },
            Mnemonic::Dex => {
                proof {
                    reveal_strlit("DEX");
                }
                "DEX"
            },
            Mnemonic::Dey => {
                proof {
                    reveal_strlit("DEY");
                }
                "DEY"
            },
            Mnemonic::Eor => {
                proof {
                    reveal_strlit("EOR");
                }
                "EOR"
            },
            Mnemonic::Inc => {
                proof {
                    reveal_strlit("INC");
                }
                "INC"
            },
            Mnemonic::Inx => {
                proof {
                    reveal_strlit("INX");
                }
                "INX"
            },
            Mnemonic::Iny => {
                proof {
                    reveal_strlit("INY");
                }
                "INY"
            },
            Mnemonic::Jmp => {
                proof {
                    reveal_strlit("JMP");
                }
                "JMP"
            },
            Mnemonic::Jsr => {
                proof {
                    reveal_strlit("JSR");
                }
                "JSR"
            },
            Mnemonic::Lda => {
                proof {
                    reveal_strlit("LDA");
                }
                "LDA"
            },
            Mnemonic::Ldx => {
                proof {
                    reveal_strlit("LDX");
                }
                "LDX"
            },
            Mnemonic::Ldy => {
                proof {
                    reveal_strlit("LDY");
                }
                "LDY"
            },
            Mnemonic::Lsr => {
                proof {
                    reveal_strlit("LSR");
                }
                "LSR"
            },
            Mnemonic::Nop => {
                proof {
                    reveal_strlit("NOP");
                }
                "NOP"
            },
            Mnemonic::Ora => {
                proof {
                    reveal_strlit("ORA");
                }
                "ORA"
            },
            Mnemonic::Pha => {
                proof {
                    reveal_strlit("PHA");
                }
                "PHA"
            },
            Mnemonic::Php => {
                proof {
                    reveal_strlit("PHP");
                }
                "PHP"
            },
            Mnemonic::Pla => {
                proof {
                    reveal_strlit("PLA");
                }
                "PLA"
            },
            Mnemonic::Plp => {
                proof {
                    reveal_strlit("PLP");
                }
                "PLP"
            },
            Mnemonic::Rol => {
                proof {
                    reveal_strlit("ROL");
                }
                "ROL"
            },
            Mnemonic::Ror => {
                proof {
                    reveal_strlit("ROR");
                }
                "ROR"
            },
            Mnemonic::Rti => {
                proof {
                    reveal_strlit("RTI");
                }
                "RTI"
            },
            Mnemonic::Rts => {
                proof {
                    reveal_strlit("RTS");
                }
                "RTS"
            },
            Mnemonic::Sbc => {
                proof {
                    reveal_strlit("SBC");
                }
                "SBC"
            },
            Mnemonic::Sec => {
                proof {
                    reveal_strlit("SEC");
                }
                "SEC"
            },
            Mnemonic::Sed => {
                proof {
                    reveal_strlit("SED");
                }
                "SED"
            },
            Mnemonic::Sei => {
                proof {
                    reveal_strlit("SEI");
                }
                "SEI"
            },
            Mnemonic::Sta => {
                proof {
                    reveal_strlit("STA");
                }
                "STA"
            },
            Mnemonic::Stx => {
                proof {
                    reveal_strlit("STX");
                }
                "STX"
            },
            Mnemonic::Sty => {
                proof {
                    reveal_strlit("STY");
                }
                "STY"
            },
            Mnemonic::Tax => {
                proof {
                    reveal_strlit("TAX");
                }
                "TAX"
            },
            Mnemonic::Tay => {
                proof {
                    reveal_strlit("TAY");
                }
                "TAY"
            },
            Mnemonic::Tsx => {
                proof {
                    reveal_strlit("TSX");
                }
                "TSX"
            },
            Mnemonic::Txa => {
                proof {
                    reveal_strlit("TXA");
                }
                "TXA"
            },
            Mnemonic::Txs => {
                proof {
                    reveal_strlit("TXS");
                }
                "TXS"
            },
            Mnemonic::Tya => {
                proof {
                    reveal_strlit("TYA");
                }
                "TYA"
            },
        }
    }
}

/// One row of the instruction table.
#[derive(Debug, Clone, Copy, PartialEq, Eq, Structural)]
pub struct OpCode {
    pub code: u8,
    pub mnemonic: Mnemonic,
    pub length: u16,
    pub cycles: usize,
    pub mode: AddressingMode,
}

impl OpCode {
    pub fn new(code: u8, mnemonic: Mnemonic, length: u16, cycles: usize, mode: AddressingMode) -> (r: OpCode)
        ensures
            r == (OpCode { code, mnemonic, length, cycles, mode }),
    {
        OpCode { code, mnemonic, length, cycles, mode }
    }

    /// The mnemonic as assembly text.
    pub fn name(&self) -> (r: &'static str)
        ensures
            r@ == mnemonic_text(self.mnemonic),
    {
        self.mnemonic.name()
    }
}

/// The instruction table: the descriptor of each documented opcode byte.
pub open spec fn opcode_table(code: u8) -> Option<OpCode> {
    match code {
        0x69 => Some(OpCode { code: 0x69, mnemonic: Mnemonic::Adc, length: 2, cycles: 2, mode: AddressingMode::Immediate }),
        0x65 => Some(OpCode { code: 0x65, mnemonic: Mnemonic::Adc, length: 2, cycles: 3, mode: AddressingMode::ZeroPage }),
        0x75 => Some(OpCode { code: 0x75, mnemonic: Mnemonic::Adc, length: 2, cycles: 4, mode: AddressingMode::ZeroPage_X }),
        0x6D => Some(OpCode { code: 0x6D, mnemonic: Mnemonic::Adc, length: 3, cycles: 4, mode: AddressingMode::Absolute }),
        0x7D => Some(OpCode { code: 0x7D, mnemonic: Mnemonic::Adc, length: 3, cycles: 4, mode: AddressingMode::Absolute_X }),
        0x79 => Some(OpCode { code: 0x79, mnemonic: Mnemonic::Adc, length: 3, cycles: 4, mode: AddressingMode::Absolute_Y }),
        0x61 => Some(OpCode { code: 0x61, mnemonic: Mnemonic::Adc, length: 2, cycles: 6, mode: AddressingMode::Indirect_X }),
        0x71 => Some(OpCode { code: 0x71, mnemonic: Mnemonic::Adc, length: 2, cycles: 5, mode: AddressingMode::Indirect_Y }),
        0x29 => Some(OpCode { code: 0x29, mnemonic: Mnemonic::And, length: 2, cycles: 2, mode: AddressingMode::Immediate }),
        0x25 => Some(OpCode { code: 0x25, mnemonic: Mnemonic::And, length: 2, cycles: 3, mode: AddressingMode::ZeroPage }),
        0x35 => Some(OpCode { code: 0x35, mnemonic: Mnemonic::And, length: 2, cycles: 4, mode: AddressingMode::ZeroPage_X }),
        0x2D => Some(OpCode { code: 0x2D, mnemonic: Mnemonic::And, length: 3, cycles: 4, mode: AddressingMode::Absolute }),
        0x3D => Some(OpCode { code: 0x3D, mnemonic: Mnemonic::And, length: 3, cycles: 4, mode: AddressingMode::Absolute_X }),
        0x39 => Some(OpCode { code: 0x39, mnemonic: Mnemonic::And, length: 3, cycles: 4, mode: AddressingMode::Absolute_Y }),
        0x21 => Some(OpCode { code: 0x21, mnemonic: Mnemonic::And, length: 2, cycles: 6, mode: AddressingMode::Indirect_X }),
        0x31 => Some(OpCode { code: 0x31, mnemonic: Mnemonic::And, length: 2, cycles: 5, mode: AddressingMode::Indirect_Y }),
        0x0A => Some(OpCode { code: 0x0A, mnemonic: Mnemonic::Asl, length: 1, cycles: 2, mode: AddressingMode::NoneAddressing }),
        0x06 => Some(OpCode { code: 0x06, mnemonic: Mnemonic::Asl, length: 2, cycles: 5, mode: AddressingMode::ZeroPage }),
        0x16 => Some(OpCode { code: 0x16, mnemonic: Mnemonic::Asl, length: 2, cycles: 6, mode: AddressingMode::ZeroPage_X }),
        0x0E => Some(OpCode { code: 0x0E, mnemonic: Mnemonic::Asl, length: 3, cycles: 6, mode: AddressingMode::Absolute }),
        0x1E => Some(OpCode { code: 0x1E, mnemonic: Mnemonic::Asl, length: 3, cycles: 7, mode: AddressingMode::Absolute_X }),
        0x24 => Some(OpCode { code: 0x24, mnemonic: Mnemonic::Bit, length: 2, cycles: 3, mode: AddressingMode::ZeroPage }),
        0x2C => Some(OpCode { code: 0x2C, mnemonic: Mnemonic::Bit, length: 3, cycles: 4, mode: AddressingMode::Absolute }),
        0x10 => Some(OpCode { code: 0x10, mnemonic: Mnemonic::Bpl, length: 2, cycles: 2, mode: AddressingMode::Relative }),
        0x30 => Some(OpCode { code: 0x30, mnemonic: Mnemonic::Bmi, length: 2, cycles: 2, mode: AddressingMode::Relative }),
        0x50 => Some(OpCode { code: 0x50, mnemonic: Mnemonic::Bvc, length: 2, cycles: 3, mode: AddressingMode::Relative }),
        0x70 => Some(OpCode { code: 0x70, mnemonic: Mnemonic::Bvs, length: 2, cycles: 2, mode: AddressingMode::Relative }),
        0x90 => Some(OpCode { code: 0x90, mnemonic: Mnemonic::Bcc, length: 2, cycles: 2, mode: AddressingMode::Relative }),
        0xB0 => Some(OpCode { code: 0xB0, mnemonic: Mnemonic::Bcs, length: 2, cycles: 2, mode: AddressingMode::Relative }),
        0xD0 => Some(OpCode { code: 0xD0, mnemonic: Mnemonic::Bne, length: 2, cycles: 2, mode: AddressingMode::Relative }),
        0xF0 => Some(OpCode { code: 0xF0, mnemonic: Mnemonic::Beq, length: 2, cycles: 2, mode: AddressingMode::Relative }),
        0x00 => Some(OpCode { code: 0x00, mnemonic: Mnemonic::Brk, length: 1, cycles: 7, mode: AddressingMode::NoneAddressing }),
        0xC9 => Some(OpCode { code: 0xC9, mnemonic: Mnemonic::Cmp, length: 2, cycles: 2, mode: AddressingMode::Immediate }),
        0xC5 => Some(OpCode { code: 0xC5, mnemonic: Mnemonic::Cmp, length: 2, cycles: 3, mode: AddressingMode::ZeroPage }),
        0xD5 => Some(OpCode { code: 0xD5, mnemonic: Mnemonic::Cmp, length: 2, cycles: 4, mode: AddressingMode::ZeroPage_X }),
        0xCD => Some(OpCode { code: 0xCD, mnemonic: Mnemonic::Cmp, length: 3, cycles: 4, mode: AddressingMode::Absolute }),
        0xDD => Some(OpCode { code: 0xDD, mnemonic: Mnemonic::Cmp, length: 3, cycles: 4, mode: AddressingMode::Absolute_X }),
        0xD9 => Some(OpCode { code: 0xD9, mnemonic: Mnemonic::Cmp, length: 3, cycles: 4, mode: AddressingMode::Absolute_Y }),
        0xC1 => Some(OpCode { code: 0xC1, mnemonic: Mnemonic::Cmp, length: 2, cycles: 6, mode: AddressingMode::Indirect_X }),
        0xD1 => Some(OpCode { code: 0xD1, mnemonic: Mnemonic::Cmp, length: 2, cycles: 5, mode: AddressingMode::Indirect_Y }),
        0xE0 => Some(OpCode { code: 0xE0, mnemonic: Mnemonic::Cpx, length: 2, cycles: 2, mode: AddressingMode::Immediate }),
        0xE4 => Some(OpCode { code: 0xE4, mnemonic: Mnemonic::Cpx, length: 2, cycles: 3, mode: AddressingMode::ZeroPage }),
        0xEC => Some(OpCode { code: 0xEC, mnemonic: Mnemonic::Cpx, length: 3, cycles: 4, mode: AddressingMode::Absolute }),
        0xC0 => Some(OpCode { code: 0xC0, mnemonic: Mnemonic::Cpy, length: 2, cycles: 2, mode: AddressingMode::Immediate }),
        0xC4 => Some(OpCode { code: 0xC4, mnemonic: Mnemonic::Cpy, length: 2, cycles: 3, mode: AddressingMode::ZeroPage }),
        0xCC => Some(OpCode { code: 0xCC, mnemonic: Mnemonic::Cpy, length: 3, cycles: 4, mode: AddressingMode::Absolute }),
        0xC6 => Some(OpCode { code: 0xC6, mnemonic: Mnemonic::Dec, length: 2, cycles: 5, mode: AddressingMode::ZeroPage }),
        0xD6 => Some(OpCode { code: 0xD6, mnemonic: Mnemonic::Dec, length: 2, cycles: 6, mode: AddressingMode::ZeroPage_X }),
        0xCE => Some(OpCode { code: 0xCE, mnemonic: Mnemonic::Dec, length: 3, cycles: 6, mode: AddressingMode::Absolute }),
        0xDE => Some(OpCode { code: 0xDE, mnemonic: Mnemonic::Dec, length: 3, cycles: 7, mode: AddressingMode::Absolute_X }),
        0x49 => Some(OpCode { code: 0x49, mnemonic: Mnemonic::Eor, length: 2, cycles: 2, mode: AddressingMode::Immediate }),
        0x45 => Some(OpCode { code: 0x45, mnemonic: Mnemonic::Eor, length: 2, cycles: 3, mode: AddressingMode::ZeroPage }),
        0x55 => Some(OpCode { code: 0x55, mnemonic: Mnemonic::Eor, length: 2, cycles: 4, mode: AddressingMode::ZeroPage_X }),
        0x4D => Some(OpCode { code: 0x4D, mnemonic: Mnemonic::Eor, length: 3, cycles: 4, mode: AddressingMode::Absolute }),
        0x5D => Some(OpCode { code: 0x5D, mnemonic: Mnemonic::Eor, length: 3, cycles: 4, mode: AddressingMode::Absolute_X }),
        0x59 => Some(OpCode { code: 0x59, mnemonic: Mnemonic::Eor, length: 3, cycles: 4, mode: AddressingMode::Absolute_Y }),
        0x41 => Some(OpCode { code: 0x41, mnemonic: Mnemonic::Eor, length: 2, cycles: 6, mode: AddressingMode::Indirect_X }),
        0x51 => Some(OpCode { code: 0x51, mnemonic: Mnemonic::Eor, length: 2, cycles: 5, mode: AddressingMode::Indirect_Y }),
        0x18 => Some(OpCode { code: 0x18, mnemonic: Mnemonic::Clc, length: 1, cycles: 2, mode: AddressingMode::NoneAddressing }),
        0x38 => Some(OpCode { code: 0x38, mnemonic: Mnemonic::Sec, length: 1, cycles: 2, mode: AddressingMode::NoneAddressing }),
        0x58 => Some(OpCode { code: 0x58, mnemonic: Mnemonic::Cli, length: 1, cycles: 2, mode: AddressingMode::NoneAddressing }),
        0x78 => Some(OpCode { code: 0x78, mnemonic: Mnemonic::Sei, length: 1, cycles: 2, mode: AddressingMode::NoneAddressing }),
        0xB8 => Some(OpCode { code: 0xB8, mnemonic: Mnemonic::Clv, length: 1, cycles: 2, mode: AddressingMode::NoneAddressing }),
        0xD8 => Some(OpCode { code: 0xD8, mnemonic: Mnemonic::Cld, length: 1, cycles: 2, mode: AddressingMode::NoneAddressing }),
        0xF8 => Some(OpCode { code: 0xF8, mnemonic: Mnemonic::Sed, length: 1, cycles: 2, mode: AddressingMode::NoneAddressing }),
        0xE6 => Some(OpCode { code: 0xE6, mnemonic: Mnemonic::Inc, length: 2, cycles: 5, mode: AddressingMode::ZeroPage }),
        0xF6 => Some(OpCode { code: 0xF6, mnemonic: Mnemonic::Inc, length: 2, cycles: 6, mode: AddressingMode::ZeroPage_X }),
        0xEE => Some(OpCode { code: 0xEE, mnemonic: Mnemonic::Inc, length: 3, cycles: 6, mode: AddressingMode::Absolute }),
        0xFE => Some(OpCode { code: 0xFE, mnemonic: Mnemonic::Inc, length: 3, cycles: 7, mode: AddressingMode::Absolute_X }),
        0x4C => Some(OpCode { code: 0x4C, mnemonic: Mnemonic::Jmp, length: 3, cycles: 3, mode: AddressingMode::Absolute }),
        0x6C => Some(OpCode { code: 0x6C, mnemonic: Mnemonic::Jmp, length: 3, cycles: 5, mode: AddressingMode::Indirect }),
        0x20 => Some(OpCode { code: 0x20, mnemonic: Mnemonic::Jsr, length: 3, cycles: 6, mode: AddressingMode::Absolute }),
        0xA9 => Some(OpCode { code: 0xA9, mnemonic: Mnemonic::Lda, length: 2, cycles: 2, mode: AddressingMode::Immediate }),
        0xA5 => Some(OpCode { code: 0xA5, mnemonic: Mnemonic::Lda, length: 2, cycles: 3, mode: AddressingMode::ZeroPage }),
        0xB5 => Some(OpCode { code: 0xB5, mnemonic: Mnemonic::Lda, length: 2, cycles: 4, mode: AddressingMode::ZeroPage_X }),
        0xAD => Some(OpCode { code: 0xAD, mnemonic: Mnemonic::Lda, length: 3, cycles: 4, mode: AddressingMode::Absolute }),
        0xBD => Some(OpCode { code: 0xBD, mnemonic: Mnemonic::Lda, length: 3, cycles: 4, mode: AddressingMode::Absolute_X }),
        0xB9 => Some(OpCode { code: 0xB9, mnemonic: Mnemonic::Lda, length: 3, cycles: 4, mode: AddressingMode::Absolute_Y }),
        0xA1 => Some(OpCode { code: 0xA1, mnemonic: Mnemonic::Lda, length: 2, cycles: 6, mode: AddressingMode::Indirect_X }),
        0xB1 => Some(OpCode { code: 0xB1, mnemonic: Mnemonic::Lda, length: 2, cycles: 5, mode: AddressingMode::Indirect_Y }),
        0xA2 => Some(OpCode { code: 0xA2, mnemonic: Mnemonic::Ldx, length: 2, cycles: 2, mode: AddressingMode::Immediate }),
        0xA6 => Some(OpCode { code: 0xA6, mnemonic: Mnemonic::Ldx, length: 2, cycles: 3, mode: AddressingMode::ZeroPage }),
        0xB6 => Some(OpCode { code: 0xB6, mnemonic: Mnemonic::Ldx, length: 2, cycles: 4, mode: AddressingMode::ZeroPage_Y }),
        0xAE => Some(OpCode { code: 0xAE, mnemonic: Mnemonic::Ldx, length: 3, cycles: 4, mode: AddressingMode::Absolute }),
        0xBE => Some(OpCode { code: 0xBE, mnemonic: Mnemonic::Ldx, length: 3, cycles: 4, mode: AddressingMode::Absolute_Y }),
        0xA0 => Some(OpCode { code: 0xA0, mnemonic: Mnemonic::Ldy, length: 2, cycles: 2, mode: AddressingMode::Immediate }),
        0xA4 => Some(OpCode { code: 0xA4, mnemonic: Mnemonic::Ldy, length: 2, cycles: 3, mode: AddressingMode::ZeroPage }),
        0xB4 => Some(OpCode { code: 0xB4, mnemonic: Mnemonic::Ldy, length: 2, cycles: 4, mode: AddressingMode::ZeroPage_X }),
        0xAC => Some(OpCode { code: 0xAC, mnemonic: Mnemonic::Ldy, length: 3, cycles: 4, mode: AddressingMode::Absolute }),
        0xBC => Some(OpCode { code: 0xBC, mnemonic: Mnemonic::Ldy, length: 3, cycles: 4, mode: AddressingMode::Absolute_X }),
        0x4A => Some(OpCode { code: 0x4A, mnemonic: Mnemonic::Lsr, length: 1, cycles: 2, mode: AddressingMode::NoneAddressing }),
        0x46 => Some(OpCode { code: 0x46, mnemonic: Mnemonic::Lsr, length: 2, cycles: 5, mode: AddressingMode::ZeroPage }),
        0x56 => Some(OpCode { code: 0x56, mnemonic: Mnemonic::Lsr, length: 2, cycles: 6, mode: AddressingMode::ZeroPage_X }),
        0x4E => Some(OpCode { code: 0x4E, mnemonic: Mnemonic::Lsr, length: 3, cycles: 6, mode: AddressingMode::Absolute }),
        0x5E => Some(OpCode { code: 0x5E, mnemonic: Mnemonic::Lsr, length: 3, cycles: 7, mode: AddressingMode::Absolute_X }),
        0xEA => Some(OpCode { code: 0xEA, mnemonic: Mnemonic::Nop, length: 1, cycles: 2, mode: AddressingMode::NoneAddressing }),
        0x09 => Some(OpCode { code: 0x09, mnemonic: Mnemonic::Ora, length: 2, cycles: 2, mode: AddressingMode::Immediate }),
        0x05 => Some(OpCode { code: 0x05, mnemonic: Mnemonic::Ora, length: 2, cycles: 3, mode: AddressingMode::ZeroPage }),
        0x15 => Some(OpCode { code: 0x15, mnemonic: Mnemonic::Ora, length: 2, cycles: 4, mode: AddressingMode::ZeroPage_X }),
        0x0D => Some(OpCode { code: 0x0D, mnemonic: Mnemonic::Ora, length: 3, cycles: 4, mode: AddressingMode::Absolute }),
        0x1D => Some(OpCode { code: 0x1D, mnemonic: Mnemonic::Ora, length: 3, cycles: 4, mode: AddressingMode::Absolute_X }),
        0x19 => Some(OpCode { code: 0x19, mnemonic: Mnemonic::Ora, length: 3, cycles: 4, mode: AddressingMode::Absolute_Y }),
        0x01 => Some(OpCode { code: 0x01, mnemonic: Mnemonic::Ora, length: 2, cycles: 6, mode: AddressingMode::Indirect_X }),
        0x11 => Some(OpCode { code: 0x11, mnemonic: Mnemonic::Ora, length: 2, cycles: 5, mode: AddressingMode::Indirect_Y }),
        0xAA => Some(OpCode { code: 0xAA, mnemonic: Mnemonic::Tax, length: 1, cycles: 2, mode: AddressingMode::NoneAddressing }),
        0x8A => Some(OpCode { code: 0x8A, mnemonic: Mnemonic::Txa, length: 1, cycles: 2, mode: AddressingMode::NoneAddressing }),
        0xCA => Some(OpCode { code: 0xCA, mnemonic: Mnemonic::Dex, length: 1, cycles: 2, mode: AddressingMode::NoneAddressing }),
        0xE8 => Some(OpCode { code: 0xE8, mnemonic: Mnemonic::Inx, length: 1, cycles: 2, mode: AddressingMode::NoneAddressing }),
        0xA8 => Some(OpCode { code: 0xA8, mnemonic: Mnemonic::Tay, length: 1, cycles: 2, mode: AddressingMode::NoneAddressing }),
        0x98 => Some(OpCode { code: 0x98, mnemonic: Mnemonic::Tya, length: 1, cycles: 2, mode: AddressingMode::NoneAddressing }),
        0x88 => Some(OpCode { code: 0x88, mnemonic: Mnemonic::Dey, length: 1, cycles: 2, mode: AddressingMode::NoneAddressing }),
        0xC8 => Some(OpCode { code: 0xC8, mnemonic: Mnemonic::Iny, length: 1, cycles: 2, mode: AddressingMode::NoneAddressing }),
        0x2A => Some(OpCode { code: 0x2A, mnemonic: Mnemonic::Rol, length: 1, cycles: 2, mode: AddressingMode::NoneAddressing }),
        0x26 => Some(OpCode { code: 0x26, mnemonic: Mnemonic::Rol, length: 2, cycles: 5, mode: AddressingMode::ZeroPage }),
        0x36 => Some(OpCode { code: 0x36, mnemonic: Mnemonic::Rol, length: 2, cycles: 6, mode: AddressingMode::ZeroPage_X }),
        0x2E => Some(OpCode { code: 0x2E, mnemonic: Mnemonic::Rol, length: 3, cycles: 6, mode: AddressingMode::Absolute }),
        0x3E => Some(OpCode { code: 0x3E, mnemonic: Mnemonic::Rol, length: 3, cycles: 7, mode: AddressingMode::Absolute_X }),
        0x6A => Some(OpCode { code: 0x6A, mnemonic: Mnemonic::Ror, length: 1, cycles: 2, mode: AddressingMode::NoneAddressing }),
        0x66 => Some(OpCode { code: 0x66, mnemonic: Mnemonic::Ror, length: 2, cycles: 5, mode: AddressingMode::ZeroPage }),
        0x76 => Some(OpCode { code: 0x76, mnemonic: Mnemonic::Ror, length: 2, cycles: 6, mode: AddressingMode::ZeroPage_X }),
        0x6E => Some(OpCode { code: 0x6E, mnemonic: Mnemonic::Ror, length: 3, cycles: 6, mode: AddressingMode::Absolute }),
        0x7E => Some(OpCode { code: 0x7E, mnemonic: Mnemonic::Ror, length: 3, cycles: 7, mode: AddressingMode::Absolute_X }),
        0x40 => Some(OpCode { code: 0x40, mnemonic: Mnemonic::Rti, length: 1, cycles: 6, mode: AddressingMode::NoneAddressing }),
        0x60 => Some(OpCode { code: 0x60, mnemonic: Mnemonic::Rts, length: 1, cycles: 6, mode: AddressingMode::NoneAddressing }),
        0xE9 => Some(OpCode { code: 0xE9, mnemonic: Mnemonic::Sbc, length: 2, cycles: 2, mode: AddressingMode::Immediate }),
        0xE5 => Some(OpCode { code: 0xE5, mnemonic: Mnemonic::Sbc, length: 2, cycles: 3, mode: AddressingMode::ZeroPage }),
        0xF5 => Some(OpCode { code: 0xF5, mnemonic: Mnemonic::Sbc, length: 2, cycles: 4, mode: AddressingMode::ZeroPage_X }),
        0xED => Some(OpCode { code: 0xED, mnemonic: Mnemonic::Sbc, length: 3, cycles: 4, mode: AddressingMode::Absolute }),
        0xFD => Some(OpCode { code: 0xFD, mnemonic: Mnemonic::Sbc, length: 3, cycles: 4, mode: AddressingMode::Absolute_X }),
        0xF9 => Some(OpCode { code: 0xF9, mnemonic: Mnemonic::Sbc, length: 3, cycles: 4, mode: AddressingMode::Absolute_Y }),
        0xE1 => Some(OpCode { code: 0xE1, mnemonic: Mnemonic::Sbc, length: 2, cycles: 6, mode: AddressingMode::Indirect_X }),
        0xF1 => Some(OpCode { code: 0xF1, mnemonic: Mnemonic::Sbc, length: 2, cycles: 5, mode: AddressingMode::Indirect_Y }),
        0x85 => Some(OpCode { code: 0x85, mnemonic: Mnemonic::Sta, length: 2, cycles: 3, mode: AddressingMode::ZeroPage }),
        0x95 => Some(OpCode { code: 0x95, mnemonic: Mnemonic::Sta, length: 2, cycles: 4, mode: AddressingMode::ZeroPage_X }),
        0x8D => Some(OpCode { code: 0x8D, mnemonic: Mnemonic::Sta, length: 3, cycles: 4, mode: AddressingMode::Absolute }),
        0x9D => Some(OpCode { code: 0x9D, mnemonic: Mnemonic::Sta, length: 3, cycles: 5, mode: AddressingMode::Absolute_X }),
        0x99 => Some(OpCode { code: 0x99, mnemonic: Mnemonic::Sta, length: 3, cycles: 5, mode: AddressingMode::Absolute_Y }),
        0x81 => Some(OpCode { code: 0x81, mnemonic: Mnemonic::Sta, length: 2, cycles: 6, mode: AddressingMode::Indirect_X }),
        0x91 => Some(OpCode { code: 0x91, mnemonic: Mnemonic::Sta, length: 2, cycles: 6, mode: AddressingMode::Indirect_Y }),
        0x9A => Some(OpCode { code: 0x9A, mnemonic: Mnemonic::Txs, length: 1, cycles: 2, mode: AddressingMode::NoneAddressing }),
        0xBA => Some(OpCode { code: 0xBA, mnemonic: Mnemonic::Tsx, length: 1, cycles: 2, mode: AddressingMode::NoneAddressing }),
        0x48 => Some(OpCode { code: 0x48, mnemonic: Mnemonic::Pha, length: 1, cycles: 3, mode: AddressingMode::NoneAddressing }),
        0x68 => Some(OpCode { code: 0x68, mnemonic: Mnemonic::Pla, length: 1, cycles: 4, mode: AddressingMode::NoneAddressing }),
        0x08 => Some(OpCode { code: 0x08, mnemonic: Mnemonic::Php, length: 1, cycles: 3, mode: AddressingMode::NoneAddressing }),
        0x28 => Some(OpCode { code: 0x28, mnemonic: Mnemonic::Plp, length: 1, cycles: 4, mode: AddressingMode::NoneAddressing }),
        0x86 => Some(OpCode { code: 0x86, mnemonic: Mnemonic::Stx, length: 2, cycles: 3, mode: AddressingMode::ZeroPage }),
        0x96 => Some(OpCode { code: 0x96, mnemonic: Mnemonic::Stx, length: 2, cycles: 4, mode: AddressingMode::ZeroPage_Y }),
        0x8E => Some(OpCode { code: 0x8E, mnemonic: Mnemonic::Stx, length: 3, cycles: 4, mode: AddressingMode::Absolute }),
        0x84 => Some(OpCode { code: 0x84, mnemonic: Mnemonic::Sty, length: 2, cycles: 3, mode: AddressingMode::ZeroPage }),
        0x94 => Some(OpCode { code: 0x94, mnemonic: Mnemonic::Sty, length: 2, cycles: 4, mode: AddressingMode::ZeroPage_X }),
        0x8C => Some(OpCode { code: 0x8C, mnemonic: Mnemonic::Sty, length: 3, cycles: 4, mode: AddressingMode::Absolute }),
        _ => None,
    }
}

/// Looks an opcode byte up in the instruction table.
pub fn lookup(code: u8) -> (r: Option<OpCode>)
    ensures
        r == opcode_table(code),
{
    match code {
        0x69 => Some(OpCode::new(0x69, Mnemonic::Adc, 2, 2, AddressingMode::Immediate)),
        0x65 => Some(OpCode::new(0x65, Mnemonic::Adc, 2, 3, AddressingMode::ZeroPage)),
        0x75 => Some(OpCode::new(0x75, Mnemonic::Adc, 2, 4, AddressingMode::ZeroPage_X)),
        0x6D => Some(OpCode::new(0x6D, Mnemonic::Adc, 3, 4, AddressingMode::Absolute)),
        0x7D => Some(OpCode::new(0x7D, Mnemonic::Adc, 3, 4, AddressingMode::Absolute_X)),
        0x79 => Some(OpCode::new(0x79, Mnemonic::Adc, 3, 4, AddressingMode::Absolute_Y)),
        0x61 => Some(OpCode::new(0x61, Mnemonic::Adc, 2, 6, AddressingMode::Indirect_X)),
        0x71 => Some(OpCode::new(0x71, Mnemonic::Adc, 2, 5, AddressingMode::Indirect_Y)),
        0x29 => Some(OpCode::new(0x29, Mnemonic::And, 2, 2, AddressingMode::Immediate)),
        0x25 => Some(OpCode::new(0x25, Mnemonic::And, 2, 3, AddressingMode::ZeroPage)),
        0x35 => Some(OpCode::new(0x35, Mnemonic::And, 2, 4, AddressingMode::ZeroPage_X)),
        0x2D => Some(OpCode::new(0x2D, Mnemonic::And, 3, 4, AddressingMode::Absolute)),
        0x3D => Some(OpCode::new(0x3D, Mnemonic::And, 3, 4, AddressingMode::Absolute_X)),
        0x39 => Some(OpCode::new(0x39, Mnemonic::And, 3, 4, AddressingMode::Absolute_Y)),
        0x21 => Some(OpCode::new(0x21, Mnemonic::And, 2, 6, AddressingMode::Indirect_X)),
        0x31 => Some(OpCode::new(0x31, Mnemonic::And, 2, 5, AddressingMode::Indirect_Y)),
        0x0A => Some(OpCode::new(0x0A, Mnemonic::Asl, 1, 2, AddressingMode::NoneAddressing)),
        0x06 => Some(OpCode::new(0x06, Mnemonic::Asl, 2, 5, AddressingMode::ZeroPage)),
        0x16 => Some(OpCode::new(0x16, Mnemonic::Asl, 2, 6, AddressingMode::ZeroPage_X)),
        0x0E => Some(OpCode::new(0x0E, Mnemonic::Asl, 3, 6, AddressingMode::Absolute)),
        0x1E => Some(OpCode::new(0x1E, Mnemonic::Asl, 3, 7, AddressingMode::Absolute_X)),
        0x24 => Some(OpCode::new(0x24, Mnemonic::Bit, 2, 3, AddressingMode::ZeroPage)),
        0x2C => Some(OpCode::new(0x2C, Mnemonic::Bit, 3, 4, AddressingMode::Absolute)),
        0x10 => Some(OpCode::new(0x10, Mnemonic::Bpl, 2, 2, AddressingMode::Relative)),
        0x30 => Some(OpCode::new(0x30, Mnemonic::Bmi, 2, 2, AddressingMode::Relative)),
        0x50 => Some(OpCode::new(0x50, Mnemonic::Bvc, 2, 3, AddressingMode::Relative)),
        0x70 => Some(OpCode::new(0x70, Mnemonic::Bvs, 2, 2, AddressingMode::Relative)),
        0x90 => Some(OpCode::new(0x90, Mnemonic::Bcc, 2, 2, AddressingMode::Relative)),
        0xB0 => Some(OpCode::new(0xB0, Mnemonic::Bcs, 2, 2, AddressingMode::Relative)),
        0xD0 => Some(OpCode::new(0xD0, Mnemonic::Bne, 2, 2, AddressingMode::Relative)),
        0xF0 => Some(OpCode::new(0xF0, Mnemonic::Beq, 2, 2, AddressingMode::Relative)),
        0x00 => Some(OpCode::new(0x00, Mnemonic::Brk, 1, 7, AddressingMode::NoneAddressing)),
        0xC9 => Some(OpCode::new(0xC9, Mnemonic::Cmp, 2, 2, AddressingMode::Immediate)),
        0xC5 => Some(OpCode::new(0xC5, Mnemonic::Cmp, 2, 3, AddressingMode::ZeroPage)),
        0xD5 => Some(OpCode::new(0xD5, Mnemonic::Cmp, 2, 4, AddressingMode::ZeroPage_X)),
        0xCD => Some(OpCode::new(0xCD, Mnemonic::Cmp, 3, 4, AddressingMode::Absolute)),
        0xDD => Some(OpCode::new(0xDD, Mnemonic::Cmp, 3, 4, AddressingMode::Absolute_X)),
        0xD9 => Some(OpCode::new(0xD9, Mnemonic::Cmp, 3, 4, AddressingMode::Absolute_Y)),
        0xC1 => Some(OpCode::new(0xC1, Mnemonic::Cmp, 2, 6, AddressingMode::Indirect_X)),
        0xD1 => Some(OpCode::new(0xD1, Mnemonic::Cmp, 2, 5, AddressingMode::Indirect_Y)),
        0xE0 => Some(OpCode::new(0xE0, Mnemonic::Cpx, 2, 2, AddressingMode::Immediate)),
        0xE4 => Some(OpCode::new(0xE4, Mnemonic::Cpx, 2, 3, AddressingMode::ZeroPage)),
        0xEC => Some(OpCode::new(0xEC, Mnemonic::Cpx, 3, 4, AddressingMode::Absolute)),
        0xC0 => Some(OpCode::new(0xC0, Mnemonic::Cpy, 2, 2, AddressingMode::Immediate)),
        0xC4 => Some(OpCode::new(0xC4, Mnemonic::Cpy, 2, 3, AddressingMode::ZeroPage)),
        0xCC => Some(OpCode::new(0xCC, Mnemonic::Cpy, 3, 4, AddressingMode::Absolute)),
        0xC6 => Some(OpCode::new(0xC6, Mnemonic::Dec, 2, 5, AddressingMode::ZeroPage)),
        0xD6 => Some(OpCode::new(0xD6, Mnemonic::Dec, 2, 6, AddressingMode::ZeroPage_X)),
        0xCE => Some(OpCode::new(0xCE, Mnemonic::Dec, 3, 6, AddressingMode::Absolute)),
        0xDE => Some(OpCode::new(0xDE, Mnemonic::Dec, 3, 7, AddressingMode::Absolute_X)),
        0x49 => Some(OpCode::new(0x49, Mnemonic::Eor, 2, 2, AddressingMode::Immediate)),
        0x45 => Some(OpCode::new(0x45, Mnemonic::Eor, 2, 3, AddressingMode::ZeroPage)),
        0x55 => Some(OpCode::new(0x55, Mnemonic::Eor, 2, 4, AddressingMode::ZeroPage_X)),
        0x4D => Some(OpCode::new(0x4D, Mnemonic::Eor, 3, 4, AddressingMode::Absolute)),
        0x5D => Some(OpCode::new(0x5D, Mnemonic::Eor, 3, 4, AddressingMode::Absolute_X)),
        0x59 => Some(OpCode::new(0x59, Mnemonic::Eor, 3, 4, AddressingMode::Absolute_Y)),
        0x41 => Some(OpCode::new(0x41, Mnemonic::Eor, 2, 6, AddressingMode::Indirect_X)),
        0x51 => Some(OpCode::new(0x51, Mnemonic::Eor, 2, 5, AddressingMode::Indirect_Y)),
        0x18 => Some(OpCode::new(0x18, Mnemonic::Clc, 1, 2, AddressingMode::NoneAddressing)),
        0x38 => Some(OpCode::new(0x38, Mnemonic::Sec, 1, 2, AddressingMode::NoneAddressing)),
        0x58 => Some(OpCode::new(0x58, Mnemonic::Cli, 1, 2, AddressingMode::NoneAddressing)),
        0x78 => Some(OpCode::new(0x78, Mnemonic::Sei, 1, 2, AddressingMode::NoneAddressing)),
        0xB8 => Some(OpCode::new(0xB8, Mnemonic::Clv, 1, 2, AddressingMode::NoneAddressing)),
        0xD8 => Some(OpCode::new(0xD8, Mnemonic::Cld, 1, 2, AddressingMode::NoneAddressing)),
        0xF8 => Some(OpCode::new(0xF8, Mnemonic::Sed, 1, 2, AddressingMode::NoneAddressing)),
        0xE6 => Some(OpCode::new(0xE6, Mnemonic::Inc, 2, 5, AddressingMode::ZeroPage)),
        0xF6 => Some(OpCode::new(0xF6, Mnemonic::Inc, 2, 6, AddressingMode::ZeroPage_X)),
        0xEE => Some(OpCode::new(0xEE, Mnemonic::Inc, 3, 6, AddressingMode::Absolute)),
        0xFE => Some(OpCode::new(0xFE, Mnemonic::Inc, 3, 7, AddressingMode::Absolute_X)),
        0x4C => Some(OpCode::new(0x4C, Mnemonic::Jmp, 3, 3, AddressingMode::Absolute)),
        0x6C => Some(OpCode::new(0x6C, Mnemonic::Jmp, 3, 5, AddressingMode::Indirect)),
        0x20 => Some(OpCode::new(0x20, Mnemonic::Jsr, 3, 6, AddressingMode::Absolute)),
        0xA9 => Some(OpCode::new(0xA9, Mnemonic::Lda, 2, 2, AddressingMode::Immediate)),
        0xA5 => Some(OpCode::new(0xA5, Mnemonic::Lda, 2, 3, AddressingMode::ZeroPage)),
        0xB5 => Some(OpCode::new(0xB5, Mnemonic::Lda, 2, 4, AddressingMode::ZeroPage_X)),
        0xAD => Some(OpCode::new(0xAD, Mnemonic::Lda, 3, 4, AddressingMode::Absolute)),
        0xBD => Some(OpCode::new(0xBD, Mnemonic::Lda, 3, 4, AddressingMode::Absolute_X)),
        0xB9 => Some(OpCode::new(0xB9, Mnemonic::Lda, 3, 4, AddressingMode::Absolute_Y)),
        0xA1 => Some(OpCode::new(0xA1, Mnemonic::Lda, 2, 6, AddressingMode::Indirect_X)),
        0xB1 => Some(OpCode::new(0xB1, Mnemonic::Lda, 2, 5, AddressingMode::Indirect_Y)),
        0xA2 => Some(OpCode::new(0xA2, Mnemonic::Ldx, 2, 2, AddressingMode::Immediate)),
        0xA6 => Some(OpCode::new(0xA6, Mnemonic::Ldx, 2, 3, AddressingMode::ZeroPage)),
        0xB6 => Some(OpCode::new(0xB6, Mnemonic::Ldx, 2, 4, AddressingMode::ZeroPage_Y)),
        0xAE => Some(OpCode::new(0xAE, Mnemonic::Ldx, 3, 4, AddressingMode::Absolute)),
        0xBE => Some(OpCode::new(0xBE, Mnemonic::Ldx, 3, 4, AddressingMode::Absolute_Y)),
        0xA0 => Some(OpCode::new(0xA0, Mnemonic::Ldy, 2, 2, AddressingMode::Immediate)),
        0xA4 => Some(OpCode::new(0xA4, Mnemonic::Ldy, 2, 3, AddressingMode::ZeroPage)),
        0xB4 => Some(OpCode::new(0xB4, Mnemonic::Ldy, 2, 4, AddressingMode::ZeroPage_X)),
        0xAC => Some(OpCode::new(0xAC, Mnemonic::Ldy, 3, 4, AddressingMode::Absolute)),
        0xBC => Some(OpCode::new(0xBC, Mnemonic::Ldy, 3, 4, AddressingMode::Absolute_X)),
        0x4A => Some(OpCode::new(0x4A, Mnemonic::Lsr, 1, 2, AddressingMode::NoneAddressing)),
        0x46 => Some(OpCode::new(0x46, Mnemonic::Lsr, 2, 5, AddressingMode::ZeroPage)),
        0x56 => Some(OpCode::new(0x56, Mnemonic::Lsr, 2, 6, AddressingMode::ZeroPage_X)),
        0x4E => Some(OpCode::new(0x4E, Mnemonic::Lsr, 3, 6, AddressingMode::Absolute)),
        0x5E => Some(OpCode::new(0x5E, Mnemonic::Lsr, 3, 7, AddressingMode::Absolute_X)),
        0xEA => Some(OpCode::new(0xEA, Mnemonic::Nop, 1, 2, AddressingMode::NoneAddressing)),
        0x09 => Some(OpCode::new(0x09, Mnemonic::Ora, 2, 2, AddressingMode::Immediate)),
        0x05 => Some(OpCode::new(0x05, Mnemonic::Ora, 2, 3, AddressingMode::ZeroPage)),
        0x15 => Some(OpCode::new(0x15, Mnemonic::Ora, 2, 4, AddressingMode::ZeroPage_X)),
        0x0D => Some(OpCode::new(0x0D, Mnemonic::Ora, 3, 4, AddressingMode::Absolute)),
        0x1D => Some(OpCode::new(0x1D, Mnemonic::Ora, 3, 4, AddressingMode::Absolute_X)),
        0x19 => Some(OpCode::new(0x19, Mnemonic::Ora, 3, 4, AddressingMode::Absolute_Y)),
        0x01 => Some(OpCode::new(0x01, Mnemonic::Ora, 2, 6, AddressingMode::Indirect_X)),
        0x11 => Some(OpCode::new(0x11, Mnemonic::Ora, 2, 5, AddressingMode::Indirect_Y)),
        0xAA => Some(OpCode::new(0xAA, Mnemonic::Tax, 1, 2, AddressingMode::NoneAddressing)),
        0x8A => Some(OpCode::new(0x8A, Mnemonic::Txa, 1, 2, AddressingMode::NoneAddressing)),
        0xCA => Some(OpCode::new(0xCA, Mnemonic::Dex, 1, 2, AddressingMode::NoneAddressing)),
        0xE8 => Some(OpCode::new(0xE8, Mnemonic::Inx, 1, 2, AddressingMode::NoneAddressing)),
        0xA8 => Some(OpCode::new(0xA8, Mnemonic::Tay, 1, 2, AddressingMode::NoneAddressing)),
        0x98 => Some(OpCode::new(0x98, Mnemonic::Tya, 1, 2, AddressingMode::NoneAddressing)),
        0x88 => Some(OpCode::new(0x88, Mnemonic::Dey, 1, 2, AddressingMode::NoneAddressing)),
        0xC8 => Some(OpCode::new(0xC8, Mnemonic::Iny, 1, 2, AddressingMode::NoneAddressing)),
        0x2A => Some(OpCode::new(0x2A, Mnemonic::Rol, 1, 2, AddressingMode::NoneAddressing)),
        0x26 => Some(OpCode::new(0x26, Mnemonic::Rol, 2, 5, AddressingMode::ZeroPage)),
        0x36 => Some(OpCode::new(0x36, Mnemonic::Rol, 2, 6, AddressingMode::ZeroPage_X)),
        0x2E => Some(OpCode::new(0x2E, Mnemonic::Rol, 3, 6, AddressingMode::Absolute)),
        0x3E => Some(OpCode::new(0x3E, Mnemonic::Rol, 3, 7, AddressingMode::Absolute_X)),
        0x6A => Some(OpCode::new(0x6A, Mnemonic::Ror, 1, 2, AddressingMode::NoneAddressing)),
        0x66 => Some(OpCode::new(0x66, Mnemonic::Ror, 2, 5, AddressingMode::ZeroPage)),
        0x76 => Some(OpCode::new(0x76, Mnemonic::Ror, 2, 6, AddressingMode::ZeroPage_X)),
        0x6E => Some(OpCode::new(0x6E, Mnemonic::Ror, 3, 6, AddressingMode::Absolute)),
        0x7E => Some(OpCode::new(0x7E, Mnemonic::Ror, 3, 7, AddressingMode::Absolute_X)),
        0x40 => Some(OpCode::new(0x40, Mnemonic::Rti, 1, 6, AddressingMode::NoneAddressing)),
        0x60 => Some(OpCode::new(0x60, Mnemonic::Rts, 1, 6, AddressingMode::NoneAddressing)),
        0xE9 => Some(OpCode::new(0xE9, Mnemonic::Sbc, 2, 2, AddressingMode::Immediate)),
        0xE5 => Some(OpCode::new(0xE5, Mnemonic::Sbc, 2, 3, AddressingMode::ZeroPage)),
        0xF5 => Some(OpCode::new(0xF5, Mnemonic::Sbc, 2, 4, AddressingMode::ZeroPage_X)),
        0xED => Some(OpCode::new(0xED, Mnemonic::Sbc, 3, 4, AddressingMode::Absolute)),
        0xFD => Some(OpCode::new(0xFD, Mnemonic::Sbc, 3, 4, AddressingMode::Absolute_X)),
        0xF9 => Some(OpCode::new(0xF9, Mnemonic::Sbc, 3, 4, AddressingMode::Absolute_Y)),
        0xE1 => Some(OpCode::new(0xE1, Mnemonic::Sbc, 2, 6, AddressingMode::Indirect_X)),
        0xF1 => Some(OpCode::new(0xF1, Mnemonic::Sbc, 2, 5, AddressingMode::Indirect_Y)),
        0x85 => Some(OpCode::new(0x85, Mnemonic::Sta, 2, 3, AddressingMode::ZeroPage)),
        0x95 => Some(OpCode::new(0x95, Mnemonic::Sta, 2, 4, AddressingMode::ZeroPage_X)),
        0x8D => Some(OpCode::new(0x8D, Mnemonic::Sta, 3, 4, AddressingMode::Absolute)),
        0x9D => Some(OpCode::new(0x9D, Mnemonic::Sta, 3, 5, AddressingMode::Absolute_X)),
        0x99 => Some(OpCode::new(0x99, Mnemonic::Sta, 3, 5, AddressingMode::Absolute_Y)),
        0x81 => Some(OpCode::new(0x81, Mnemonic::Sta, 2, 6, AddressingMode::Indirect_X)),
        0x91 => Some(OpCode::new(0x91, Mnemonic::Sta, 2, 6, AddressingMode::Indirect_Y)),
        0x9A => Some(OpCode::new(0x9A, Mnemonic::Txs, 1, 2, AddressingMode::NoneAddressing)),
        0xBA => Some(OpCode::new(0xBA, Mnemonic::Tsx, 1, 2, AddressingMode::NoneAddressing)),
        0x48 => Some(OpCode::new(0x48, Mnemonic::Pha, 1, 3, AddressingMode::NoneAddressing)),
        0x68 => Some(OpCode::new(0x68, Mnemonic::Pla, 1, 4, AddressingMode::NoneAddressing)),
        0x08 => Some(OpCode::new(0x08, Mnemonic::Php, 1, 3, AddressingMode::NoneAddressing)),
        0x28 => Some(OpCode::new(0x28, Mnemonic::Plp, 1, 4, AddressingMode::NoneAddressing)),
        0x86 => Some(OpCode::new(0x86, Mnemonic::Stx, 2, 3, AddressingMode::ZeroPage)),
        0x96 => Some(OpCode::new(0x96, Mnemonic::Stx, 2, 4, AddressingMode::ZeroPage_Y)),
        0x8E => Some(OpCode::new(0x8E, Mnemonic::Stx, 3, 4, AddressingMode::Absolute)),
        0x84 => Some(OpCode::new(0x84, Mnemonic::Sty, 2, 3, AddressingMode::ZeroPage)),
        0x94 => Some(OpCode::new(0x94, Mnemonic::Sty, 2, 4, AddressingMode::ZeroPage_X)),
        0x8C => Some(OpCode::new(0x8C, Mnemonic::Sty, 3, 4, AddressingMode::Absolute)),
        _ => None,
    }
}

} // verus!
