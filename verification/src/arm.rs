use vstd::prelude::*;

verus! {

/// An Armv7-M Thumb instruction. Only a small subset of all the existing instructions is supported.
/// See section A7.7, pA7-186 of the Arm v7-M Architecture Reference Manual.
#[allow(inconsistent_fields)]
#[derive(Clone, Copy, Debug, PartialEq, Eq, Structural)]
pub enum Instruction {
    /// ADD (immediate), section A7.7.3, encoding T2.
    AddRdnImm8 { rdn: u8, imm8: u8 },
    /// ADD (register), section A7.7.4, encoding T1.
    AddRdRnRm { rd: u8, rn: u8, rm: u8 },
    /// ADD (SP plus immediate), section A7.7.5, encoding T1.
    AddRdSpImm8 { rd: u8, imm: u16 },
    /// ADD (SP plus immediate), section A7.7.5, encoding T2.
    AddSpSpImm7 { imm: u16 },
    /// ADR, section A7.7.7, encoding T2.
    AdrRdMinusImm12 { rd: u8, imm12: u16 },
    /// AND (register), section A7.7.9, encoding T1.
    AndRdnRm { rdn: u8, rm: u8 },
    /// B, section A7.7.12, encoding T2.
    BImm11 { imm: i16 },
    /// BL, section A7.7.18, encoding T1 (positive offset case).
    BlPlusImm24 { imm16: u16, imm8: u8 },
    /// BL, section A7.7.18, encoding T1 (negative offset case).
    BlMinusImm24 { imm16: u16, imm8: u8 },
    /// BLX (register), section A7.7.19, encoding T1.
    BlxRm { rm: u8 },
    /// BX, section A7.7.20, encoding T1.
    BxRm { rm: u8 },
    /// CBZ, section A7.7.21, encoding T1.
    CbzRnImm6 { rn: u8, imm: u8 },
    /// CMP (immediate), section A7.7.27, encoding T1.
    CmpRnImm8 { rn: u8, imm8: u8 },
    /// CMP (register), section A7.7.28, encoding T1.
    CmpRnRm { rn: u8, rm: u8 },
    /// IT, section A7.7.38, enconding T1.
    It { first_cond_and_mask: u8 },
    /// LDRB (immediate), section A7.7.46, encoding T1.
    LdrbRtRnImm5 { rt: u8, rn: u8, imm5: u8 },
    /// LDRH (immediate), section A7.7.55, encoding T1.
    LdrhRtRnImm5 { rt: u8, rn: u8, imm: u8 },
    /// LDR (literal), section A7.7.44, encoding T1.
    LdrRtPcImm8 { rt: u8, imm: u16 },
    /// LDR (immediate), section A7.7.43, encoding T1.
    LdrRtRnImm5 { rt: u8, rn: u8, imm: u8 },
    /// LDR (immediate), section A7.7.43, encoding T2.
    LdrRtSpImm8 { rt: u8, imm: u16 },
    /// LSL (register), section A7.7.69, encoding T1.
    LslRdnRm { rdn: u8, rm: u8 },
    /// LSL (immediate), section A7.7.68, encoding T1.
    LslRdRmImm5 { rd: u8, rm: u8, imm5: u8 },
    /// LSR (register), section A7.7.71, encoding T1.
    LsrRdnRm { rdn: u8, rm: u8 },
    /// LSR (immediate), section A7.7.70, encoding T1.
    LsrRdRmImm5 { rd: u8, rm: u8, imm: u8 },
    /// MOV (immediate), section A7.7.76, encoding T1.
    MovRdImm8 { rd: u8, imm8: u8 },
    /// MOV (register), section A7.7.77, encoding T1.
    MovRdRm { rd: u8, rm: u8 },
    /// MOVT, section A7.7.79, encoding T1.
    MovtRdImm16 { rd: u8, imm16: u16 },
    /// MOV (immediate), section A7.7.76, encoding T3.
    MovwRdImm16 { rd: u8, imm16: u16 },
    /// MRS, section B5.2.2, encoding T1.
    MrsRdReg { rd: u8, reg: u8 },
    /// MSR, section B5.2.3, encoding T1.
    MsrRegRn { rn: u8, reg: u8 },
    /// MUL, section A7.7.84, encoding T1.
    MulRdmRn { rdm: u8, rn: u8 },
    /// ORR (register), section A7.7.92, encoding T1.
    OrrRdnRm { rdn: u8, rm: u8 },
    /// POP, section A7.7.99, encoding T1.
    Pop { registers: u8, pc: bool },
    /// PUSH, section A7.7.101, encoding T1.
    Push { registers: u8, lr: bool },
    /// STRB (immediate) , section A7.7.163, encoding T1.
    StrbRtRnImm5 { rt: u8, rn: u8, imm5: u8 },
    /// STRH (immediate), section A7.7.170, encoding T1.
    StrhRtRnImm5 { rt: u8, rn: u8, imm: u8 },
    /// STR (immediate), section A7.7.161, encoding T1.
    StrRtRnImm5 { rt: u8, rn: u8, imm: u8 },
    /// STR (immediate), section A7.7.161, encoding T2.
    StrRtSpImm8 { rt: u8, imm: u16 },
    /// SUB (immediate), section A7.7.174, encoding T2.
    SubRdnImm8 { rdn: u8, imm8: u8 },
    /// SUB (register), section A7.7.175, encoding T1.
    SubRdRnRm { rd: u8, rn: u8, rm: u8 },
    /// SUB (SP minus immediate), section A7.7.176, encoding T1.
    SubSpSpImm7 { imm: u16 },
    /// SVC, section A7.7.178, encoding T1.
    SvcImm8 { imm8: u8 },
    /// TBB, section A7.7.185, encoding T1.
    TbbRnRm { rn: u8, rm: u8 },
    /// UDIV, section A7.7.195, encoding T1.
    UdivRdRnRm { rd: u8, rn: u8, rm: u8 },
    Unknown,
    Unsupported,
    Invalid,
}

pub const STACK_POINTER_REGISTER: u8 = 13;

pub const PROGRAM_COUNTER_REGISTER: u8 = 15;

pub const LAST_PROGRAM_STATUS_SPECIAL_REGISTER: u8 = 7;

/// The bits `first..=last` of `value`, as an unsigned number.
pub open spec fn bits(value: u32, first: u32, last: u32) -> u32 {
    (value >> first) & (((1u64 << (last - first + 1)) - 1) as u32)
}

/// The same bit field, truncated to 8 bits.
pub open spec fn bits8(value: u32, first: u32, last: u32) -> u8 {
    bits(value, first, last) as u8
}

/// The signed value of the 12 bit two's complement number `value`.
pub open spec fn sign_extend12(value: u16) -> i16 {
    if value & 0x800 != 0 {
        (value as int - 0x1000) as i16
    } else {
        value as i16
    }
}

/// Whether `insn` is the first half of a 32 bit Thumb instruction (section A5.1).
pub open spec fn is_32bit(insn: u32) -> bool {
    bits(insn, 11, 15) > 0b11100
}

/// Decoding of the 16 bit Thumb instructions whose bits 11..15 are `0b01000`
/// (data processing, special data and branch exchange).
pub open spec fn decode_group_01000(insn: u32) -> Instruction {
    let op = bits(insn, 6, 10);
    let low = bits8(insn, 0, 2);
    let mid = bits8(insn, 3, 5);
    if op == 0b00000 {
        Instruction::AndRdnRm { rdn: low, rm: mid }
    } else if op == 0b00010 {
        Instruction::LslRdnRm { rdn: low, rm: mid }
    } else if op == 0b00011 {
        Instruction::LsrRdnRm { rdn: low, rm: mid }
    } else if op == 0b01010 {
        Instruction::CmpRnRm { rn: low, rm: mid }
    } else if op == 0b01100 {
        Instruction::OrrRdnRm { rdn: low, rm: mid }
    } else if op == 0b01101 {
        Instruction::MulRdmRn { rdm: low, rn: mid }
    } else if 0b11000 <= op <= 0b11011 {
        Instruction::MovRdRm { rd: ((bits(insn, 7, 7) << 3) | bits(insn, 0, 2)) as u8, rm: bits8(insn, 3, 6) }
    } else if 0b11100 <= op <= 0b11101 {
        let rm = bits8(insn, 3, 6);
        if low == 0 && rm != PROGRAM_COUNTER_REGISTER {
            Instruction::BxRm { rm }
        } else {
            Instruction::Unsupported
        }
    } else if 0b11110 <= op <= 0b11111 {
        let rm = bits8(insn, 3, 6);
        if low != 0 {
            Instruction::Unsupported
        } else if rm == PROGRAM_COUNTER_REGISTER {
            Instruction::Invalid
        } else {
            Instruction::BlxRm { rm }
        }
    } else {
        Instruction::Unsupported
    }
}

/// Decoding of the 16 bit Thumb instructions whose bits 11..15 are `0b10110` (miscellaneous).
pub open spec fn decode_group_10110(insn: u32) -> Instruction {
    let op = bits(insn, 7, 10);
    if op == 0b0000 {
        Instruction::AddSpSpImm7 { imm: (bits(insn, 0, 6) << 2) as u16 }
    } else if op == 0b0001 {
        Instruction::SubSpSpImm7 { imm: (bits(insn, 0, 6) << 2) as u16 }
    } else if 0b0010 <= op <= 0b0011 {
        Instruction::CbzRnImm6 { rn: bits8(insn, 0, 2), imm: (bits(insn, 3, 7) << 1) as u8 }
    } else if 0b0110 <= op <= 0b0111 {
        Instruction::CbzRnImm6 {
            rn: bits8(insn, 0, 2),
            imm: ((bits(insn, 3, 7) | 0x20) << 1) as u8,
        }
    } else if 0b1000 <= op <= 0b1011 {
        Instruction::Push { registers: bits8(insn, 0, 7), lr: bits(insn, 8, 8) != 0 }
    } else {
        Instruction::Unsupported
    }
}

/// Decoding of the 16 bit Thumb instructions whose bits 11..15 are `0b10111` (miscellaneous).
pub open spec fn decode_group_10111(insn: u32) -> Instruction {
    let op = bits(insn, 8, 10);
    if 0b100 <= op <= 0b101 {
        Instruction::Pop { registers: bits8(insn, 0, 7), pc: bits(insn, 8, 8) != 0 }
    } else if op == 0b111 {
        Instruction::It { first_cond_and_mask: bits8(insn, 0, 7) }
    } else {
        Instruction::Unsupported
    }
}

/// Decoding of TBB, the only supported 32 bit instruction whose first half has bits 11..15 equal
/// to `0b11101`.
pub open spec fn decode_group_11101(insn: u32) -> Instruction {
    if bits(insn, 4, 10) == 0b0001101 && bits(insn, 20, 31) == 0b111100000000 {
        let rn = bits8(insn, 0, 3);
        let rm = bits8(insn, 16, 19);
        if rn == STACK_POINTER_REGISTER || rm == STACK_POINTER_REGISTER
            || rm == PROGRAM_COUNTER_REGISTER {
            Instruction::Invalid
        } else {
            Instruction::TbbRnRm { rn, rm }
        }
    } else {
        Instruction::Unsupported
    }
}

/// The 16 bit immediate of MOVW and MOVT (fields imm4:i:imm3:imm8).
pub open spec fn imm16_of(insn: u32) -> u16 {
    ((bits(insn, 0, 3) << 12) | (bits(insn, 10, 10) << 11) | (bits(insn, 28, 30) << 8) | bits(
        insn,
        16,
        23,
    )) as u16
}

/// The 12 bit immediate of ADR (fields i:imm3:imm8).
pub open spec fn imm12_of(insn: u32) -> u16 {
    ((bits(insn, 10, 10) << 11) | (bits(insn, 28, 30) << 8) | bits(insn, 16, 23)) as u16
}

/// Decoding of the 32 bit data processing (plain binary immediate) instructions.
pub open spec fn decode_group_11110_immediate(insn: u32) -> Instruction {
    let rd = bits8(insn, 24, 27);
    let low = insn & 0b1111101111111111;
    if rd == STACK_POINTER_REGISTER || rd == PROGRAM_COUNTER_REGISTER {
        Instruction::Invalid
    } else if 0b1111001001000000 <= low <= 0b1111001001001111 {
        Instruction::MovwRdImm16 { rd, imm16: imm16_of(insn) }
    } else if low == 0b1111001010101111 {
        Instruction::AdrRdMinusImm12 { rd, imm12: imm12_of(insn) }
    } else if 0b1111001011000000 <= low <= 0b1111001011001111 {
        Instruction::MovtRdImm16 { rd, imm16: imm16_of(insn) }
    } else {
        Instruction::Unsupported
    }
}

/// The 24 bit unsigned offset (with its implicit trailing zero) of a BL instruction, before
/// the sign is taken into account.
pub open spec fn bl_offset(insn: u32) -> u32 {
    let s = bits(insn, 10, 10);
    let i1 = (bits(insn, 29, 29) ^ s) ^ 1;
    let i2 = (bits(insn, 27, 27) ^ s) ^ 1;
    ((i1 << 22) | (i2 << 21) | (bits(insn, 0, 9) << 11) | bits(insn, 16, 26)) << 1
}

/// Decoding of the 32 bit branch and miscellaneous control instructions.
pub open spec fn decode_group_11110_branch(insn: u32) -> Instruction {
    let flags = bits(insn, 27, 30);
    if flags & 0b1010 == 0b1010 {
        let imm24 = bl_offset(insn);
        if bits(insn, 10, 10) == 0 {
            Instruction::BlPlusImm24 { imm16: imm24 as u16, imm8: (imm24 >> 16) as u8 }
        } else {
            let negated = (0xFFFFFF - imm24) as u32;
            Instruction::BlMinusImm24 { imm16: negated as u16, imm8: (negated >> 16) as u8 }
        }
    } else if flags & 0b1110 == 0 {
        let reg = bits8(insn, 16, 23);
        let rd = bits8(insn, 24, 27);
        if insn & 0xFFFF == 0b1111001111101111 {
            if rd == STACK_POINTER_REGISTER || rd == PROGRAM_COUNTER_REGISTER {
                Instruction::Invalid
            } else if reg <= LAST_PROGRAM_STATUS_SPECIAL_REGISTER {
                Instruction::Unsupported
            } else {
                Instruction::MrsRdReg { rd, reg }
            }
        } else if insn & 0b1111111111110000 == 0b1111001110000000 && rd == 8 {
            let rn = bits8(insn, 0, 3);
            if rn == STACK_POINTER_REGISTER || rn == PROGRAM_COUNTER_REGISTER {
                Instruction::Invalid
            } else if reg <= LAST_PROGRAM_STATUS_SPECIAL_REGISTER {
                Instruction::Unsupported
            } else {
                Instruction::MsrRegRn { rn, reg }
            }
        } else {
            Instruction::Unsupported
        }
    } else {
        Instruction::Unsupported
    }
}

/// Decoding of UDIV, the only supported 32 bit instruction whose first half has bits 11..15
/// equal to `0b11111`.
pub open spec fn decode_group_11111(insn: u32) -> Instruction {
    if bits(insn, 4, 10) == 0b0111011 && bits(insn, 20, 23) == 0b1111 && bits(insn, 28, 31)
        == 0b1111 {
        let rn = bits8(insn, 0, 3);
        let rm = bits8(insn, 16, 19);
        let rd = bits8(insn, 24, 27);
        if rn == STACK_POINTER_REGISTER || rn == PROGRAM_COUNTER_REGISTER || rm
            == STACK_POINTER_REGISTER || rm == PROGRAM_COUNTER_REGISTER || rd
            == STACK_POINTER_REGISTER || rd == PROGRAM_COUNTER_REGISTER {
            Instruction::Invalid
        } else {
            Instruction::UdivRdRnRm { rd, rn, rm }
        }
    } else {
        Instruction::Unsupported
    }
}

/// The instruction encoded by `insn` (a 16 bit instruction in the low half word, or a 32 bit
/// instruction with its first half word in the low half word).
pub open spec fn decode(insn: u32) -> Instruction {
    let op = bits(insn, 11, 15);
    let r0 = bits8(insn, 0, 2);
    let r3 = bits8(insn, 3, 5);
    let r6 = bits8(insn, 6, 8);
    let r8 = bits8(insn, 8, 10);
    let imm5 = bits8(insn, 6, 10);
    let imm8 = bits8(insn, 0, 7);
    if op == 0b00000 {
        if imm5 == 0 {
            Instruction::Unsupported
        } else {
            Instruction::LslRdRmImm5 { rd: r0, rm: r3, imm5 }
        }
    } else if op == 0b00001 {
        Instruction::LsrRdRmImm5 { rd: r0, rm: r3, imm: if imm5 == 0 { 32 } else { imm5 } }
    } else if op == 0b00011 {
        let sub_op = bits(insn, 9, 10);
        if sub_op == 0 {
            Instruction::AddRdRnRm { rd: r0, rn: r3, rm: r6 }
        } else if sub_op == 1 {
            Instruction::SubRdRnRm { rd: r0, rn: r3, rm: r6 }
        } else {
            Instruction::Unsupported
        }
    } else if op == 0b00100 {
        Instruction::MovRdImm8 { rd: r8, imm8 }
    } else if op == 0b00101 {
        Instruction::CmpRnImm8 { rn: r8, imm8 }
    } else if op == 0b00110 {
        Instruction::AddRdnImm8 { rdn: r8, imm8 }
    } else if op == 0b00111 {
        Instruction::SubRdnImm8 { rdn: r8, imm8 }
    } else if op == 0b01000 {
        decode_group_01000(insn)
    } else if op == 0b01001 {
        Instruction::LdrRtPcImm8 { rt: r8, imm: (bits(insn, 0, 7) << 2) as u16 }
    } else if op == 0b01100 {
        Instruction::StrRtRnImm5 { rt: r0, rn: r3, imm: (bits(insn, 6, 10) << 2) as u8 }
    } else if op == 0b01101 {
        Instruction::LdrRtRnImm5 { rt: r0, rn: r3, imm: (bits(insn, 6, 10) << 2) as u8 }
    } else if op == 0b01110 {
        Instruction::StrbRtRnImm5 { rt: r0, rn: r3, imm5 }
    } else if op == 0b01111 {
        Instruction::LdrbRtRnImm5 { rt: r0, rn: r3, imm5 }
    } else if op == 0b10000 {
        Instruction::StrhRtRnImm5 { rt: r0, rn: r3, imm: (bits(insn, 6, 10) << 1) as u8 }
    } else if op == 0b10001 {
        Instruction::LdrhRtRnImm5 { rt: r0, rn: r3, imm: (bits(insn, 6, 10) << 1) as u8 }
    } else if op == 0b10010 {
        Instruction::StrRtSpImm8 { rt: r8, imm: (bits(insn, 0, 7) << 2) as u16 }
    } else if op == 0b10011 {
        Instruction::LdrRtSpImm8 { rt: r8, imm: (bits(insn, 0, 7) << 2) as u16 }
    } else if op == 0b10101 {
        Instruction::AddRdSpImm8 { rd: r8, imm: (bits(insn, 0, 7) << 2) as u16 }
    } else if op == 0b10110 {
        decode_group_10110(insn)
    } else if op == 0b10111 {
        decode_group_10111(insn)
    } else if op == 0b11011 {
        if bits(insn, 8, 10) == 0b111 {
            Instruction::SvcImm8 { imm8 }
        } else {
            Instruction::Unsupported
        }
    } else if op == 0b11100 {
        Instruction::BImm11 { imm: sign_extend12((bits(insn, 0, 10) << 1) as u16) }
    } else if op == 0b11101 {
        decode_group_11101(insn)
    } else if op == 0b11110 {
        if bits(insn, 31, 31) == 0 {
            decode_group_11110_immediate(insn)
        } else {
            decode_group_11110_branch(insn)
        }
    } else if op == 0b11111 {
        decode_group_11111(insn)
    } else {
        Instruction::Unsupported
    }
}

/// Computes `bits(value, first, last)`.
fn bits32(value: u32, first: u32, last: u32) -> (r: u32)
    requires
        first <= last < 32,
        last - first < 31,
    ensures
        r == bits(value, first, last),
        r < (1u64 << (last - first + 1)),
{
    let width = last - first + 1;
    assert(1u32 << width >= 1u32 && (1u32 << width) as u64 == 1u64 << width) by (bit_vector)
        requires
            1 <= width < 32,
    ;
    let mask: u32 = (1u32 << width) - 1;
    assert((value >> first) & mask <= mask) by (bit_vector);
    (value >> first) & mask
}

#[inline(always)]
pub fn is32bit_insn(insn: u32) -> (r: bool)
    ensures
        r == is_32bit(insn),
{
    // See section A5.1, "Thumb instruction set encoding".
    bits32(insn, 11, 15) > 0b11100
}

fn decode_insn_01000(insn: u32) -> (r: Instruction)
    ensures
        r == decode_group_01000(insn),
{
    let op = bits32(insn, 6, 10);
    let low = bits32(insn, 0, 2) as u8;
    let mid = bits32(insn, 3, 5) as u8;
    if op == 0b00000 {
        Instruction::AndRdnRm { rdn: low, rm: mid }
    } else if op == 0b00010 {
        Instruction::LslRdnRm { rdn: low, rm: mid }
    } else if op == 0b00011 {
        Instruction::LsrRdnRm { rdn: low, rm: mid }
    } else if op == 0b01010 {
        Instruction::CmpRnRm { rn: low, rm: mid }
    } else if op == 0b01100 {
        Instruction::OrrRdnRm { rdn: low, rm: mid }
    } else if op == 0b01101 {
        Instruction::MulRdmRn { rdm: low, rn: mid }
    } else if 0b11000 <= op && op <= 0b11011 {
        let rd = ((bits32(insn, 7, 7) << 3) | bits32(insn, 0, 2)) as u8;
        Instruction::MovRdRm { rd, rm: bits32(insn, 3, 6) as u8 }
    } else if 0b11100 <= op && op <= 0b11101 {
        let rm = bits32(insn, 3, 6) as u8;
        if low == 0 && rm != PROGRAM_COUNTER_REGISTER {
            Instruction::BxRm { rm }
        } else {
            Instruction::Unsupported
        }
    } else if 0b11110 <= op && op <= 0b11111 {
        let rm = bits32(insn, 3, 6) as u8;
        if low != 0 {
            Instruction::Unsupported
        } else if rm == PROGRAM_COUNTER_REGISTER {
            Instruction::Invalid
        } else {
            Instruction::BlxRm { rm }
        }
    } else {
        Instruction::Unsupported
    }
}

fn decode_insn_10110(insn: u32) -> (r: Instruction)
    ensures
        r == decode_group_10110(insn),
{
    let op = bits32(insn, 7, 10);
    if op == 0b0000 {
        Instruction::AddSpSpImm7 { imm: (bits32(insn, 0, 6) << 2) as u16 }
    } else if op == 0b0001 {
        Instruction::SubSpSpImm7 { imm: (bits32(insn, 0, 6) << 2) as u16 }
    } else if 0b0010 <= op && op <= 0b0011 {
        Instruction::CbzRnImm6 {
            rn: bits32(insn, 0, 2) as u8,
            imm: (bits32(insn, 3, 7) << 1) as u8,
        }
    } else if 0b0110 <= op && op <= 0b0111 {
        Instruction::CbzRnImm6 {
            rn: bits32(insn, 0, 2) as u8,
            imm: ((bits32(insn, 3, 7) | 0x20) << 1) as u8,
        }
    } else if 0b1000 <= op && op <= 0b1011 {
        Instruction::Push { registers: bits32(insn, 0, 7) as u8, lr: bits32(insn, 8, 8) != 0 }
    } else {
        Instruction::Unsupported
    }
}

fn decode_insn_10111(insn: u32) -> (r: Instruction)
    ensures
        r == decode_group_10111(insn),
{
    let op = bits32(insn, 8, 10);
    if 0b100 <= op && op <= 0b101 {
        Instruction::Pop { registers: bits32(insn, 0, 7) as u8, pc: bits32(insn, 8, 8) != 0 }
    } else if op == 0b111 {
        Instruction::It { first_cond_and_mask: bits32(insn, 0, 7) as u8 }
    } else {
        Instruction::Unsupported
    }
}

fn decode_insn_11101(insn: u32) -> (r: Instruction)
    ensures
        r == decode_group_11101(insn),
{
    if bits32(insn, 4, 10) == 0b0001101 && bits32(insn, 20, 31) == 0b111100000000 {
        let rn = bits32(insn, 0, 3) as u8;
        let rm = bits32(insn, 16, 19) as u8;
        if rn == STACK_POINTER_REGISTER || rm == STACK_POINTER_REGISTER || rm
            == PROGRAM_COUNTER_REGISTER {
            Instruction::Invalid
        } else {
            Instruction::TbbRnRm { rn, rm }
        }
    } else {
        Instruction::Unsupported
    }
}

fn decode_insn_11110_immediate(insn: u32) -> (r: Instruction)
    ensures
        r == decode_group_11110_immediate(insn),
{
    let rd = bits32(insn, 24, 27) as u8;
    let low = insn & 0b1111101111111111;
    if rd == STACK_POINTER_REGISTER || rd == PROGRAM_COUNTER_REGISTER {
        Instruction::Invalid
    } else {
        let imm4 = bits32(insn, 0, 3);
        let i = bits32(insn, 10, 10);
        let imm3 = bits32(insn, 28, 30);
        let imm8 = bits32(insn, 16, 23);
        if 0b1111001001000000 <= low && low <= 0b1111001001001111 {
            let imm16 = ((imm4 << 12) | (i << 11) | (imm3 << 8) | imm8) as u16;
            Instruction::MovwRdImm16 { rd, imm16 }
        } else if low == 0b1111001010101111 {
            let imm12 = ((i << 11) | (imm3 << 8) | imm8) as u16;
            Instruction::AdrRdMinusImm12 { rd, imm12 }
        } else if 0b1111001011000000 <= low && low <= 0b1111001011001111 {
            let imm16 = ((imm4 << 12) | (i << 11) | (imm3 << 8) | imm8) as u16;
            Instruction::MovtRdImm16 { rd, imm16 }
        } else {
            Instruction::Unsupported
        }
    }
}

fn decode_insn_11110_branch(insn: u32) -> (r: Instruction)
    ensures
        r == decode_group_11110_branch(insn),
{
    let flags = bits32(insn, 27, 30);
    if flags & 0b1010 == 0b1010 {
        let imm10 = bits32(insn, 0, 9);
        let s = bits32(insn, 10, 10);
        let imm11 = bits32(insn, 16, 26);
        let j2 = bits32(insn, 27, 27);
        let j1 = bits32(insn, 29, 29);
        let i1 = (j1 ^ s) ^ 1;
        let i2 = (j2 ^ s) ^ 1;
        proof {
            assert(s < 2 && j1 < 2 && j2 < 2 && imm10 < 0x400 && imm11 < 0x800) by (bit_vector)
                requires
                    s == bits(insn, 10, 10),
                    j1 == bits(insn, 29, 29),
                    j2 == bits(insn, 27, 27),
                    imm10 == bits(insn, 0, 9),
                    imm11 == bits(insn, 16, 26),
            ;
            assert(i1 <= 1 && i2 <= 1) by (bit_vector)
                requires
                    s < 2,
                    j1 < 2,
                    j2 < 2,
                    i1 == (j1 ^ s) ^ 1,
                    i2 == (j2 ^ s) ^ 1,
            ;
            assert(((i1 << 22) | (i2 << 21) | (imm10 << 11) | imm11) < 0x800000) by (bit_vector)
                requires
                    i1 <= 1,
                    i2 <= 1,
                    imm10 < 0x400,
                    imm11 < 0x800,
            ;
        }
        let imm24 = ((i1 << 22) | (i2 << 21) | (imm10 << 11) | imm11) << 1;
        proof {
            let x = (i1 << 22) | (i2 << 21) | (imm10 << 11) | imm11;
            assert(x < 0x800000 ==> (x << 1) <= 0xFFFFFF) by (bit_vector);
        }
        if s == 0 {
            Instruction::BlPlusImm24 { imm16: imm24 as u16, imm8: (imm24 >> 16) as u8 }
        } else {
            let negated = 0xFFFFFF - imm24;
            Instruction::BlMinusImm24 { imm16: negated as u16, imm8: (negated >> 16) as u8 }
        }
    } else if flags & 0b1110 == 0 {
        let reg = bits32(insn, 16, 23) as u8;
        let rd = bits32(insn, 24, 27) as u8;
        if insn & 0xFFFF == 0b1111001111101111 {
            if rd == STACK_POINTER_REGISTER || rd == PROGRAM_COUNTER_REGISTER {
                Instruction::Invalid
            } else if reg <= LAST_PROGRAM_STATUS_SPECIAL_REGISTER {
                Instruction::Unsupported
            } else {
                Instruction::MrsRdReg { rd, reg }
            }
        } else if insn & 0b1111111111110000 == 0b1111001110000000 && rd == 8 {
            let rn = bits32(insn, 0, 3) as u8;
            if rn == STACK_POINTER_REGISTER || rn == PROGRAM_COUNTER_REGISTER {
                Instruction::Invalid
            } else if reg <= LAST_PROGRAM_STATUS_SPECIAL_REGISTER {
                Instruction::Unsupported
            } else {
                Instruction::MsrRegRn { rn, reg }
            }
        } else {
            Instruction::Unsupported
        }
    } else {
        Instruction::Unsupported
    }
}

fn decode_insn_11111(insn: u32) -> (r: Instruction)
    ensures
        r == decode_group_11111(insn),
{
    if bits32(insn, 4, 10) == 0b0111011 && bits32(insn, 20, 23) == 0b1111 && bits32(insn, 28, 31)
        == 0b1111 {
        let rn = bits32(insn, 0, 3) as u8;
        let rm = bits32(insn, 16, 19) as u8;
        let rd = bits32(insn, 24, 27) as u8;
        if rn == STACK_POINTER_REGISTER || rn == PROGRAM_COUNTER_REGISTER || rm
            == STACK_POINTER_REGISTER || rm == PROGRAM_COUNTER_REGISTER || rd
            == STACK_POINTER_REGISTER || rd == PROGRAM_COUNTER_REGISTER {
            Instruction::Invalid
        } else {
            Instruction::UdivRdRnRm { rd, rn, rm }
        }
    } else {
        Instruction::Unsupported
    }
}

/// Decodes the Thumb instruction `insn` (see `decode`).
pub fn decode_insn(insn: u32) -> (r: Instruction)
    ensures
        r == decode(insn),
{
    let op = bits32(insn, 11, 15);
    let r0 = bits32(insn, 0, 2) as u8;
    let r3 = bits32(insn, 3, 5) as u8;
    let r8 = bits32(insn, 8, 10) as u8;
    let imm5 = bits32(insn, 6, 10) as u8;
    let imm8 = bits32(insn, 0, 7) as u8;
    if op == 0b00000 {
        if imm5 == 0 {
            Instruction::Unsupported
        } else {
            Instruction::LslRdRmImm5 { rd: r0, rm: r3, imm5 }
        }
    } else if op == 0b00001 {
        Instruction::LsrRdRmImm5 {
            rd: r0,
            rm: r3,
            imm: if imm5 == 0 {
                32
            } else {
                imm5
            },
        }
    } else if op == 0b00011 {
        let sub_op = bits32(insn, 9, 10);
        let r6 = bits32(insn, 6, 8) as u8;
        if sub_op == 0 {
            Instruction::AddRdRnRm { rd: r0, rn: r3, rm: r6 }
        } else if sub_op == 1 {
            Instruction::SubRdRnRm { rd: r0, rn: r3, rm: r6 }
        } else {
            Instruction::Unsupported
        }
    } else if op == 0b00100 {
        Instruction::MovRdImm8 { rd: r8, imm8 }
    } else if op == 0b00101 {
        Instruction::CmpRnImm8 { rn: r8, imm8 }
    } else if op == 0b00110 {
        Instruction::AddRdnImm8 { rdn: r8, imm8 }
    } else if op == 0b00111 {
        Instruction::SubRdnImm8 { rdn: r8, imm8 }
    } else if op == 0b01000 {
        decode_insn_01000(insn)
    } else if op == 0b01001 {
        Instruction::LdrRtPcImm8 { rt: r8, imm: (bits32(insn, 0, 7) << 2) as u16 }
    } else if op == 0b01100 {
        Instruction::StrRtRnImm5 { rt: r0, rn: r3, imm: (bits32(insn, 6, 10) << 2) as u8 }
    } else if op == 0b01101 {
        Instruction::LdrRtRnImm5 { rt: r0, rn: r3, imm: (bits32(insn, 6, 10) << 2) as u8 }
    } else if op == 0b01110 {
        Instruction::StrbRtRnImm5 { rt: r0, rn: r3, imm5 }
    } else if op == 0b01111 {
        Instruction::LdrbRtRnImm5 { rt: r0, rn: r3, imm5 }
    } else if op == 0b10000 {
        Instruction::StrhRtRnImm5 { rt: r0, rn: r3, imm: (bits32(insn, 6, 10) << 1) as u8 }
    } else if op == 0b10001 {
        Instruction::LdrhRtRnImm5 { rt: r0, rn: r3, imm: (bits32(insn, 6, 10) << 1) as u8 }
    } else if op == 0b10010 {
        Instruction::StrRtSpImm8 { rt: r8, imm: (bits32(insn, 0, 7) << 2) as u16 }
    } else if op == 0b10011 {
        Instruction::LdrRtSpImm8 { rt: r8, imm: (bits32(insn, 0, 7) << 2) as u16 }
    } else if op == 0b10101 {
        Instruction::AddRdSpImm8 { rd: r8, imm: (bits32(insn, 0, 7) << 2) as u16 }
    } else if op == 0b10110 {
        decode_insn_10110(insn)
    } else if op == 0b10111 {
        decode_insn_10111(insn)
    } else if op == 0b11011 {
        if bits32(insn, 8, 10) == 0b111 {
            Instruction::SvcImm8 { imm8 }
        } else {
            Instruction::Unsupported
        }
    } else if op == 0b11100 {
        let offset = (bits32(insn, 0, 10) << 1) as u16;
        let imm = if offset & 0x800 != 0 {
            (offset as i32 - 0x1000) as i16
        } else {
            offset as i16
        };
        Instruction::BImm11 { imm }
    } else if op == 0b11101 {
        decode_insn_11101(insn)
    } else if op == 0b11110 {
        if bits32(insn, 31, 31) == 0 {
            decode_insn_11110_immediate(insn)
        } else {
            decode_insn_11110_branch(insn)
        }
    } else if op == 0b11111 {
        decode_insn_11111(insn)
    } else {
        Instruction::Unsupported
    }
}

} // verus!
