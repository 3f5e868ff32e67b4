use emulator::arm::{decode_insn, is32bit_insn};
use emulator::arm::Instruction::{AddRdnImm8, AddRdRnRm, AddRdSpImm8, AddSpSpImm7, AdrRdMinusImm12, AndRdnRm, BImm11, BlPlusImm24, BlMinusImm24, BlxRm, BxRm, CbzRnImm6, CmpRnImm8, CmpRnRm, It, LdrbRtRnImm5, LdrhRtRnImm5, LdrRtPcImm8, LdrRtRnImm5, LdrRtSpImm8, LslRdnRm, LslRdRmImm5, LsrRdnRm, LsrRdRmImm5, MovRdImm8, MovRdRm, MovtRdImm16, MovwRdImm16, MrsRdReg, MsrRegRn, MulRdmRn, OrrRdnRm, Pop, Push, StrbRtRnImm5, StrhRtRnImm5, StrRtRnImm5, StrRtSpImm8, SubRdnImm8, SubRdRnRm, SubSpSpImm7, SvcImm8, TbbRnRm, UdivRdRnRm, Unsupported, Invalid};

type BitPattern = str;

fn sign_extend16(value: u16, num_bits: u16) -> i16 {
    ((value << (16 - num_bits)) as i16) >> (16 - num_bits)
}

type BitValues = u32;

fn value(pattern: &BitPattern, values: BitValues) -> u32 {
    let mut result = 0;
    for c in pattern.chars() {
        result = match c {
            '_' => result,
            '0' => result << 1,
            '1' => (result << 1) | 1,
            'a'..='z' => (result << 1) | (values >> (c as u32 - 'a' as u32)) & 1,
            'A'..='Z' => (result << 1) | !(values >> (c as u32 - 'A' as u32)) & 1,
            _ => panic!("Unsupported bit pattern character '{}'", c),
        }
    }
    result
}

fn value16(pattern: &BitPattern, values: BitValues) -> u16 {
    value(pattern, values) as u16
}

fn value8(pattern: &BitPattern, values: BitValues) -> u8 {
    value(pattern, values) as u8
}

fn test_cases(pattern: &BitPattern) -> Vec<BitValues> {
    let num_bits = value(pattern.replace('1', "0").as_str(), 0xFFFFFFFF).count_ones();
    let mut result = Vec::new();
    for i in 0..num_bits {
        result.push(1 << i);
        for j in 0..num_bits {
            if i != j {
                result.push((1 << i) | (1 << j));
            }
        }
    }
    result.push((1 << num_bits) - 1);
    result
}

#[test]
fn arm_add_rdn_imm8() {
    let insn = "00110_abc_defghijk";
    for bit_values in test_cases(insn) {
        assert_eq!(
            decode_insn(value(insn, bit_values)),
            AddRdnImm8 {
                rdn: value8("abc", bit_values),
                imm8: value8("defghijk", bit_values)
            }
        );
    }
    assert!(!is32bit_insn(value(insn, 0)));
}

#[test]
fn arm_add_rd_rn_rm() {
    let insn = "0001100_abc_def_ghi";
    for bit_values in test_cases(insn) {
        assert_eq!(
            decode_insn(value(insn, bit_values)),
            AddRdRnRm {
                rd: value8("ghi", bit_values),
                rn: value8("def", bit_values),
                rm: value8("abc", bit_values)
            }
        );
    }
    assert!(!is32bit_insn(value(insn, 0)));
}

#[test]
fn arm_add_rd_sp_imm8() {
    let insn = "10101_abc_defghijk";
    for bit_values in test_cases(insn) {
        assert_eq!(
            decode_insn(value(insn, bit_values)),
            AddRdSpImm8 {
                rd: value8("abc", bit_values),
                imm: value16("defghijk_00", bit_values)
            }
        );
    }
    assert!(!is32bit_insn(value(insn, 0)));
}

#[test]
fn arm_add_sp_sp_imm7() {
    let insn = "101100000_abcdefg";
    for bit_values in test_cases(insn) {
        assert_eq!(
            decode_insn(value(insn, bit_values)),
            AddSpSpImm7 {
                imm: value16("abcdefg_00", bit_values)
            }
        );
    }
    assert!(!is32bit_insn(value(insn, 0)));
}

#[test]
fn arm_adr_rd_minus_imm12() {
    let insn = "0_abc_defg_hijklmno_11110z1010101111";
    for bit_values in test_cases(insn) {
        let rd = value8("defg", bit_values);
        assert_eq!(
            decode_insn(value(insn, bit_values)),
            if rd == 13 || rd == 15 {
                Invalid
            } else {
                AdrRdMinusImm12 {
                    rd,
                    imm12: value16("z_abc_hijklmno", bit_values),
                }
            }
        );
    }
    assert!(is32bit_insn(value(insn, 0)));
}

#[test]
fn arm_and_rdn_rm() {
    let insn = "0100000000_abc_def";
    for bit_values in test_cases(insn) {
        assert_eq!(
            decode_insn(value(insn, bit_values)),
            AndRdnRm {
                rdn: value8("def", bit_values),
                rm: value8("abc", bit_values)
            }
        );
    }
    assert!(!is32bit_insn(value(insn, 0)));
}

#[test]
fn arm_b_imm11() {
    let insn = "11100_abcdefghijk";
    for bit_values in test_cases(insn) {
        assert_eq!(
            decode_insn(value(insn, bit_values)),
            BImm11 {
                imm: sign_extend16(value16("abcdefghijk_0", bit_values), 12),
            }
        );
    }
    assert!(!is32bit_insn(value(insn, 0)));
}

#[test]
fn arm_bl_plus_imm24() {
    let insn = "11_a_1_b_cdefghijklm_111100_nopqrstuvw";
    for bit_values in test_cases(insn) {
        let imm = value("A_B_nopqrstuvw_cdefghijklm_0", bit_values);
        assert_eq!(
            decode_insn(value(insn, bit_values)),
            BlPlusImm24 {
                imm16: imm as u16,
                imm8: (imm >> 16) as u8,
            }
        );
    }
    assert!(is32bit_insn(value(insn, 0)));
}

#[test]
fn arm_bl_minus_imm24() {
    let insn = "11_a_1_b_cdefghijklm_111101_nopqrstuvw";
    for bit_values in test_cases(insn) {
        let signed_imm = value("11111111_a_b_nopqrstuvw_cdefghijklm_0", bit_values) as i32;
        let imm = (-signed_imm - 1) as u32;
        assert_eq!(
            decode_insn(value(insn, bit_values)),
            BlMinusImm24 {
                imm16: imm as u16,
                imm8: (imm >> 16) as u8,
            }
        );
    }
    assert!(is32bit_insn(value(insn, 0)));
}

#[test]
fn arm_blx_rm() {
    let insn = "010001111_abcd_000";
    for bit_values in test_cases(insn) {
        let rm = value8("abcd", bit_values);
        assert_eq!(
            decode_insn(value(insn, bit_values)),
            if rm == 15 { Invalid } else { BlxRm { rm } }
        );
    }
    let invalid_insn = "0100011110000abc";
    for bit_values in test_cases(invalid_insn) {
        assert_eq!(decode_insn(value(invalid_insn, bit_values)), Unsupported);
    }
    assert!(!is32bit_insn(value(insn, 0)));
}

#[test]
fn arm_bx_rm() {
    let insn = "010001110_abcd_000";
    for bit_values in test_cases(insn) {
        let rm = value8("abcd", bit_values);
        assert_eq!(
            decode_insn(value(insn, bit_values)),
            if rm == 15 { Unsupported } else { BxRm { rm } }
        );
    }
    let invalid_insn = "0100011100000abc";
    for bit_values in test_cases(invalid_insn) {
        assert_eq!(decode_insn(value(invalid_insn, bit_values)), Unsupported);
    }
    assert!(!is32bit_insn(value(insn, 0)));
}

#[test]
fn cbz_rm_imm6() {
    let insn = "101100_i_1_abcde_fgh";
    for bit_values in test_cases(insn) {
        assert_eq!(
            decode_insn(value(insn, bit_values)),
            CbzRnImm6 {
                rn: value8("fgh", bit_values),
                imm: value8("i_abcde_0", bit_values),
            }
        );
    }
    assert!(!is32bit_insn(value(insn, 0)));
}

#[test]
fn arm_cmp_rn_imm8() {
    let insn = "00101_abc_defghijk";
    for bit_values in test_cases(insn) {
        assert_eq!(
            decode_insn(value(insn, bit_values)),
            CmpRnImm8 {
                rn: value8("abc", bit_values),
                imm8: value8("defghijk", bit_values),
            }
        );
    }
    assert!(!is32bit_insn(value(insn, 0)));
}

#[test]
fn arm_cmp_rn_rm() {
    let insn = "0100001010_abc_def";
    for bit_values in test_cases(insn) {
        assert_eq!(
            decode_insn(value(insn, bit_values)),
            CmpRnRm {
                rn: value8("def", bit_values),
                rm: value8("abc", bit_values),
            }
        );
    }
    assert!(!is32bit_insn(value(insn, 0)));
}

#[test]
fn arm_it() {
    let insn = "10111111_abcd_efgh";
    for bit_values in test_cases(insn) {
        assert_eq!(
            decode_insn(value(insn, bit_values)),
            It {
                first_cond_and_mask: value8("abcd_efgh", bit_values),
            }
        );
    }
    assert!(!is32bit_insn(value(insn, 0)));
}

#[test]
fn arm_ldrb_rt_rn_imm5() {
    let insn = "01111_abcde_fgh_ijk";
    for bit_values in test_cases(insn) {
        assert_eq!(
            decode_insn(value(insn, bit_values)),
            LdrbRtRnImm5 {
                rt: value8("ijk", bit_values),
                rn: value8("fgh", bit_values),
                imm5: value8("abcde", bit_values),
            }
        );
    }
    assert!(!is32bit_insn(value(insn, 0)));
}

#[test]
fn arm_ldrh_rt_rn_imm5() {
    let insn = "10001_abcde_fgh_ijk";
    for bit_values in test_cases(insn) {
        assert_eq!(
            decode_insn(value(insn, bit_values)),
            LdrhRtRnImm5 {
                rt: value8("ijk", bit_values),
                rn: value8("fgh", bit_values),
                imm: value8("abcde_0", bit_values),
            }
        );
    }
    assert!(!is32bit_insn(value(insn, 0)));
}

#[test]
fn arm_ldr_rt_pc_imm8() {
    let insn = "01001_abc_defghijk";
    for bit_values in test_cases(insn) {
        assert_eq!(
            decode_insn(value(insn, bit_values)),
            LdrRtPcImm8 {
                rt: value8("abc", bit_values),
                imm: value16("defghijk_00", bit_values),
            }
        );
    }
    assert!(!is32bit_insn(value(insn, 0)));
}

#[test]
fn arm_ldr_rt_rn_imm5() {
    let insn = "01101_abcde_fgh_ijk";
    for bit_values in test_cases(insn) {
        assert_eq!(
            decode_insn(value(insn, bit_values)),
            LdrRtRnImm5 {
                rt: value8("ijk", bit_values),
                rn: value8("fgh", bit_values),
                imm: value8("abcde_00", bit_values),
            }
        );
    }
    assert!(!is32bit_insn(value(insn, 0)));
}

#[test]
fn arm_ldr_rt_sp_imm8() {
    let insn = "10011_abc_efghijkl";
    for bit_values in test_cases(insn) {
        assert_eq!(
            decode_insn(value(insn, bit_values)),
            LdrRtSpImm8 {
                rt: value8("abc", bit_values),
                imm: value16("efghijkl_00", bit_values),
            }
        );
    }
    assert!(!is32bit_insn(value(insn, 0)));
}

#[test]
fn arm_lsl_rdn_rm() {
    let insn = "0100000010_abc_def";
    for bit_values in test_cases(insn) {
        assert_eq!(
            decode_insn(value(insn, bit_values)),
            LslRdnRm {
                rdn: value8("def", bit_values),
                rm: value8("abc", bit_values),
            }
        );
    }
    assert!(!is32bit_insn(value(insn, 0)));
}

#[test]
fn arm_lsl_rd_rm_imm5() {
    let insn = "00000_abcde_fgh_ijk";
    for bit_values in test_cases(insn) {
        if value8("abcde", bit_values) == 0 {
            assert_eq!(decode_insn(value(insn, bit_values)), Unsupported);
        } else {
            assert_eq!(
                decode_insn(value(insn, bit_values)),
                LslRdRmImm5 {
                    rd: value8("ijk", bit_values),
                    rm: value8("fgh", bit_values),
                    imm5: value8("abcde", bit_values),
                }
            );
        }
    }
    assert!(!is32bit_insn(value(insn, 0)));
}

#[test]
fn arm_lsr_rdn_rm() {
    let insn = "0100000011_abc_def";
    for bit_values in test_cases(insn) {
        assert_eq!(
            decode_insn(value(insn, bit_values)),
            LsrRdnRm {
                rdn: value8("def", bit_values),
                rm: value8("abc", bit_values),
            }
        );
    }
    assert!(!is32bit_insn(value(insn, 0)));
}

#[test]
fn arm_lsr_rd_rm_imm5() {
    let insn = "00001_abcde_fgh_ijk";
    for bit_values in test_cases(insn) {
        let imm5 = value8("abcde", bit_values);
        assert_eq!(
            decode_insn(value(insn, bit_values)),
            LsrRdRmImm5 {
                rd: value8("ijk", bit_values),
                rm: value8("fgh", bit_values),
                imm: if imm5 == 0 { 32 } else { imm5 },
            }
        );
    }
    assert!(!is32bit_insn(value(insn, 0)));
}

#[test]
fn arm_mov_rd_imm8() {
    let insn = "00100_abc_defghijk";
    for bit_values in test_cases(insn) {
        assert_eq!(
            decode_insn(value(insn, bit_values)),
            MovRdImm8 {
                rd: value8("abc", bit_values),
                imm8: value8("defghijk", bit_values),
            }
        );
    }
    assert!(!is32bit_insn(value(insn, 0)));
}

#[test]
fn arm_mov_rd_rm() {
    let insn = "01000110_a_bcde_fgh";
    for bit_values in test_cases(insn) {
        assert_eq!(
            decode_insn(value(insn, bit_values)),
            MovRdRm {
                rd: value8("a_fgh", bit_values),
                rm: value8("bcde", bit_values),
            }
        );
    }
    assert!(!is32bit_insn(value(insn, 0)));
}

#[test]
fn arm_movt_rd_imm16() {
    let insn = "0_abc_defg_hijklmno_11110_p_101100_qrst";
    for bit_values in test_cases(insn) {
        let rd = value8("defg", bit_values);
        assert_eq!(
            decode_insn(value(insn, bit_values)),
            if rd == 13 || rd == 15 {
                Invalid
            } else {
                MovtRdImm16 {
                    rd,
                    imm16: value16("qrst_p_abc_hijklmno", bit_values),
                }
            }
        );
    }
    assert!(is32bit_insn(value(insn, 0)));
}

#[test]
fn arm_movw_rd_imm16() {
    let insn = "0_abc_defg_hijklmno_11110_p_100100_qrst";
    for bit_values in test_cases(insn) {
        let rd = value8("defg", bit_values);
        assert_eq!(
            decode_insn(value(insn, bit_values)),
            if rd == 13 || rd == 15 {
                Invalid
            } else {
                MovwRdImm16 {
                    rd,
                    imm16: value16("qrst_p_abc_hijklmno", bit_values),
                }
            }
        );
    }
    assert!(is32bit_insn(value(insn, 0)));
}

#[test]
fn mrs_rd_reg() {
    let insn = "1000_abcd_efghijkl_1111001111101111";
    for bit_values in test_cases(insn) {
        let rd = value8("abcd", bit_values);
        let reg = value8("efghijkl", bit_values);
        assert_eq!(
            decode_insn(value(insn, bit_values)),
            if rd == 13 || rd == 15 {
                Invalid
            } else if reg <= 7 {
                Unsupported
            } else {
                MrsRdReg { rd, reg }
            }
        );
    }
    assert!(is32bit_insn(value(insn, 0)));
}

#[test]
fn msr_reg_rn() {
    let insn = "10001000_abcdefgh_111100111000_ijkl";
    for bit_values in test_cases(insn) {
        let rn = value8("ijkl", bit_values);
        let reg = value8("abcdefgh", bit_values);
        assert_eq!(
            decode_insn(value(insn, bit_values)),
            if rn == 13 || rn == 15 {
                Invalid
            } else if reg <= 7 {
                Unsupported
            } else {
                MsrRegRn { rn, reg }
            }
        );
    }
    assert!(is32bit_insn(value(insn, 0)));
}

#[test]
fn arm_mul_rdm_rn() {
    let insn = "0100001101_abc_def";
    for bit_values in test_cases(insn) {
        assert_eq!(
            decode_insn(value(insn, bit_values)),
            MulRdmRn {
                rdm: value8("def", bit_values),
                rn: value8("abc", bit_values),
            }
        );
    }
    assert!(!is32bit_insn(value(insn, 0)));
}

#[test]
fn arm_orr_rdn_rm() {
    let insn = "0100001100_abc_def";
    for bit_values in test_cases(insn) {
        assert_eq!(
            decode_insn(value(insn, bit_values)),
            OrrRdnRm {
                rdn: value8("def", bit_values),
                rm: value8("abc", bit_values),
            }
        );
    }
    assert!(!is32bit_insn(value(insn, 0)));
}

#[test]
fn pop() {
    let insn = "1011110_a_bcdefghi";
    for bit_values in test_cases(insn) {
        assert_eq!(
            decode_insn(value(insn, bit_values)),
            Pop {
                registers: value8("bcdefghi", bit_values),
                pc: value8("a", bit_values) == 1,
            }
        );
    }
    assert!(!is32bit_insn(value(insn, 0)));
}

#[test]
fn arm_push() {
    let insn = "1011010_a_bcdefghi";
    for bit_values in test_cases(insn) {
        assert_eq!(
            decode_insn(value(insn, bit_values)),
            Push {
                registers: value8("bcdefghi", bit_values),
                lr: value8("a", bit_values) == 1,
            }
        );
    }
    assert!(!is32bit_insn(value(insn, 0)));
}

#[test]
fn arm_strb_rt_rn_imm5() {
    let insn = "01110_abcde_fgh_ijk";
    for bit_values in test_cases(insn) {
        assert_eq!(
            decode_insn(value(insn, bit_values)),
            StrbRtRnImm5 {
                rt: value8("ijk", bit_values),
                rn: value8("fgh", bit_values),
                imm5: value8("abcde", bit_values),
            }
        );
    }
    assert!(!is32bit_insn(value(insn, 0)));
}

#[test]
fn arm_strh_rt_rn_imm5() {
    let insn = "10000_abcde_fgh_ijk";
    for bit_values in test_cases(insn) {
        assert_eq!(
            decode_insn(value(insn, bit_values)),
            StrhRtRnImm5 {
                rt: value8("ijk", bit_values),
                rn: value8("fgh", bit_values),
                imm: value8("abcde_0", bit_values),
            }
        );
    }
    assert!(!is32bit_insn(value(insn, 0)));
}

#[test]
fn arm_str_rt_rn_imm5() {
    let insn = "01100_abcde_fgh_ijk";
    for bit_values in test_cases(insn) {
        assert_eq!(
            decode_insn(value(insn, bit_values)),
            StrRtRnImm5 {
                rt: value8("ijk", bit_values),
                rn: value8("fgh", bit_values),
                imm: value8("abcde_00", bit_values),
            }
        );
    }
    assert!(!is32bit_insn(value(insn, 0)));
}

#[test]
fn arm_str_rt_sp_imm8() {
    let insn = "10010_abc_efghijkl";
    for bit_values in test_cases(insn) {
        assert_eq!(
            decode_insn(value(insn, bit_values)),
            StrRtSpImm8 {
                rt: value8("abc", bit_values),
                imm: value16("efghijkl_00", bit_values),
            }
        );
    }
    assert!(!is32bit_insn(value(insn, 0)));
}

#[test]
fn arm_sub_rdn_imm8() {
    let insn = "00111_abc_defghijk";
    for bit_values in test_cases(insn) {
        assert_eq!(
            decode_insn(value(insn, bit_values)),
            SubRdnImm8 {
                rdn: value8("abc", bit_values),
                imm8: value8("defghijk", bit_values)
            }
        );
    }
    assert!(!is32bit_insn(value(insn, 0)));
}

#[test]
fn arm_sub_rd_rn_rm() {
    let insn = "0001101_abc_def_ghi";
    for bit_values in test_cases(insn) {
        assert_eq!(
            decode_insn(value(insn, bit_values)),
            SubRdRnRm {
                rd: value8("ghi", bit_values),
                rn: value8("def", bit_values),
                rm: value8("abc", bit_values)
            }
        );
    }
    assert!(!is32bit_insn(value(insn, 0)));
}

#[test]
fn arm_sub_sp_sp_imm7() {
    let insn = "101100001_abcdefg";
    for bit_values in test_cases(insn) {
        assert_eq!(
            decode_insn(value(insn, bit_values)),
            SubSpSpImm7 {
                imm: value16("abcdefg_00", bit_values)
            }
        );
    }
    assert!(!is32bit_insn(value(insn, 0)));
}

#[test]
fn svc_imm8() {
    let insn = "11011111_abcdefgh";
    for bit_values in test_cases(insn) {
        assert_eq!(
            decode_insn(value(insn, bit_values)),
            SvcImm8 {
                imm8: value8("abcdefgh", bit_values)
            }
        );
    }
    assert!(!is32bit_insn(value(insn, 0)));
}

#[test]
fn arm_tbb_rn_rm() {
    let insn = "111100000000_abcd_111010001101_efgh";
    for bit_values in test_cases(insn) {
        let rn = value8("efgh", bit_values);
        let rm = value8("abcd", bit_values);
        assert_eq!(
            decode_insn(value(insn, bit_values)),
            if rn == 13 || rm == 13 || rm == 15 {
                Invalid
            } else {
                TbbRnRm { rn, rm }
            }
        );
    }
    let invalid_insn = "ABCDefghijkl_0000_111010001101_0000";
    for bit_values in test_cases(invalid_insn) {
        assert_eq!(decode_insn(value(invalid_insn, bit_values)), Unsupported);
    }
    assert!(is32bit_insn(value(insn, 0)));
}

#[test]
fn arm_udiv_rd_rn_rm() {
    let insn = "1111_abcd_1111_efgh_111110111011_ijkl";
    for bit_values in test_cases(insn) {
        let rd = value8("abcd", bit_values);
        let rn = value8("ijkl", bit_values);
        let rm = value8("efgh", bit_values);
        assert_eq!(
            decode_insn(value(insn, bit_values)),
            if rd == 13 || rd == 15 || rn == 13 || rn == 15 || rm == 13 || rm == 15 {
                Invalid
            } else {
                UdivRdRnRm { rd, rn, rm }
            }
        );
    }
    let invalid_insn = "ABCD_0000_1111_0000_111110111011_0000";
    for bit_values in test_cases("abcd_0000_1111_0000_111110111011_0000") {
        assert_eq!(decode_insn(value(invalid_insn, bit_values)), Unsupported);
    }
    assert!(is32bit_insn(value(insn, 0)));
}

#[test]
#[allow(clippy::unusual_byte_groupings)]
fn unsupported() {
    assert_eq!(decode_insn(0b00011_10_000000000), Unsupported);
    assert_eq!(decode_insn(0b01000_00001_000000), Unsupported);
    assert_eq!(decode_insn(0b10110_0100_0000000), Unsupported);
    assert_eq!(decode_insn(0b10111_000_00000000), Unsupported);
    assert_eq!(
        decode_insn(0b0000000000000000_11110_000_00000000),
        Unsupported
    );
    assert_eq!(
        decode_insn(0b1000000000000000_11110_000_00000000),
        Unsupported
    );
    assert_eq!(
        decode_insn(0b0000000000000000_11111_000_00000000),
        Unsupported
    );
}
