use emulator::chip::MicroController;
use emulator::arm::decode_insn;
use emulator::arm::Instruction::{AddRdnImm8, AddRdRnRm, AddRdSpImm8, AddSpSpImm7, AdrRdMinusImm12, AndRdnRm, BImm11, BlPlusImm24, BlMinusImm24, BlxRm, BxRm, CbzRnImm6, CmpRnImm8, CmpRnRm, It, LdrbRtRnImm5, LdrhRtRnImm5, LdrRtPcImm8, LdrRtRnImm5, LdrRtSpImm8, LslRdnRm, LslRdRmImm5, LsrRdnRm, LsrRdRmImm5, MovRdImm8, MovRdRm, MovtRdImm16, MovwRdImm16, MulRdmRn, OrrRdnRm, Pop, Push, StrbRtRnImm5, StrhRtRnImm5, StrRtRnImm5, StrRtSpImm8, SubRdnImm8, SubRdRnRm, SubSpSpImm7, TbbRnRm, UdivRdRnRm};
use emulator::bus::{RAM0_BEGIN, RAM0_BYTES, RAM0_END};
use emulator::cpu::Comparison::{Equal, Greater, Less};
use emulator::cpu::{LINK_REGISTER, STACK_POINTER};
use emulator::pio::{Controller, EmptyPioDevice};
use emulator::spi::EmptySpiDevice;
use emulator::gpu::GraphicsCard;

#[test]
fn set_serial_input_write_word() {
    let mut micro_controller = MicroController::default();

    micro_controller.set_serial_input("W20080000,12345678#").unwrap();

    assert_eq!(micro_controller.bus_matrix.get32(0x20080000).unwrap(), 0x12345678);
}

#[test]
fn set_serial_input_go_return_with_pop() {
    let mut micro_controller = MicroController::default();

    micro_controller.set_serial_input("W20080000,0#").unwrap(); // Unused (initial stack).
    micro_controller.set_serial_input("W20080004,20080009#").unwrap(); // Real start address.
    micro_controller.set_serial_input("W20080008,317BB500#").unwrap(); // PUSH LR, ADD Rdn=1 123.
    micro_controller.set_serial_input("W2008000C,0000BD00#").unwrap(); // POP PC.
    micro_controller.set_serial_input("G20080000#").unwrap();

    assert_eq!(micro_controller.registers[1], 123);
}

#[test]
fn set_serial_input_go_return_with_bx_rm() {
    let mut micro_controller = MicroController::default();

    micro_controller.set_serial_input("W20080000,0#").unwrap(); // Unused (initial stack).
    micro_controller.set_serial_input("W20080004,20080009#").unwrap(); // Real start address.
    micro_controller.set_serial_input("W20080008,4770317B#").unwrap(); // ADD Rdn=1 123, BX LR.
    micro_controller.set_serial_input("G20080000#").unwrap();

    assert_eq!(micro_controller.registers[1], 123);
}

#[test]
fn set_serial_input_reset() {
    let mut micro_controller = MicroController::default();

    micro_controller.set_serial_input("W20080000,12345678#").unwrap();
    micro_controller.set_serial_input("W400E1A00,A500000D#").unwrap(); // Reset.

    assert_ne!(micro_controller.bus_matrix.get32(0x20080000).unwrap(), 0x12345678);
}

#[test]
fn set_serial_input_run_from_flash() {
    let mut micro_controller = MicroController::default();
    micro_controller.reset();
    micro_controller.run_from_flash = true;

    micro_controller.set_serial_input("W20080000,12345678#").unwrap();

    assert_ne!(micro_controller.bus_matrix.get32(0x20080000).unwrap(), 0x12345678);
}

#[test]
fn get_serial_output() {
    let mut micro_controller = MicroController::default();

    micro_controller.set_serial_input("w10,#").unwrap();
    let output = micro_controller.get_serial_output();

    assert_eq!(output, "0x001000C7\n>");
}

#[test]
fn get_serial_output_run_from_flash() {
    let mut micro_controller = MicroController::default();

    micro_controller.set_serial_input("w0,#").unwrap();
    micro_controller.run_from_flash = true;
    let output = micro_controller.get_serial_output();

    assert_eq!(output, "");
}

#[test]
fn chip_get_set_spi_device() {
    let mut micro_controller =
        MicroController::with_devices(0, false, GraphicsCard::default(), EmptyPioDevice::new());
    let gpu = GraphicsCard { current_register: 0x42, ..Default::default() };

    micro_controller.set_spi_device(gpu);

    assert_eq!(micro_controller.get_spi_device().current_register, 0x42);
}

#[test]
fn get_set_pi_device() {
    let mut micro_controller =
        MicroController::with_devices(0, false, EmptySpiDevice::new(), GraphicsCard::default());
    let gpu = GraphicsCard { current_register: 0x42, ..Default::default() };

    micro_controller.set_pio_device(gpu);

    assert_eq!(micro_controller.get_pio_device().current_register, 0x42);
}

#[test]
fn chip_add_rdn_imm8() {
    let mut micro_controller = MicroController::default();
    micro_controller
        .bus_matrix
        .set32(RAM0_BEGIN, 0b00110_010_00001111).unwrap();
    micro_controller.registers[2] = u32::MAX - 4;
    micro_controller.program_counter = RAM0_BEGIN;

    micro_controller.emulate_one_insn().unwrap();

    assert_eq!(
        micro_controller.bus_matrix.get_insn(RAM0_BEGIN).unwrap(),
        AddRdnImm8 { rdn: 2, imm8: 15 }
    );
    assert_eq!(micro_controller.registers[2], 15 - 4 - 1);
    assert_eq!(micro_controller.program_counter, RAM0_BEGIN + 2);
}

#[test]
fn chip_add_rd_rn_rm() {
    let mut micro_controller = MicroController::default();
    micro_controller
        .bus_matrix
        .set32(RAM0_BEGIN, 0b0001100_111_110_001).unwrap();
    micro_controller.registers[1] = 1;
    micro_controller.registers[6] = u32::MAX - 4;
    micro_controller.registers[7] = 15;
    micro_controller.program_counter = RAM0_BEGIN;

    micro_controller.emulate_one_insn().unwrap();

    assert_eq!(
        micro_controller.bus_matrix.get_insn(RAM0_BEGIN).unwrap(),
        AddRdRnRm {
            rd: 1,
            rn: 6,
            rm: 7
        }
    );
    assert_eq!(micro_controller.registers[1], 15 - 4 - 1);
    assert_eq!(micro_controller.registers[6], u32::MAX - 4);
    assert_eq!(micro_controller.registers[7], 15);
    assert_eq!(micro_controller.program_counter, RAM0_BEGIN + 2);
}

#[test]
fn chip_add_rd_sp_imm8() {
    let mut micro_controller = MicroController::default();
    micro_controller
        .bus_matrix
        .set32(RAM0_BEGIN, 0b10101_001_00000011).unwrap();
    micro_controller.registers[STACK_POINTER] = RAM0_END;
    micro_controller.program_counter = RAM0_BEGIN;

    micro_controller.emulate_one_insn().unwrap();

    assert_eq!(
        micro_controller.bus_matrix.get_insn(RAM0_BEGIN).unwrap(),
        AddRdSpImm8 { rd: 1, imm: 12 }
    );
    assert_eq!(micro_controller.registers[1], RAM0_END + 12);
    assert_eq!(micro_controller.program_counter, RAM0_BEGIN + 2);
}

#[test]
fn chip_add_sp_sp_imm7() {
    let mut micro_controller = MicroController::default();
    micro_controller
        .bus_matrix
        .set32(RAM0_BEGIN, 0b101100000_0000011).unwrap();
    micro_controller.registers[STACK_POINTER] = RAM0_END;
    micro_controller.program_counter = RAM0_BEGIN;

    micro_controller.emulate_one_insn().unwrap();

    assert_eq!(
        micro_controller.bus_matrix.get_insn(RAM0_BEGIN).unwrap(),
        AddSpSpImm7 { imm: 12 }
    );
    assert_eq!(micro_controller.registers[STACK_POINTER], RAM0_END + 12);
    assert_eq!(micro_controller.program_counter, RAM0_BEGIN + 2);
}

#[test]
fn chip_adr_rd_minus_imm12() {
    let mut micro_controller = MicroController::default();
    micro_controller
        .bus_matrix
        .set32(RAM0_BEGIN + 2, 0b0_000_0001_00001111_1111001010101111).unwrap();
    micro_controller.program_counter = RAM0_BEGIN + 2;

    micro_controller.emulate_one_insn().unwrap();

    assert_eq!(
        micro_controller.bus_matrix.get_insn(RAM0_BEGIN + 2).unwrap(),
        AdrRdMinusImm12 { rd: 1, imm12: 15 }
    );
    assert_eq!(micro_controller.registers[1], RAM0_BEGIN + 4 - 15);
    assert_eq!(micro_controller.program_counter, RAM0_BEGIN + 2 + 4);
}

#[test]
fn chip_and_rdn_rm() {
    let mut micro_controller = MicroController::default();
    micro_controller
        .bus_matrix
        .set32(RAM0_BEGIN, 0b0100000000_011_001).unwrap();
    micro_controller.registers[1] = 0b1100;
    micro_controller.registers[3] = 0b0101;
    micro_controller.program_counter = RAM0_BEGIN;

    micro_controller.emulate_one_insn().unwrap();

    assert_eq!(
        micro_controller.bus_matrix.get_insn(RAM0_BEGIN).unwrap(),
        AndRdnRm { rdn: 1, rm: 3 }
    );
    assert_eq!(micro_controller.registers[1], 0b0100);
    assert_eq!(micro_controller.registers[3], 0b0101);
    assert_eq!(micro_controller.program_counter, RAM0_BEGIN + 2);
}

#[test]
fn chip_b_imm11() {
    let mut micro_controller = MicroController::default();
    micro_controller
        .bus_matrix
        .set32(RAM0_BEGIN + 2, 0b11100_11111111010).unwrap();
    micro_controller.program_counter = RAM0_BEGIN + 2;

    micro_controller.emulate_one_insn().unwrap();

    assert_eq!(
        micro_controller.bus_matrix.get_insn(RAM0_BEGIN + 2).unwrap(),
        BImm11 { imm: -12 }
    );
    assert_eq!(micro_controller.program_counter, RAM0_BEGIN + 2 + 4 - 12);
}

#[test]
fn chip_bl_plus_imm24() {
    let mut micro_controller = MicroController::default();
    micro_controller
        .bus_matrix
        .set32(RAM0_BEGIN + 2, 0b11_1_1_1_00000000110_111100_0000110000).unwrap();
    micro_controller.program_counter = RAM0_BEGIN + 2;

    micro_controller.emulate_one_insn().unwrap();

    assert_eq!(
        micro_controller.bus_matrix.get_insn(RAM0_BEGIN + 2).unwrap(),
        BlPlusImm24 { imm16: 12, imm8: 3 }
    );
    assert_eq!(
        micro_controller.registers[LINK_REGISTER],
        RAM0_BEGIN + 2 + 4 + 1
    );
    assert_eq!(
        micro_controller.program_counter,
        RAM0_BEGIN + 2 + 4 + (3 << 16) + 12
    );
}

#[test]
fn chip_bl_minus_imm24() {
    let mut micro_controller = MicroController::default();
    micro_controller
        .bus_matrix
        .set32(RAM0_BEGIN + 2, 0b11_1_1_1_11111111010_111101_1111001111).unwrap();
    micro_controller.program_counter = RAM0_BEGIN + 2;

    micro_controller.emulate_one_insn().unwrap();

    assert_eq!(
        micro_controller.bus_matrix.get_insn(RAM0_BEGIN + 2).unwrap(),
        BlMinusImm24 {
            imm16: 12 - 1,
            imm8: 3
        }
    );
    assert_eq!(
        micro_controller.registers[LINK_REGISTER],
        RAM0_BEGIN + 2 + 4 + 1
    );
    assert_eq!(
        micro_controller.program_counter,
        RAM0_BEGIN + 2 + 4 - (3 << 16) - 12
    );
}

#[test]
fn chip_blx_rm() {
    let mut micro_controller = MicroController::default();
    micro_controller
        .bus_matrix
        .set32(RAM0_BEGIN + 2, 0b010001111_0011_000).unwrap();
    micro_controller.registers[3] = 123456 | 1;
    micro_controller.program_counter = RAM0_BEGIN + 2;

    micro_controller.emulate_one_insn().unwrap();

    assert_eq!(
        micro_controller.bus_matrix.get_insn(RAM0_BEGIN + 2).unwrap(),
        BlxRm { rm: 3 }
    );
    assert_eq!(
        micro_controller.registers[LINK_REGISTER],
        RAM0_BEGIN + 2 + 2 + 1
    );
    assert_eq!(micro_controller.program_counter, 123456);
}

#[test]
fn chip_bx_rm() {
    let mut micro_controller = MicroController::default();
    micro_controller
        .bus_matrix
        .set32(RAM0_BEGIN + 2, 0b010001110_0011_000).unwrap();
    micro_controller.registers[3] = 123456 | 1;
    micro_controller.registers[LINK_REGISTER] = 1234 | 1;
    micro_controller.program_counter = RAM0_BEGIN + 2;

    micro_controller.emulate_one_insn().unwrap();

    assert_eq!(
        micro_controller.bus_matrix.get_insn(RAM0_BEGIN + 2).unwrap(),
        BxRm { rm: 3 }
    );
    assert_eq!(micro_controller.registers[LINK_REGISTER], 1234 | 1);
    assert_eq!(micro_controller.program_counter, 123456);
}

#[test]
fn cbz_rm_imm6_zero() {
    let mut micro_controller = MicroController::default();
    micro_controller
        .bus_matrix
        .set32(RAM0_BEGIN + 2, 0b101100_0_1_00110_011).unwrap();
    micro_controller.registers[3] = 0;
    micro_controller.program_counter = RAM0_BEGIN + 2;

    micro_controller.emulate_one_insn().unwrap();

    assert_eq!(
        micro_controller.bus_matrix.get_insn(RAM0_BEGIN + 2).unwrap(),
        CbzRnImm6 { rn: 3, imm: 12 }
    );
    assert_eq!(micro_controller.program_counter, RAM0_BEGIN + 2 + 4 + 12);
}

#[test]
fn cbz_rm_imm6_nonzero() {
    let mut micro_controller = MicroController::default();
    micro_controller
        .bus_matrix
        .set32(RAM0_BEGIN + 2, 0b101100_0_1_00110_011).unwrap();
    micro_controller.registers[3] = 1;
    micro_controller.program_counter = RAM0_BEGIN + 2;

    micro_controller.emulate_one_insn().unwrap();

    assert_eq!(
        micro_controller.bus_matrix.get_insn(RAM0_BEGIN + 2).unwrap(),
        CbzRnImm6 { rn: 3, imm: 12 }
    );
    assert_eq!(micro_controller.program_counter, RAM0_BEGIN + 2 + 2);
}

#[test]
fn chip_cmp_rn_imm8() {
    let mut micro_controller = MicroController::default();
    micro_controller
        .bus_matrix
        .set32(RAM0_BEGIN, 0b00101_011_00001100).unwrap();
    micro_controller.registers[3] = 11;
    micro_controller.program_counter = RAM0_BEGIN;

    micro_controller.emulate_one_insn().unwrap();

    assert_eq!(
        micro_controller.bus_matrix.get_insn(RAM0_BEGIN).unwrap(),
        CmpRnImm8 { rn: 3, imm8: 12 }
    );
    assert_eq!(micro_controller.program_counter, RAM0_BEGIN + 2);
    assert_eq!(micro_controller.last_comparison, Less);
}

#[test]
fn chip_cmp_rn_rm() {
    let mut micro_controller = MicroController::default();
    micro_controller
        .bus_matrix
        .set32(RAM0_BEGIN, 0b0100001010_111_011).unwrap();
    micro_controller.registers[3] = 11;
    micro_controller.registers[7] = 12;
    micro_controller.program_counter = RAM0_BEGIN;

    micro_controller.emulate_one_insn().unwrap();

    assert_eq!(
        micro_controller.bus_matrix.get_insn(RAM0_BEGIN).unwrap(),
        CmpRnRm { rn: 3, rm: 7 }
    );
    assert_eq!(micro_controller.program_counter, RAM0_BEGIN + 2);
    assert_eq!(micro_controller.last_comparison, Less);
}

#[test]
fn chip_it() {
    let mut micro_controller = MicroController::default();
    micro_controller
        .bus_matrix
        .set16(RAM0_BEGIN, 0b00101_000_00000000).unwrap();
    micro_controller
        .bus_matrix
        .set32(RAM0_BEGIN + 2, 0b10111111_1001_0110).unwrap();
    micro_controller.registers[3] = 11;
    micro_controller.registers[7] = 12;
    micro_controller.program_counter = RAM0_BEGIN + 2;

    micro_controller.emulate_one_insn().unwrap();

    assert_eq!(
        micro_controller.bus_matrix.get_insn(RAM0_BEGIN + 2).unwrap(),
        It {
            first_cond_and_mask: 0b1001_0110
        }
    );
    assert_eq!(micro_controller.program_counter, RAM0_BEGIN + 4);
    assert_eq!(micro_controller.if_then_state, 0b1001_0110);
}

#[test]
fn chip_ldrb_rt_rn_imm5() {
    let mut micro_controller = MicroController::default();
    micro_controller
        .bus_matrix
        .set32(RAM0_BEGIN, 0b01111_10100_111_011).unwrap();
    micro_controller.bus_matrix.set8(RAM0_BEGIN + 256 + 20, 137).unwrap();
    micro_controller.registers[7] = RAM0_BEGIN + 256;
    micro_controller.program_counter = RAM0_BEGIN;

    micro_controller.emulate_one_insn().unwrap();

    assert_eq!(
        micro_controller.bus_matrix.get_insn(RAM0_BEGIN).unwrap(),
        LdrbRtRnImm5 {
            rt: 3,
            rn: 7,
            imm5: 20
        }
    );
    assert_eq!(micro_controller.registers[3], 137);
    assert_eq!(micro_controller.program_counter, RAM0_BEGIN + 2);
}

#[test]
fn chip_ldrh_rt_rn_imm5() {
    let mut micro_controller = MicroController::default();
    micro_controller
        .bus_matrix
        .set32(RAM0_BEGIN, 0b10001_01010_111_011).unwrap();
    micro_controller
        .bus_matrix
        .set16(RAM0_BEGIN + 256 + 20, 13579).unwrap();
    micro_controller.registers[7] = RAM0_BEGIN + 256;
    micro_controller.program_counter = RAM0_BEGIN;

    micro_controller.emulate_one_insn().unwrap();

    assert_eq!(
        micro_controller.bus_matrix.get_insn(RAM0_BEGIN).unwrap(),
        LdrhRtRnImm5 {
            rt: 3,
            rn: 7,
            imm: 20
        }
    );
    assert_eq!(micro_controller.registers[3], 13579);
    assert_eq!(micro_controller.program_counter, RAM0_BEGIN + 2);
}

#[test]
fn chip_ldr_rt_pc_imm8() {
    let mut micro_controller = MicroController::default();
    micro_controller
        .bus_matrix
        .set32(RAM0_BEGIN + 2, 0b01001_011_00000101).unwrap();
    micro_controller
        .bus_matrix
        .set32(RAM0_BEGIN + 2 + 2 + 20, 123456).unwrap();
    micro_controller.program_counter = RAM0_BEGIN + 2;

    micro_controller.emulate_one_insn().unwrap();

    assert_eq!(
        micro_controller.bus_matrix.get_insn(RAM0_BEGIN + 2).unwrap(),
        LdrRtPcImm8 { rt: 3, imm: 20 }
    );
    assert_eq!(micro_controller.registers[3], 123456);
    assert_eq!(micro_controller.program_counter, RAM0_BEGIN + 2 + 2);
}

#[test]
fn chip_ldr_rt_rn_imm5() {
    let mut micro_controller = MicroController::default();
    micro_controller
        .bus_matrix
        .set32(RAM0_BEGIN, 0b01101_00101_111_011).unwrap();
    micro_controller
        .bus_matrix
        .set32(RAM0_BEGIN + 256 + 20, 123456789).unwrap();
    micro_controller.registers[7] = RAM0_BEGIN + 256;
    micro_controller.program_counter = RAM0_BEGIN;

    micro_controller.emulate_one_insn().unwrap();

    assert_eq!(
        micro_controller.bus_matrix.get_insn(RAM0_BEGIN).unwrap(),
        LdrRtRnImm5 {
            rt: 3,
            rn: 7,
            imm: 20
        }
    );
    assert_eq!(micro_controller.registers[3], 123456789);
    assert_eq!(micro_controller.program_counter, RAM0_BEGIN + 2);
}

#[test]
fn chip_ldr_rt_sp_imm8() {
    let mut micro_controller = MicroController::default();
    micro_controller
        .bus_matrix
        .set32(RAM0_BEGIN, 0b10011_011_00000101).unwrap();
    micro_controller
        .bus_matrix
        .set32(RAM0_BEGIN + 256 + 20, 123456789).unwrap();
    micro_controller.registers[STACK_POINTER] = RAM0_BEGIN + 256;
    micro_controller.program_counter = RAM0_BEGIN;

    micro_controller.emulate_one_insn().unwrap();

    assert_eq!(
        micro_controller.bus_matrix.get_insn(RAM0_BEGIN).unwrap(),
        LdrRtSpImm8 { rt: 3, imm: 20 }
    );
    assert_eq!(micro_controller.registers[3], 123456789);
    assert_eq!(micro_controller.program_counter, RAM0_BEGIN + 2);
}

#[test]
fn chip_lsl_rdn_rm() {
    let mut micro_controller = MicroController::default();
    micro_controller
        .bus_matrix
        .set32(RAM0_BEGIN, 0b0100000010_011_001).unwrap();
    micro_controller.registers[1] = 123456789;
    micro_controller.registers[3] = 0x0FF07;
    micro_controller.program_counter = RAM0_BEGIN;

    micro_controller.emulate_one_insn().unwrap();

    assert_eq!(
        micro_controller.bus_matrix.get_insn(RAM0_BEGIN).unwrap(),
        LslRdnRm { rdn: 1, rm: 3 }
    );
    assert_eq!(micro_controller.registers[1], 123456789 << 7);
    assert_eq!(micro_controller.registers[3], 0x0FF07);
    assert_eq!(micro_controller.program_counter, RAM0_BEGIN + 2);
}

#[test]
fn chip_lsl_rd_rm_imm5() {
    let mut micro_controller = MicroController::default();
    micro_controller
        .bus_matrix
        .set32(RAM0_BEGIN, 0b00000_01001_111_001).unwrap();
    micro_controller.registers[7] = 123456789;
    micro_controller.program_counter = RAM0_BEGIN;

    micro_controller.emulate_one_insn().unwrap();

    assert_eq!(
        micro_controller.bus_matrix.get_insn(RAM0_BEGIN).unwrap(),
        LslRdRmImm5 {
            rd: 1,
            rm: 7,
            imm5: 9
        }
    );
    assert_eq!(micro_controller.registers[1], 123456789 << 9);
    assert_eq!(micro_controller.registers[7], 123456789);
    assert_eq!(micro_controller.program_counter, RAM0_BEGIN + 2);
}

#[test]
fn chip_lsr_rdn_rm() {
    let mut micro_controller = MicroController::default();
    micro_controller
        .bus_matrix
        .set32(RAM0_BEGIN, 0b0100000011_011_001).unwrap();
    micro_controller.registers[1] = 123456789;
    micro_controller.registers[3] = 0x0FF07;
    micro_controller.program_counter = RAM0_BEGIN;

    micro_controller.emulate_one_insn().unwrap();

    assert_eq!(
        micro_controller.bus_matrix.get_insn(RAM0_BEGIN).unwrap(),
        LsrRdnRm { rdn: 1, rm: 3 }
    );
    assert_eq!(micro_controller.registers[1], 123456789 >> 7);
    assert_eq!(micro_controller.registers[3], 0x0FF07);
    assert_eq!(micro_controller.program_counter, RAM0_BEGIN + 2);
}

#[test]
fn chip_lsr_rd_rm_imm5() {
    let mut micro_controller = MicroController::default();
    micro_controller
        .bus_matrix
        .set32(RAM0_BEGIN, 0b00001_01001_111_001).unwrap();
    micro_controller.registers[7] = 123456789;
    micro_controller.program_counter = RAM0_BEGIN;

    micro_controller.emulate_one_insn().unwrap();

    assert_eq!(
        micro_controller.bus_matrix.get_insn(RAM0_BEGIN).unwrap(),
        LsrRdRmImm5 {
            rd: 1,
            rm: 7,
            imm: 9
        }
    );
    assert_eq!(micro_controller.registers[1], 123456789 >> 9);
    assert_eq!(micro_controller.registers[7], 123456789);
    assert_eq!(micro_controller.program_counter, RAM0_BEGIN + 2);
}

#[test]
fn lsr_rd_rm_imm5_shift32() {
    let mut micro_controller = MicroController::default();
    micro_controller
        .bus_matrix
        .set32(RAM0_BEGIN, 0b00001_00000_111_001).unwrap();
    micro_controller.registers[7] = 123456789;
    micro_controller.program_counter = RAM0_BEGIN;

    micro_controller.emulate_one_insn().unwrap();

    assert_eq!(
        micro_controller.bus_matrix.get_insn(RAM0_BEGIN).unwrap(),
        LsrRdRmImm5 {
            rd: 1,
            rm: 7,
            imm: 32
        }
    );
    assert_eq!(micro_controller.registers[1], 0);
    assert_eq!(micro_controller.registers[7], 123456789);
    assert_eq!(micro_controller.program_counter, RAM0_BEGIN + 2);
}

#[test]
fn chip_mov_rd_imm8() {
    let mut micro_controller = MicroController::default();
    micro_controller
        .bus_matrix
        .set32(RAM0_BEGIN, 0b00100_001_11101010).unwrap();
    micro_controller.registers[1] = 0xFFFFFFFF;
    micro_controller.program_counter = RAM0_BEGIN;

    micro_controller.emulate_one_insn().unwrap();

    assert_eq!(
        micro_controller.bus_matrix.get_insn(RAM0_BEGIN).unwrap(),
        MovRdImm8 { rd: 1, imm8: 234 }
    );
    assert_eq!(micro_controller.registers[1], 234);
    assert_eq!(micro_controller.program_counter, RAM0_BEGIN + 2);
}

#[test]
fn chip_mov_rd_rm() {
    let mut micro_controller = MicroController::default();
    micro_controller
        .bus_matrix
        .set32(RAM0_BEGIN, 0b01000110_0_0011_001).unwrap();
    micro_controller.registers[1] = 0xFFFFFFFF;
    micro_controller.registers[3] = 0xCAFEBABE;
    micro_controller.program_counter = RAM0_BEGIN;

    micro_controller.emulate_one_insn().unwrap();

    assert_eq!(
        micro_controller.bus_matrix.get_insn(RAM0_BEGIN).unwrap(),
        MovRdRm { rd: 1, rm: 3 }
    );
    assert_eq!(micro_controller.registers[1], 0xCAFEBABE);
    assert_eq!(micro_controller.registers[3], 0xCAFEBABE);
    assert_eq!(micro_controller.program_counter, RAM0_BEGIN + 2);
}

#[test]
fn mov_rd_rm_with_program_counter() {
    let mut micro_controller = MicroController::default();
    micro_controller
        .bus_matrix
        .set32(RAM0_BEGIN, 0b01000110_1_0011_111).unwrap();
    micro_controller.registers[3] = 0xDEADBEEF;
    micro_controller.program_counter = RAM0_BEGIN;

    micro_controller.emulate_one_insn().unwrap();

    assert_eq!(
        micro_controller.bus_matrix.get_insn(RAM0_BEGIN).unwrap(),
        MovRdRm { rd: 15, rm: 3 }
    );
    assert_eq!(micro_controller.program_counter, 0xDEADBEEE);
}

#[test]
fn chip_movt_rd_imm16() {
    let mut micro_controller = MicroController::default();
    micro_controller
        .bus_matrix
        .set32(RAM0_BEGIN, 0b0_101_0001_10110110_11110_1_101100_1100).unwrap();
    micro_controller.registers[1] = 0xCAFEBABE;
    micro_controller.program_counter = RAM0_BEGIN;

    micro_controller.emulate_one_insn().unwrap();

    assert_eq!(
        micro_controller.bus_matrix.get_insn(RAM0_BEGIN).unwrap(),
        MovtRdImm16 {
            rd: 1,
            imm16: 0b1100_1_101_10110110
        }
    );
    assert_eq!(
        micro_controller.registers[1],
        0b1100_1_101_10110110 << 16 | 0xBABE
    );
    assert_eq!(micro_controller.program_counter, RAM0_BEGIN + 4);
}

#[test]
fn chip_movw_rd_imm16() {
    let mut micro_controller = MicroController::default();
    micro_controller
        .bus_matrix
        .set32(RAM0_BEGIN, 0b0_101_0001_10110110_11110_1_100100_1100).unwrap();
    micro_controller.registers[1] = 0xFFFFFFFF;
    micro_controller.program_counter = RAM0_BEGIN;

    micro_controller.emulate_one_insn().unwrap();

    assert_eq!(
        micro_controller.bus_matrix.get_insn(RAM0_BEGIN).unwrap(),
        MovwRdImm16 {
            rd: 1,
            imm16: 0b1100_1_101_10110110
        }
    );
    assert_eq!(micro_controller.registers[1], 0b1100_1_101_10110110);
    assert_eq!(micro_controller.program_counter, RAM0_BEGIN + 4);
}

#[test]
fn chip_mul_rdm_rn() {
    let mut micro_controller = MicroController::default();
    micro_controller
        .bus_matrix
        .set32(RAM0_BEGIN, 0b0100001101_011_001).unwrap();
    micro_controller.registers[1] = 123456789;
    micro_controller.registers[3] = 257;
    micro_controller.program_counter = RAM0_BEGIN;

    micro_controller.emulate_one_insn().unwrap();

    assert_eq!(
        micro_controller.bus_matrix.get_insn(RAM0_BEGIN).unwrap(),
        MulRdmRn { rdm: 1, rn: 3 }
    );
    assert_eq!(
        micro_controller.registers[1],
        123456789u32.wrapping_mul(257)
    );
    assert_eq!(micro_controller.registers[3], 257);
    assert_eq!(micro_controller.program_counter, RAM0_BEGIN + 2);
}

#[test]
fn chip_orr_rdn_rm() {
    let mut micro_controller = MicroController::default();
    micro_controller
        .bus_matrix
        .set32(RAM0_BEGIN, 0b0100001100_011_001).unwrap();
    micro_controller.registers[1] = 0b1100;
    micro_controller.registers[3] = 0b0101;
    micro_controller.program_counter = RAM0_BEGIN;

    micro_controller.emulate_one_insn().unwrap();

    assert_eq!(
        micro_controller.bus_matrix.get_insn(RAM0_BEGIN).unwrap(),
        OrrRdnRm { rdn: 1, rm: 3 }
    );
    assert_eq!(micro_controller.registers[1], 0b1101);
    assert_eq!(micro_controller.registers[3], 0b0101);
    assert_eq!(micro_controller.program_counter, RAM0_BEGIN + 2);
}

#[test]
fn pop_registers_only() {
    let mut micro_controller = MicroController::default();
    micro_controller
        .bus_matrix
        .set32(RAM0_BEGIN, 0b1011110_0_00001010).unwrap();
    micro_controller.bus_matrix.set32(RAM0_END + 4, 5678).unwrap();
    micro_controller.bus_matrix.set32(RAM0_END, 1234).unwrap();
    micro_controller.registers[STACK_POINTER] = RAM0_END;
    micro_controller.program_counter = RAM0_BEGIN;

    micro_controller.emulate_one_insn().unwrap();

    assert_eq!(
        micro_controller.bus_matrix.get_insn(RAM0_BEGIN).unwrap(),
        Pop {
            registers: 0b1010,
            pc: false
        }
    );
    assert_eq!(micro_controller.registers[1], 1234);
    assert_eq!(micro_controller.registers[3], 5678);
    assert_eq!(micro_controller.registers[STACK_POINTER], RAM0_END + 8);
    assert_eq!(micro_controller.program_counter, RAM0_BEGIN + 2);
}

#[test]
fn pop_with_program_counter() {
    let mut micro_controller = MicroController::default();
    micro_controller
        .bus_matrix
        .set32(RAM0_BEGIN, 0b1011110_1_00001010).unwrap();
    micro_controller
        .bus_matrix
        .set32(RAM0_END + 8, 12345678 | 1).unwrap();
    micro_controller.bus_matrix.set32(RAM0_END + 4, 5678).unwrap();
    micro_controller.bus_matrix.set32(RAM0_END, 1234).unwrap();
    micro_controller.registers[STACK_POINTER] = RAM0_END;
    micro_controller.program_counter = RAM0_BEGIN;

    micro_controller.emulate_one_insn().unwrap();

    assert_eq!(
        micro_controller.bus_matrix.get_insn(RAM0_BEGIN).unwrap(),
        Pop {
            registers: 0b1010,
            pc: true
        }
    );
    assert_eq!(micro_controller.registers[1], 1234);
    assert_eq!(micro_controller.registers[3], 5678);
    assert_eq!(micro_controller.registers[STACK_POINTER], RAM0_END + 12);
    assert_eq!(micro_controller.program_counter, 12345678);
}

#[test]
fn chip_push() {
    let mut micro_controller = MicroController::default();
    micro_controller
        .bus_matrix
        .set32(RAM0_BEGIN, 0b1011010_1_00001010).unwrap();
    micro_controller.registers[1] = 1234;
    micro_controller.registers[3] = 5678;
    micro_controller.registers[LINK_REGISTER] = 12345678;
    micro_controller.registers[STACK_POINTER] = RAM0_END + 12;
    micro_controller.program_counter = RAM0_BEGIN;

    micro_controller.emulate_one_insn().unwrap();

    assert_eq!(
        micro_controller.bus_matrix.get_insn(RAM0_BEGIN).unwrap(),
        Push {
            registers: 0b1010,
            lr: true
        }
    );
    assert_eq!(micro_controller.bus_matrix.get32(RAM0_END + 8).unwrap(), 12345678);
    assert_eq!(micro_controller.bus_matrix.get32(RAM0_END + 4).unwrap(), 5678);
    assert_eq!(micro_controller.bus_matrix.get32(RAM0_END).unwrap(), 1234);
    assert_eq!(micro_controller.registers[STACK_POINTER], RAM0_END);
    assert_eq!(micro_controller.program_counter, RAM0_BEGIN + 2);
}

#[test]
fn chip_strb_rt_rn_imm5() {
    let mut micro_controller = MicroController::default();
    micro_controller
        .bus_matrix
        .set32(RAM0_BEGIN, 0b01110_10100_111_011).unwrap();
    micro_controller.registers[3] = 137;
    micro_controller.registers[7] = RAM0_BEGIN + 256;
    micro_controller.program_counter = RAM0_BEGIN;

    micro_controller.emulate_one_insn().unwrap();

    assert_eq!(
        micro_controller.bus_matrix.get_insn(RAM0_BEGIN).unwrap(),
        StrbRtRnImm5 {
            rt: 3,
            rn: 7,
            imm5: 20
        }
    );
    assert_eq!(micro_controller.bus_matrix.get8(RAM0_BEGIN + 256 + 20).unwrap(), 137);
    assert_eq!(micro_controller.program_counter, RAM0_BEGIN + 2);
}

#[test]
fn chip_strh_rt_rn_imm5() {
    let mut micro_controller = MicroController::default();
    micro_controller
        .bus_matrix
        .set32(RAM0_BEGIN, 0b10000_01010_111_011).unwrap();
    micro_controller.registers[3] = 13579;
    micro_controller.registers[7] = RAM0_BEGIN + 256;
    micro_controller.program_counter = RAM0_BEGIN;

    micro_controller.emulate_one_insn().unwrap();

    assert_eq!(
        micro_controller.bus_matrix.get_insn(RAM0_BEGIN).unwrap(),
        StrhRtRnImm5 {
            rt: 3,
            rn: 7,
            imm: 20
        }
    );
    assert_eq!(
        micro_controller.bus_matrix.get16(RAM0_BEGIN + 256 + 20).unwrap(),
        13579
    );
    assert_eq!(micro_controller.program_counter, RAM0_BEGIN + 2);
}

#[test]
fn chip_str_rt_rn_imm5() {
    let mut micro_controller = MicroController::default();
    micro_controller
        .bus_matrix
        .set32(RAM0_BEGIN, 0b01100_00101_111_011).unwrap();
    micro_controller.registers[3] = 123456789;
    micro_controller.registers[7] = RAM0_BEGIN + 256;
    micro_controller.program_counter = RAM0_BEGIN;

    micro_controller.emulate_one_insn().unwrap();

    assert_eq!(
        micro_controller.bus_matrix.get_insn(RAM0_BEGIN).unwrap(),
        StrRtRnImm5 {
            rt: 3,
            rn: 7,
            imm: 20
        }
    );
    assert_eq!(
        micro_controller.bus_matrix.get32(RAM0_BEGIN + 256 + 20).unwrap(),
        123456789
    );
    assert_eq!(micro_controller.program_counter, RAM0_BEGIN + 2);
}

#[test]
fn chip_str_rt_sp_imm8() {
    let mut micro_controller = MicroController::default();
    micro_controller
        .bus_matrix
        .set32(RAM0_BEGIN, 0b10010_011_00000101).unwrap();
    micro_controller.registers[3] = 123456789;
    micro_controller.registers[STACK_POINTER] = RAM0_BEGIN + 256;
    micro_controller.program_counter = RAM0_BEGIN;

    micro_controller.emulate_one_insn().unwrap();

    assert_eq!(
        micro_controller.bus_matrix.get_insn(RAM0_BEGIN).unwrap(),
        StrRtSpImm8 { rt: 3, imm: 20 }
    );
    assert_eq!(
        micro_controller.bus_matrix.get32(RAM0_BEGIN + 256 + 20).unwrap(),
        123456789
    );
    assert_eq!(micro_controller.program_counter, RAM0_BEGIN + 2);
}

#[test]
fn chip_sub_rdn_imm8() {
    let mut micro_controller = MicroController::default();
    micro_controller
        .bus_matrix
        .set32(RAM0_BEGIN, 0b00111_010_00001111).unwrap();
    micro_controller.registers[2] = 4;
    micro_controller.program_counter = RAM0_BEGIN;

    micro_controller.emulate_one_insn().unwrap();

    assert_eq!(
        micro_controller.bus_matrix.get_insn(RAM0_BEGIN).unwrap(),
        SubRdnImm8 { rdn: 2, imm8: 15 }
    );
    assert_eq!(micro_controller.registers[2], u32::MAX - 15 + 4 + 1);
    assert_eq!(micro_controller.program_counter, RAM0_BEGIN + 2);
}

#[test]
fn chip_sub_rd_rn_rm() {
    let mut micro_controller = MicroController::default();
    micro_controller
        .bus_matrix
        .set32(RAM0_BEGIN, 0b0001101_111_110_001).unwrap();
    micro_controller.registers[1] = 1;
    micro_controller.registers[6] = 4;
    micro_controller.registers[7] = 15;
    micro_controller.program_counter = RAM0_BEGIN;

    micro_controller.emulate_one_insn().unwrap();

    assert_eq!(
        micro_controller.bus_matrix.get_insn(RAM0_BEGIN).unwrap(),
        SubRdRnRm {
            rd: 1,
            rn: 6,
            rm: 7
        }
    );
    assert_eq!(micro_controller.registers[1], u32::MAX - 15 + 4 + 1);
    assert_eq!(micro_controller.registers[6], 4);
    assert_eq!(micro_controller.registers[7], 15);
    assert_eq!(micro_controller.program_counter, RAM0_BEGIN + 2);
}

#[test]
fn chip_sub_sp_sp_imm7() {
    let mut micro_controller = MicroController::default();
    micro_controller
        .bus_matrix
        .set32(RAM0_BEGIN, 0b101100001_0000011).unwrap();
    micro_controller.registers[STACK_POINTER] = RAM0_END;
    micro_controller.program_counter = RAM0_BEGIN;

    micro_controller.emulate_one_insn().unwrap();

    assert_eq!(
        micro_controller.bus_matrix.get_insn(RAM0_BEGIN).unwrap(),
        SubSpSpImm7 { imm: 12 }
    );
    assert_eq!(micro_controller.registers[STACK_POINTER], RAM0_END - 12);
    assert_eq!(micro_controller.program_counter, RAM0_BEGIN + 2);
}

#[test]
fn chip_tbb_rn_rm() {
    let mut micro_controller = MicroController::default();
    micro_controller
        .bus_matrix
        .set32(RAM0_BEGIN, 0b111100000000_0111_111010001101_0001).unwrap();
    micro_controller.bus_matrix.set8(RAM0_END + 15, 234).unwrap();
    micro_controller.registers[1] = RAM0_END;
    micro_controller.registers[7] = 15;
    micro_controller.program_counter = RAM0_BEGIN;

    micro_controller.emulate_one_insn().unwrap();

    assert_eq!(
        micro_controller.bus_matrix.get_insn(RAM0_BEGIN).unwrap(),
        TbbRnRm { rn: 1, rm: 7 }
    );
    assert_eq!(micro_controller.program_counter, RAM0_BEGIN + 4 + 234 * 2);
}

#[test]
fn tbb_rn_rm_with_program_counter() {
    let mut micro_controller = MicroController::default();
    micro_controller
        .bus_matrix
        .set32(RAM0_BEGIN, 0b111100000000_0111_111010001101_1111).unwrap();
    micro_controller.bus_matrix.set16(RAM0_BEGIN + 4 + 15, 234).unwrap();
    micro_controller.registers[7] = 15;
    micro_controller.program_counter = RAM0_BEGIN;

    micro_controller.emulate_one_insn().unwrap();

    assert_eq!(
        micro_controller.bus_matrix.get_insn(RAM0_BEGIN).unwrap(),
        TbbRnRm { rn: 15, rm: 7 }
    );
    assert_eq!(micro_controller.program_counter, RAM0_BEGIN + 4 + 234 * 2);
}

#[test]
fn chip_udiv_rd_rn_rm() {
    let mut micro_controller = MicroController::default();
    micro_controller
        .bus_matrix
        .set32(RAM0_BEGIN, 0b1111_0001_1111_0111_111110111011_0110).unwrap();
    micro_controller.registers[1] = 1;
    micro_controller.registers[6] = 31;
    micro_controller.registers[7] = 3;
    micro_controller.program_counter = RAM0_BEGIN;

    micro_controller.emulate_one_insn().unwrap();

    assert_eq!(
        micro_controller.bus_matrix.get_insn(RAM0_BEGIN).unwrap(),
        UdivRdRnRm {
            rd: 1,
            rn: 6,
            rm: 7
        }
    );
    assert_eq!(micro_controller.registers[1], 10);
    assert_eq!(micro_controller.registers[6], 31);
    assert_eq!(micro_controller.registers[7], 3);
    assert_eq!(micro_controller.program_counter, RAM0_BEGIN + 4);
}

#[test]
fn u32_insn_at_end_of_memory_range() {
    let mut micro_controller = MicroController::default();
    micro_controller
        .bus_matrix
        .set16(RAM0_BEGIN, 0b0_000_0100_00000111).unwrap();
    micro_controller
        .bus_matrix
        .set16(RAM0_END - 2, 0b11110_0_100100_0000).unwrap();
    micro_controller
        .bus_matrix
        .set16(RAM0_END, 0b0_001_0011_00000111).unwrap();

    micro_controller.program_counter = RAM0_END - 2 - RAM0_BYTES;
    micro_controller.emulate_one_insn().unwrap();
    micro_controller.program_counter = RAM0_END - 2;
    micro_controller.emulate_one_insn().unwrap();

    assert_eq!(
        decode_insn(micro_controller.bus_matrix.get32(RAM0_END - 2 - RAM0_BYTES).unwrap()),
        MovwRdImm16 { rd: 4, imm16: 7 }
    );
    assert_eq!(
        decode_insn(micro_controller.bus_matrix.get32(RAM0_END - 2).unwrap()),
        MovwRdImm16 { rd: 3, imm16: 263 }
    );
    assert_eq!(micro_controller.registers[3], 263);
    assert_eq!(micro_controller.registers[4], 7);
}

#[test]
fn if_eq_then_else_true() {
    let mut micro_controller = MicroController::default();
    // CMP 3 5; ITE EQ; MOV 1 1; MOV 1 0;
    micro_controller
        .bus_matrix
        .set16(RAM0_BEGIN, 0b0100001010_101_011).unwrap();
    micro_controller
        .bus_matrix
        .set16(RAM0_BEGIN + 2, 0b10111111_0000_1100).unwrap();
    micro_controller
        .bus_matrix
        .set16(RAM0_BEGIN + 4, 0b00100_001_00000001).unwrap();
    micro_controller
        .bus_matrix
        .set16(RAM0_BEGIN + 6, 0b00100_001_00000000).unwrap();
    micro_controller.registers[3] = 4;
    micro_controller.registers[5] = 4;
    micro_controller.program_counter = RAM0_BEGIN;

    micro_controller.emulate_one_insn().unwrap();
    micro_controller.emulate_one_insn().unwrap();
    micro_controller.emulate_one_insn().unwrap();
    micro_controller.emulate_one_insn().unwrap();

    assert_eq!(micro_controller.registers[1], 1);
    assert_eq!(micro_controller.program_counter, RAM0_BEGIN + 8);
}

#[test]
fn if_eq_then_else_false() {
    let mut micro_controller = MicroController::default();
    // CMP 3 5; ITE EQ; MOV 1 1; MOV 1 0;
    micro_controller
        .bus_matrix
        .set16(RAM0_BEGIN, 0b0100001010_101_011).unwrap();
    micro_controller
        .bus_matrix
        .set16(RAM0_BEGIN + 2, 0b10111111_0000_1100).unwrap();
    micro_controller
        .bus_matrix
        .set16(RAM0_BEGIN + 4, 0b00100_001_00000001).unwrap();
    micro_controller
        .bus_matrix
        .set16(RAM0_BEGIN + 6, 0b00100_001_00000000).unwrap();
    micro_controller.registers[3] = 4;
    micro_controller.registers[5] = 5;
    micro_controller.program_counter = RAM0_BEGIN;

    micro_controller.emulate_one_insn().unwrap();
    micro_controller.emulate_one_insn().unwrap();
    micro_controller.emulate_one_insn().unwrap();
    micro_controller.emulate_one_insn().unwrap();

    assert_eq!(micro_controller.registers[1], 0);
    assert_eq!(micro_controller.program_counter, RAM0_BEGIN + 8);
}

#[test]
fn if_ne_then_else_true() {
    let mut micro_controller = MicroController::default();
    // CMP 3 5; ITE NE; MOV 1 1; MOV 1 0;
    micro_controller
        .bus_matrix
        .set16(RAM0_BEGIN, 0b0100001010_101_011).unwrap();
    micro_controller
        .bus_matrix
        .set16(RAM0_BEGIN + 2, 0b10111111_0001_0100).unwrap();
    micro_controller
        .bus_matrix
        .set16(RAM0_BEGIN + 4, 0b00100_001_00000001).unwrap();
    micro_controller
        .bus_matrix
        .set16(RAM0_BEGIN + 6, 0b00100_001_00000000).unwrap();
    micro_controller.registers[3] = 4;
    micro_controller.registers[5] = 5;
    micro_controller.program_counter = RAM0_BEGIN;

    micro_controller.emulate_one_insn().unwrap();
    micro_controller.emulate_one_insn().unwrap();
    micro_controller.emulate_one_insn().unwrap();
    micro_controller.emulate_one_insn().unwrap();

    assert_eq!(micro_controller.registers[1], 1);
    assert_eq!(micro_controller.program_counter, RAM0_BEGIN + 8);
}

#[test]
fn if_ne_then_else_false() {
    let mut micro_controller = MicroController::default();
    // CMP 3 5; ITE NE; MOV 1 1; MOV 1 0;
    micro_controller
        .bus_matrix
        .set16(RAM0_BEGIN, 0b0100001010_101_011).unwrap();
    micro_controller
        .bus_matrix
        .set16(RAM0_BEGIN + 2, 0b10111111_0001_0100).unwrap();
    micro_controller
        .bus_matrix
        .set16(RAM0_BEGIN + 4, 0b00100_001_00000001).unwrap();
    micro_controller
        .bus_matrix
        .set16(RAM0_BEGIN + 6, 0b00100_001_00000000).unwrap();
    micro_controller.registers[3] = 4;
    micro_controller.registers[5] = 4;
    micro_controller.program_counter = RAM0_BEGIN;

    micro_controller.emulate_one_insn().unwrap();
    micro_controller.emulate_one_insn().unwrap();
    micro_controller.emulate_one_insn().unwrap();
    micro_controller.emulate_one_insn().unwrap();

    assert_eq!(micro_controller.registers[1], 0);
    assert_eq!(micro_controller.program_counter, RAM0_BEGIN + 8);
}

#[test]
fn if_ge_then_else_true() {
    let mut micro_controller = MicroController::default();
    // CMP 3 5; ITE GE; MOV 1 1; MOV 1 0;
    micro_controller
        .bus_matrix
        .set16(RAM0_BEGIN, 0b0100001010_101_011).unwrap();
    micro_controller
        .bus_matrix
        .set16(RAM0_BEGIN + 2, 0b10111111_0010_1100).unwrap();
    micro_controller
        .bus_matrix
        .set16(RAM0_BEGIN + 4, 0b00100_001_00000001).unwrap();
    micro_controller
        .bus_matrix
        .set16(RAM0_BEGIN + 6, 0b00100_001_00000000).unwrap();
    micro_controller.registers[3] = 5;
    micro_controller.registers[5] = 5;
    micro_controller.program_counter = RAM0_BEGIN;

    micro_controller.emulate_one_insn().unwrap();
    micro_controller.emulate_one_insn().unwrap();
    micro_controller.emulate_one_insn().unwrap();
    micro_controller.emulate_one_insn().unwrap();

    assert_eq!(micro_controller.registers[1], 1);
    assert_eq!(micro_controller.program_counter, RAM0_BEGIN + 8);
}

#[test]
fn if_ge_then_else_false() {
    let mut micro_controller = MicroController::default();
    // CMP 3 5; ITE GE; MOV 1 1; MOV 1 0;
    micro_controller
        .bus_matrix
        .set16(RAM0_BEGIN, 0b0100001010_101_011).unwrap();
    micro_controller
        .bus_matrix
        .set16(RAM0_BEGIN + 2, 0b10111111_0010_1100).unwrap();
    micro_controller
        .bus_matrix
        .set16(RAM0_BEGIN + 4, 0b00100_001_00000001).unwrap();
    micro_controller
        .bus_matrix
        .set16(RAM0_BEGIN + 6, 0b00100_001_00000000).unwrap();
    micro_controller.registers[3] = 4;
    micro_controller.registers[5] = 5;
    micro_controller.program_counter = RAM0_BEGIN;

    micro_controller.emulate_one_insn().unwrap();
    micro_controller.emulate_one_insn().unwrap();
    micro_controller.emulate_one_insn().unwrap();
    micro_controller.emulate_one_insn().unwrap();

    assert_eq!(micro_controller.registers[1], 0);
    assert_eq!(micro_controller.program_counter, RAM0_BEGIN + 8);
}

#[test]
fn if_lt_then_else_true() {
    let mut micro_controller = MicroController::default();
    // CMP 3 5; ITE LT; MOV 1 1; MOV 1 0;
    micro_controller
        .bus_matrix
        .set16(RAM0_BEGIN, 0b0100001010_101_011).unwrap();
    micro_controller
        .bus_matrix
        .set16(RAM0_BEGIN + 2, 0b10111111_0011_0100).unwrap();
    micro_controller
        .bus_matrix
        .set16(RAM0_BEGIN + 4, 0b00100_001_00000001).unwrap();
    micro_controller
        .bus_matrix
        .set16(RAM0_BEGIN + 6, 0b00100_001_00000000).unwrap();
    micro_controller.registers[3] = 4;
    micro_controller.registers[5] = 5;
    micro_controller.program_counter = RAM0_BEGIN;

    micro_controller.emulate_one_insn().unwrap();
    micro_controller.emulate_one_insn().unwrap();
    micro_controller.emulate_one_insn().unwrap();
    micro_controller.emulate_one_insn().unwrap();

    assert_eq!(micro_controller.registers[1], 1);
    assert_eq!(micro_controller.program_counter, RAM0_BEGIN + 8);
}

#[test]
fn if_lt_then_else_false() {
    let mut micro_controller = MicroController::default();
    // CMP 3 5; ITE LT; MOV 1 1; MOV 1 0;
    micro_controller
        .bus_matrix
        .set16(RAM0_BEGIN, 0b0100001010_101_011).unwrap();
    micro_controller
        .bus_matrix
        .set16(RAM0_BEGIN + 2, 0b10111111_0011_0100).unwrap();
    micro_controller
        .bus_matrix
        .set16(RAM0_BEGIN + 4, 0b00100_001_00000001).unwrap();
    micro_controller
        .bus_matrix
        .set16(RAM0_BEGIN + 6, 0b00100_001_00000000).unwrap();
    micro_controller.registers[3] = 4;
    micro_controller.registers[5] = 4;
    micro_controller.program_counter = RAM0_BEGIN;

    micro_controller.emulate_one_insn().unwrap();
    micro_controller.emulate_one_insn().unwrap();
    micro_controller.emulate_one_insn().unwrap();
    micro_controller.emulate_one_insn().unwrap();

    assert_eq!(micro_controller.registers[1], 0);
    assert_eq!(micro_controller.program_counter, RAM0_BEGIN + 8);
}

#[test]
fn if_gt_then_else_true() {
    let mut micro_controller = MicroController::default();
    // CMP 3 5; ITE GT; MOV 1 1; MOV 1 0;
    micro_controller
        .bus_matrix
        .set16(RAM0_BEGIN, 0b0100001010_101_011).unwrap();
    micro_controller
        .bus_matrix
        .set16(RAM0_BEGIN + 2, 0b10111111_1000_1100).unwrap();
    micro_controller
        .bus_matrix
        .set16(RAM0_BEGIN + 4, 0b00100_001_00000001).unwrap();
    micro_controller
        .bus_matrix
        .set16(RAM0_BEGIN + 6, 0b00100_001_00000000).unwrap();
    micro_controller.registers[3] = 5;
    micro_controller.registers[5] = 4;
    micro_controller.program_counter = RAM0_BEGIN;

    micro_controller.emulate_one_insn().unwrap();
    micro_controller.emulate_one_insn().unwrap();
    micro_controller.emulate_one_insn().unwrap();
    micro_controller.emulate_one_insn().unwrap();

    assert_eq!(micro_controller.registers[1], 1);
    assert_eq!(micro_controller.program_counter, RAM0_BEGIN + 8);
}

#[test]
fn if_gt_then_else_false() {
    let mut micro_controller = MicroController::default();
    // CMP 3 5; ITE GT; MOV 1 1; MOV 1 0;
    micro_controller
        .bus_matrix
        .set16(RAM0_BEGIN, 0b0100001010_101_011).unwrap();
    micro_controller
        .bus_matrix
        .set16(RAM0_BEGIN + 2, 0b10111111_1000_1100).unwrap();
    micro_controller
        .bus_matrix
        .set16(RAM0_BEGIN + 4, 0b00100_001_00000001).unwrap();
    micro_controller
        .bus_matrix
        .set16(RAM0_BEGIN + 6, 0b00100_001_00000000).unwrap();
    micro_controller.registers[3] = 4;
    micro_controller.registers[5] = 4;
    micro_controller.program_counter = RAM0_BEGIN;

    micro_controller.emulate_one_insn().unwrap();
    micro_controller.emulate_one_insn().unwrap();
    micro_controller.emulate_one_insn().unwrap();
    micro_controller.emulate_one_insn().unwrap();

    assert_eq!(micro_controller.registers[1], 0);
    assert_eq!(micro_controller.program_counter, RAM0_BEGIN + 8);
}

#[test]
fn if_le_then_else_true() {
    let mut micro_controller = MicroController::default();
    // CMP 3 5; ITE LE; MOVW 1 1; MOV 1 0;
    micro_controller
        .bus_matrix
        .set16(RAM0_BEGIN, 0b0100001010_101_011).unwrap();
    micro_controller
        .bus_matrix
        .set16(RAM0_BEGIN + 2, 0b10111111_1001_0100).unwrap();
    micro_controller
        .bus_matrix
        .set32(RAM0_BEGIN + 4, 0b0_000_0001_00000001_11110_0_100100_0000).unwrap();
    micro_controller
        .bus_matrix
        .set16(RAM0_BEGIN + 8, 0b00100_001_00000000).unwrap();
    micro_controller.registers[3] = 4;
    micro_controller.registers[5] = 4;
    micro_controller.program_counter = RAM0_BEGIN;

    micro_controller.emulate_one_insn().unwrap();
    micro_controller.emulate_one_insn().unwrap();
    micro_controller.emulate_one_insn().unwrap();
    micro_controller.emulate_one_insn().unwrap();

    assert_eq!(micro_controller.registers[1], 1);
    assert_eq!(micro_controller.program_counter, RAM0_BEGIN + 10);
}

#[test]
fn if_le_then_else_false() {
    let mut micro_controller = MicroController::default();
    // CMP 3 5; ITE LE; MOVW 1 1; MOV 1 0;
    micro_controller
        .bus_matrix
        .set16(RAM0_BEGIN, 0b0100001010_101_011).unwrap();
    micro_controller
        .bus_matrix
        .set16(RAM0_BEGIN + 2, 0b10111111_1001_0100).unwrap();
    micro_controller
        .bus_matrix
        .set32(RAM0_BEGIN + 4, 0b0_000_0001_00000001_11110_0_100100_0000).unwrap();
    micro_controller
        .bus_matrix
        .set16(RAM0_BEGIN + 8, 0b00100_001_00000000).unwrap();
    micro_controller.registers[3] = 5;
    micro_controller.registers[5] = 4;
    micro_controller.program_counter = RAM0_BEGIN;

    micro_controller.emulate_one_insn().unwrap();
    micro_controller.emulate_one_insn().unwrap();
    micro_controller.emulate_one_insn().unwrap();
    micro_controller.emulate_one_insn().unwrap();

    assert_eq!(micro_controller.registers[1], 0);
    assert_eq!(micro_controller.program_counter, RAM0_BEGIN + 10);
}

#[test]
fn if_eq_then_then_else_true() {
    let mut micro_controller = MicroController::default();
    // CMP 3 5; ITTE EQ; MOV 1 1; ADD 1 #1 ; MOV 1 0;
    micro_controller
        .bus_matrix
        .set16(RAM0_BEGIN, 0b0100001010_101_011).unwrap();
    micro_controller
        .bus_matrix
        .set16(RAM0_BEGIN + 2, 0b10111111_0000_0110).unwrap();
    micro_controller
        .bus_matrix
        .set16(RAM0_BEGIN + 4, 0b00100_001_00000001).unwrap();
    micro_controller
        .bus_matrix
        .set16(RAM0_BEGIN + 6, 0b00110_001_00000001).unwrap();
    micro_controller
        .bus_matrix
        .set16(RAM0_BEGIN + 8, 0b00100_001_00000000).unwrap();
    micro_controller.registers[3] = 4;
    micro_controller.registers[5] = 4;
    micro_controller.program_counter = RAM0_BEGIN;

    micro_controller.emulate_one_insn().unwrap();
    micro_controller.emulate_one_insn().unwrap();
    micro_controller.emulate_one_insn().unwrap();
    micro_controller.emulate_one_insn().unwrap();
    micro_controller.emulate_one_insn().unwrap();

    assert_eq!(micro_controller.registers[1], 2);
    assert_eq!(micro_controller.program_counter, RAM0_BEGIN + 10);
}

#[test]
fn if_eq_then_then_else_false() {
    let mut micro_controller = MicroController::default();
    // CMP 3 5; ITTE EQ; MOV 1 1; ADD 1 #1 ; MOV 1 0;
    micro_controller
        .bus_matrix
        .set16(RAM0_BEGIN, 0b0100001010_101_011).unwrap();
    micro_controller
        .bus_matrix
        .set16(RAM0_BEGIN + 2, 0b10111111_0000_0110).unwrap();
    micro_controller
        .bus_matrix
        .set16(RAM0_BEGIN + 4, 0b00100_001_00000001).unwrap();
    micro_controller
        .bus_matrix
        .set16(RAM0_BEGIN + 6, 0b00110_001_00000001).unwrap();
    micro_controller
        .bus_matrix
        .set16(RAM0_BEGIN + 8, 0b00100_001_00000000).unwrap();
    micro_controller.registers[3] = 4;
    micro_controller.registers[5] = 5;
    micro_controller.program_counter = RAM0_BEGIN;

    micro_controller.emulate_one_insn().unwrap();
    micro_controller.emulate_one_insn().unwrap();
    micro_controller.emulate_one_insn().unwrap();
    micro_controller.emulate_one_insn().unwrap();
    micro_controller.emulate_one_insn().unwrap();

    assert_eq!(micro_controller.registers[1], 0);
    assert_eq!(micro_controller.program_counter, RAM0_BEGIN + 10);
}

#[test]
fn set_usart_input() {
    let mut micro_controller = MicroController::default();
    micro_controller.set_serial_input("W400E0E00,FFFFFFFF#").unwrap(); // PIO Enable Register.
    micro_controller.set_serial_input("W400E0610,00020000#").unwrap(); // Clock Enable Register.
    micro_controller.set_serial_input("W40098000,00000010#").unwrap(); // USART Control Register.

    micro_controller.set_usart_input(0xAB, 0, 0);

    assert_eq!(
        micro_controller
            .bus_matrix
            .get32(emulator::usart::RECEIVE_HOLDING_REGISTER).unwrap(),
        0xAB
    );
}

#[test]
fn set_usart_input_clock_disabled() {
    let mut micro_controller = MicroController::default();
    micro_controller.set_serial_input("W400E0E00,FFFFFFFF#").unwrap(); // PIO Enable Register.
    micro_controller.set_serial_input("W40098000,00000010#").unwrap(); // USART Control Register.

    micro_controller.set_usart_input(0xAB, 0, 0);

    assert_eq!(
        micro_controller
            .bus_matrix
            .get32(emulator::usart::RECEIVE_HOLDING_REGISTER).unwrap(),
        0
    );
}

#[test]
fn set_usart_input_usart_input_pins_not_enabled() {
    let mut micro_controller = MicroController::default();
    micro_controller.set_serial_input("W400E0E00,FFFFFFFF#").unwrap(); // PIO Enable Register.
    micro_controller.set_serial_input("W400E0E10,00020000#").unwrap(); // Output Enable Register.
    micro_controller.set_serial_input("W400E0610,00020000#").unwrap(); // Clock Enable Register.
    micro_controller.set_serial_input("W40098000,00000010#").unwrap(); // USART Control Register.

    micro_controller.set_usart_input(0xAB, 0, 0);

    assert_eq!(
        micro_controller
            .bus_matrix
            .get32(emulator::usart::RECEIVE_HOLDING_REGISTER).unwrap(),
        0
    );
}

#[test]
fn chip_get_pin_output() {
    let mut micro_controller = MicroController::default();

    let out0 = micro_controller.get_pin_output(Controller::PB, 3);
    micro_controller.set_serial_input("W400E1010,00000008#").unwrap(); // Output Enable Register (OER)
    let out1 = micro_controller.get_pin_output(Controller::PB, 3);

    assert!(out0);
    assert!(!out1);
}

fn fill_page(micro_controller: &mut MicroController<EmptySpiDevice, EmptyPioDevice>, address: u32) {
    for i in 0..64 {
        micro_controller.set_serial_input(&format!("W{:010X},#", address + 4 * i)).unwrap();
    }
}

#[test]
fn run() {
    let mut micro_controller = MicroController::default();
    fill_page(&mut micro_controller, 0x80000);
    micro_controller.set_serial_input("W00080000,20088000#").unwrap(); // Initial stack.
    micro_controller.set_serial_input("W00080004,00080009#").unwrap(); // Reset handler.
    micro_controller.set_serial_input("W00080008,E7FE317B#").unwrap(); // ADD Rdn=1 123, B self.
    micro_controller.set_serial_input("W400E0A04,5A000003#").unwrap(); // Flash page 0.
    micro_controller.set_serial_input("W400E0A04,5A00010B#").unwrap(); // Set boot from flash.
    micro_controller.set_serial_input("W400E1A00,A500000D#").unwrap(); // Reset.

    micro_controller.run(10).unwrap();

    assert_eq!(micro_controller.registers[1], 123);
}

#[test]
fn run_software_reset() {
    let mut micro_controller = MicroController::default();
    fill_page(&mut micro_controller, 0x80000);
    micro_controller.set_serial_input("W00080000,20088000#").unwrap(); // Initial stack.
    micro_controller.set_serial_input("W00080004,00080009#").unwrap(); // Reset handler.
    micro_controller.set_serial_input("W00080008,4B024A01#").unwrap(); // LDR Rd=2 addr, LDR Rd=3 value.
    micro_controller.set_serial_input("W0008000C,E7FE6013#").unwrap(); // STR value in addr, B forever.
    micro_controller.set_serial_input("W00080010,400E1A00#").unwrap(); // addr.
    micro_controller.set_serial_input("W00080014,A500000D#").unwrap(); // value.
    micro_controller.set_serial_input("W400E0A04,5A000003#").unwrap(); // Flash page 0.
    micro_controller.set_serial_input("W400E0A04,5A00010B#").unwrap(); // Set boot from flash.
    micro_controller.set_serial_input("W400E1A00,A500000D#").unwrap(); // Reset.
    micro_controller.bus_matrix.set32(0x20080000, 123).unwrap();

    micro_controller.run(5).unwrap();

    assert_ne!(micro_controller.bus_matrix.get32(0x20080000).unwrap(), 123);
}

#[test]
fn run_interrupt_return_with_pop() {
    let mut micro_controller = MicroController::default();
    fill_page(&mut micro_controller, 0x80000);
    micro_controller.set_serial_input("W00080000,20088000#").unwrap(); // Initial stack.
    micro_controller.set_serial_input("W00080004,00080009#").unwrap(); // Reset handler.
    micro_controller.set_serial_input("W00080008,E7FE317B#").unwrap(); // ADD Rdn=1 123, B self.
    micro_controller.set_serial_input("W00080040,00080045#").unwrap(); // IRQ0 handler.
    micro_controller.set_serial_input("W00080044,342AB500#").unwrap(); // PUSH LR, ADD Rdn=4 42.
    micro_controller.set_serial_input("W00080048,0000BD00#").unwrap(); // POP PC.
    micro_controller.set_serial_input("W400E0A04,5A000003#").unwrap(); // Flash page 0.
    micro_controller.set_serial_input("W400E0A04,5A00010B#").unwrap(); // Set boot from flash.
    micro_controller.set_serial_input("W400E1A00,A500000D#").unwrap(); // Reset.

    micro_controller.run(10).unwrap();
    micro_controller.bus_matrix.set32(0xE000E100, 1).unwrap(); // Enable interrupt 0.
    micro_controller.bus_matrix.set32(0xE000E200, 1).unwrap(); // Set interrupt 0 pending.
    micro_controller.run(10).unwrap();

    assert_eq!(micro_controller.registers[1], 123);
    assert_eq!(micro_controller.registers[4], 42);
}

#[test]
fn run_interrupt_return_with_bx() {
    let mut micro_controller = MicroController::default();
    fill_page(&mut micro_controller, 0x80000);
    micro_controller.set_serial_input("W00080000,20088000#").unwrap(); // Initial stack.
    micro_controller.set_serial_input("W00080004,00080009#").unwrap(); // Reset handler.
    micro_controller.set_serial_input("W00080008,E7FE317B#").unwrap(); // ADD Rdn=1 123, B self.
    micro_controller.set_serial_input("W00080040,00080045#").unwrap(); // IRQ0 handler.
    micro_controller.set_serial_input("W00080044,4770342A#").unwrap(); // BX LR, ADD Rdn=4 42.
    micro_controller.set_serial_input("W400E0A04,5A000003#").unwrap(); // Flash page 0.
    micro_controller.set_serial_input("W400E0A04,5A00010B#").unwrap(); // Set boot from flash.
    micro_controller.set_serial_input("W400E1A00,A500000D#").unwrap(); // Reset.

    micro_controller.run(10).unwrap();
    micro_controller.bus_matrix.set32(0xE000E100, 1).unwrap(); // Enable interrupt 0.
    micro_controller.bus_matrix.set32(0xE000E200, 1).unwrap(); // Set interrupt 0 pending.
    micro_controller.run(10).unwrap();

    assert_eq!(micro_controller.registers[1], 123);
    assert_eq!(micro_controller.registers[4], 42);
}

#[test]
fn get_set_pseudo_program_status() {
    let mut micro_controller = MicroController::default();
    for padding in [false, true] {
        for order in [Less, Equal, Greater] {
            micro_controller.if_then_state = 0xAB;
            micro_controller.last_comparison = order;

            let p = micro_controller
                .set_pseudo_program_status_register(
                    micro_controller.get_pseudo_program_status_register(padding),
                )
                .unwrap();

            assert_eq!(micro_controller.last_comparison, order);
            assert_eq!(micro_controller.if_then_state, 0xAB);
            assert_eq!(p, padding);
        }
    }
}

struct CountDown {
    remaining: u32,
    instructions: Vec<emulator::arm::Instruction>,
}

impl emulator::chip::StopCondition for CountDown {
    fn stops(&self, _instruction: emulator::arm::Instruction, _r0: u32, _r1: u32) -> bool {
        self.remaining == 1
    }

    fn next(&self, instruction: emulator::arm::Instruction, _r0: u32, _r1: u32) -> Self {
        let mut instructions = self.instructions.clone();
        instructions.push(instruction);
        CountDown { remaining: self.remaining - 1, instructions }
    }

    fn is_done(&mut self, instruction: emulator::arm::Instruction, _r0: u32, _r1: u32) -> bool {
        self.instructions.push(instruction);
        self.remaining -= 1;
        self.remaining == 0
    }
}

#[test]
fn run_until_stops_when_done() {
    let mut micro_controller = MicroController::default();
    fill_page(&mut micro_controller, 0x80000);
    micro_controller.set_serial_input("W00080000,20088000#").unwrap(); // Initial stack.
    micro_controller.set_serial_input("W00080004,00080009#").unwrap(); // Reset handler.
    micro_controller.set_serial_input("W00080008,E7FE317B#").unwrap(); // ADD Rdn=1 123, B self.
    micro_controller.set_serial_input("W400E0A04,5A000003#").unwrap(); // Flash page 0.
    micro_controller.set_serial_input("W400E0A04,5A00010B#").unwrap(); // Set boot from flash.
    micro_controller.set_serial_input("W400E1A00,A500000D#").unwrap(); // Reset.
    let mut condition = CountDown { remaining: 3, instructions: Vec::new() };

    let count = micro_controller.run_until(&mut condition).unwrap();

    assert_eq!(count, 3);
    assert_eq!(condition.instructions.len(), 3);
    assert_eq!(condition.instructions[0], AddRdnImm8 { rdn: 1, imm8: 123 });
    assert_eq!(micro_controller.registers[1], 123);
}

#[test]
fn run_until_reset_or_stops_at_reset() {
    let mut micro_controller = MicroController::default();
    fill_page(&mut micro_controller, 0x80000);
    micro_controller.set_serial_input("W00080000,20088000#").unwrap(); // Initial stack.
    micro_controller.set_serial_input("W00080004,00080009#").unwrap(); // Reset handler.
    micro_controller.set_serial_input("W00080008,4B024A01#").unwrap(); // LDR Rd=2 addr, LDR Rd=3 value.
    micro_controller.set_serial_input("W0008000C,E7FE6013#").unwrap(); // STR value in addr, B forever.
    micro_controller.set_serial_input("W00080010,400E1A00#").unwrap(); // addr.
    micro_controller.set_serial_input("W00080014,A500000D#").unwrap(); // value.
    micro_controller.set_serial_input("W400E0A04,5A000003#").unwrap(); // Flash page 0.
    micro_controller.set_serial_input("W400E0A04,5A00010B#").unwrap(); // Set boot from flash.
    micro_controller.set_serial_input("W400E1A00,A500000D#").unwrap(); // Reset.
    let mut condition = CountDown { remaining: 100, instructions: Vec::new() };

    let count = micro_controller.run_until_reset_or(&mut condition).unwrap();

    assert_eq!(count, 3);
    assert!(!micro_controller.reset_requested());
}
