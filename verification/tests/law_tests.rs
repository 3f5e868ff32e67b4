use emulator::bus::{BusMatrix, RAM0_BEGIN, RAM0_BYTES, RAM1_BEGIN};
use emulator::chip::MicroController;
use emulator::cpu::Comparison;
use emulator::fault::Fault;

#[test]
fn ram_reads_back_the_written_word() {
    let mut bus = BusMatrix::new();

    bus.set32(RAM0_BEGIN + 8, 0xDECACAFE).unwrap();
    bus.set32(RAM1_BEGIN + 12, 0x12345678).unwrap();

    assert_eq!(bus.get32(RAM0_BEGIN + 8), Ok(0xDECACAFE));
    assert_eq!(bus.get32(RAM1_BEGIN + 12), Ok(0x12345678));
}

#[test]
fn unaligned_ram_word_reads_back_the_written_word() {
    let mut bus = BusMatrix::new();

    bus.set32(RAM0_BEGIN + 5, 0xCAFEBABE).unwrap();

    assert_eq!(bus.get32(RAM0_BEGIN + 5), Ok(0xCAFEBABE));
    assert_eq!(bus.get16(RAM0_BEGIN + 5), Ok(0xBABE));
    assert_eq!(bus.get8(RAM0_BEGIN + 8), Ok(0xCA));
}

#[test]
fn unmapped_address_is_refused() {
    let mut bus = BusMatrix::new();

    assert_eq!(bus.get32(0x30000000), Err(Fault::UnsupportedAddress(0x30000000)));
    assert_eq!(bus.set32(0x30000000, 1), Err(Fault::UnsupportedAddress(0x30000000)));
}

#[test]
fn unprivileged_access_to_system_registers_is_refused() {
    let mut bus = BusMatrix::new();
    bus.privilege_mode = false;

    assert_eq!(bus.get32(0xE000E010), Err(Fault::UnauthorizedAccess(0xE000E010)));
    assert!(bus.get32(RAM0_BEGIN + RAM0_BYTES - 4).is_ok());
}

#[test]
fn pseudo_program_status_register_round_trip() {
    let mut micro_controller = MicroController::default();
    micro_controller.if_then_state = 0x1C;
    micro_controller.last_comparison = Comparison::Less;
    micro_controller.interrupt_status = 17;

    let status = micro_controller.get_pseudo_program_status_register(true);
    micro_controller.if_then_state = 0;
    micro_controller.last_comparison = Comparison::Equal;
    micro_controller.interrupt_status = 0;
    let padding = micro_controller.set_pseudo_program_status_register(status);

    assert_eq!(status, 0x011C_0A11);
    assert_eq!(padding, Ok(true));
    assert_eq!(micro_controller.if_then_state, 0x1C);
    assert_eq!(micro_controller.last_comparison, Comparison::Less);
    assert_eq!(micro_controller.interrupt_status, 17);
}

#[test]
fn pseudo_program_status_register_without_thumb_bit_is_refused() {
    let mut micro_controller = MicroController::default();
    micro_controller.program_counter = 0x80010;

    assert_eq!(
        micro_controller.set_pseudo_program_status_register(0),
        Err(Fault::ProgramError(0x80010))
    );
}

#[test]
fn serialization_round_trip() {
    let mut saved = MicroController::new(7, false);
    saved.set_serial_input("W00080000,DECACAFE#").unwrap();
    saved.turn_off();
    let mut input = vec![11, 22];
    input.extend(saved.serialize());

    let restored = MicroController::deserialize(&mut input);

    assert_eq!(input, vec![11, 22]);
    assert!(!restored.is_on());
    assert_eq!(restored.debug_get_flash_content(), saved.debug_get_flash_content());
}

#[test]
fn unsupported_instruction_is_refused() {
    let mut micro_controller = MicroController::default();
    micro_controller
        .bus_matrix
        .set16(emulator::bus::RAM0_BEGIN, 0b00011_10_000000000)
        .unwrap();
    micro_controller.program_counter = emulator::bus::RAM0_BEGIN;

    assert_eq!(
        micro_controller.emulate_one_insn(),
        Err(Fault::UnsupportedInstruction(emulator::bus::RAM0_BEGIN))
    );
}

#[test]
fn ram_write_changes_no_other_word() {
    let mut bus = BusMatrix::new();
    let before = bus.get32(RAM0_BEGIN + 12).unwrap();
    let flash_before = bus.get32(0x80000).unwrap();
    let ram1_before = bus.get32(RAM1_BEGIN + 8).unwrap();

    bus.set32(RAM0_BEGIN + 8, before ^ 0xFFFF_FFFF).unwrap();

    assert_eq!(bus.get32(RAM0_BEGIN + 12).unwrap(), before);
    assert_eq!(bus.get32(0x80000).unwrap(), flash_before);
    assert_eq!(bus.get32(RAM1_BEGIN + 8).unwrap(), ram1_before);
}
