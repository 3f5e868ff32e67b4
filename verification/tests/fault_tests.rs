use emulator::bus::{BusMatrix, RAM0_BEGIN, RAM1_END};
use emulator::chip::MicroController;
use emulator::fault::Fault;
use emulator::mpu::{MemoryProtectionUnit, REGION_BASE_ADDRESS_REGISTER};
use emulator::reset::ResetController;
use emulator::system::{SystemControlBlock, SYSTEM_CONTROL_BLOCK_BEGIN};
use emulator::time::{SystemTimer, CONTROL_AND_STATUS_REGISTER, COUNT_FLAG, ENABLE, RELOAD_VALUE_REGISTER};
use emulator::usart::{UniversalReceiverTransmitter, CONTROL_REGISTER as USART_CONTROL_REGISTER};

#[test]
fn branch_in_it_block_is_a_program_error() {
    let mut micro_controller = MicroController::default();
    micro_controller
        .bus_matrix
        .set32(RAM0_BEGIN + 2, 0b11100_11111111010)
        .unwrap();
    micro_controller.program_counter = RAM0_BEGIN + 2;
    micro_controller.if_then_state = 0x01;

    assert_eq!(
        micro_controller.emulate_one_insn(),
        Err(Fault::ProgramError(RAM0_BEGIN + 2))
    );
}

#[test]
fn write_after_the_ram_is_an_unsupported_address() {
    let mut bus_matrix = BusMatrix::default();

    assert_eq!(bus_matrix.write_fault(RAM1_END, 123), Some(Fault::UnsupportedAddress(RAM1_END)));
    assert_eq!(bus_matrix.set32(RAM1_END, 123), Err(Fault::UnsupportedAddress(RAM1_END)));
    assert_eq!(bus_matrix.write_fault(RAM0_BEGIN, 123), None);
    assert_eq!(bus_matrix.read_fault(RAM1_END), Some(Fault::UnsupportedAddress(RAM1_END)));
    assert_eq!(bus_matrix.get32(RAM1_END), Err(Fault::UnsupportedAddress(RAM1_END)));
    assert_eq!(bus_matrix.read_fault(RAM0_BEGIN), None);
}

#[test]
fn unsupported_mpu_region_number_is_refused() {
    let mut mpu = MemoryProtectionUnit::new();
    mpu.region_number = 3;

    assert_eq!(
        mpu.check_write(REGION_BASE_ADDRESS_REGISTER, 0xABCDEF18),
        Err(Fault::UnsupportedValue(REGION_BASE_ADDRESS_REGISTER, 0xABCDEF18))
    );
    assert_eq!(mpu.check_write(REGION_BASE_ADDRESS_REGISTER, 0xABCDEF15), Ok(()));
}

#[test]
fn unsupported_usart_control_bit_is_refused() {
    let mut usart = UniversalReceiverTransmitter::new();

    assert_eq!(
        UniversalReceiverTransmitter::check_write(USART_CONTROL_REGISTER, 0x8000),
        Err(Fault::UnsupportedValue(USART_CONTROL_REGISTER, 0x8000))
    );
    usart.set32_aligned(USART_CONTROL_REGISTER, 0x30).unwrap();
    assert!(!usart.receiver_enabled);
}

#[test]
fn partial_reset_is_refused() {
    assert_eq!(
        ResetController::check_write(0x400E1A00, 0xA500000E),
        Err(Fault::UnsupportedValue(0x400E1A00, 0xA500000E))
    );
    assert_eq!(
        ResetController::check_write(0x400E1A04, 0),
        Err(Fault::UnsupportedRegister(0x400E1A04))
    );
    assert_eq!(ResetController::check_write(0x400E1A00, 0xA500000D), Ok(()));
}

#[test]
fn unsupported_system_control_register_is_refused() {
    assert!(!SystemControlBlock::supports(SYSTEM_CONTROL_BLOCK_BEGIN));
    let mut micro_controller = MicroController::default();
    assert_eq!(
        micro_controller.bus_matrix.set32(SYSTEM_CONTROL_BLOCK_BEGIN, 123),
        Err(Fault::UnsupportedRegister(SYSTEM_CONTROL_BLOCK_BEGIN))
    );
}

#[test]
fn small_reload_value_is_refused_when_reloading() {
    let mut timer = SystemTimer::default();
    timer.set32_aligned(RELOAD_VALUE_REGISTER, 500).unwrap();
    timer.set32_aligned(CONTROL_AND_STATUS_REGISTER, ENABLE).unwrap();
    timer.current_value = 1;
    assert!(!timer.can_update());
    timer.current_value = 2000;
    assert!(timer.can_update());
    timer.update();
    assert_eq!(timer.current_value, 1000);
    assert_eq!(timer.control_and_status & COUNT_FLAG, 0);

    let mut micro_controller = MicroController::default();
    micro_controller.bus_matrix.set32(RELOAD_VALUE_REGISTER, 500).unwrap();
    micro_controller.bus_matrix.set32(CONTROL_AND_STATUS_REGISTER, ENABLE).unwrap();
    assert_eq!(
        micro_controller.emulate_one_insn(),
        Err(Fault::UnsupportedValue(RELOAD_VALUE_REGISTER, 500))
    );
}

#[test]
fn executed_instruction_stays_decoded() {
    let mut micro_controller = MicroController::default();
    micro_controller
        .bus_matrix
        .set32(RAM0_BEGIN + 2, 0b01001_011_00000101)
        .unwrap();
    micro_controller.bus_matrix.set32(RAM0_BEGIN + 24, 123456).unwrap();
    micro_controller.program_counter = RAM0_BEGIN + 2;

    micro_controller.emulate_one_insn().unwrap();

    assert_eq!(
        micro_controller.bus_matrix.get_insn(RAM0_BEGIN + 2),
        Ok(emulator::arm::Instruction::LdrRtPcImm8 { rt: 3, imm: 20 })
    );
    assert_eq!(micro_controller.registers[3], 123456);
}
