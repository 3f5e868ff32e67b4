use emulator::power::{PowerManagementController, MAIN_OSCILLATOR_REGISTER, MASTER_CLOCK_REGISTER, PERIPHERAL_CLOCK_DISABLE_REGISTER_0, PERIPHERAL_CLOCK_ENABLE_REGISTER_0, PERIPHERAL_CLOCK_STATUS_REGISTER_0, PLLA_REGISTER};

#[test]
fn set32_aligned_peripheral_clock_disable() {
    let mut power = PowerManagementController::new();
    power.peripheral_clock_status0 = 0xFFFFFFFF;

    power.set32_aligned(PERIPHERAL_CLOCK_DISABLE_REGISTER_0, 0xABCDEFFF).unwrap();

    assert_eq!(power.peripheral_clock_status0, 0x54321000);
}

#[test]
fn set32_aligned_peripheral_clock_status() {
    let mut power = PowerManagementController::new();
    power.peripheral_clock_status0 = 123;

    power.set32_aligned(PERIPHERAL_CLOCK_STATUS_REGISTER_0, 456).unwrap();

    assert_eq!(power.peripheral_clock_status0, 123);
}

#[test]
fn set32_aligned_main_oscillator_ok() {
    let mut power = PowerManagementController::new();
    power.main_oscillator = 123;

    power.set32_aligned(MAIN_OSCILLATOR_REGISTER, 0xFF37ABFF).unwrap();

    assert_eq!(power.main_oscillator, 0x0300AB7B);
}

#[test]
fn set32_aligned_main_oscillator_bad_key() {
    let mut power = PowerManagementController::new();
    power.main_oscillator = 123;

    power.set32_aligned(MAIN_OSCILLATOR_REGISTER, 0xFF38ABFF).unwrap();

    assert_eq!(power.main_oscillator, 123);
}

#[test]
fn set32_aligned_plla() {
    let mut power = PowerManagementController::new();
    power.plla = 123;

    power.set32_aligned(PLLA_REGISTER, 0xFFAB1234).unwrap();

    assert_eq!(power.plla, 0x07AB1234);
}

#[test]
fn set32_aligned_master_clock() {
    let mut power = PowerManagementController::new();
    power.master_clock = 123;

    power.set32_aligned(MASTER_CLOCK_REGISTER, 0xFFFFFFF1).unwrap();

    assert_eq!(power.master_clock, 0x3071);
}

#[test]
fn spi_clock_enabled() {
    let mut power = PowerManagementController::new();

    power.set32_aligned(PERIPHERAL_CLOCK_ENABLE_REGISTER_0, 1 << 24).unwrap();

    assert!(power.spi_clock_enabled());
}

#[test]
fn usart_clock_enabled() {
    let mut power = PowerManagementController::new();

    power.set32_aligned(PERIPHERAL_CLOCK_ENABLE_REGISTER_0, 1 << 17).unwrap();

    assert!(power.usart_clock_enabled());
}

#[test]
fn power_reset() {
    let mut power = PowerManagementController::new();
    power.main_oscillator = 123;
    power.plla = 456;
    power.master_clock = 789;
    power.peripheral_clock_status0 = 0xABC;

    power.reset();

    assert_eq!(power.main_oscillator, 1);
    assert_eq!(power.plla, 0x3F00);
    assert_eq!(power.master_clock, 1);
    assert_eq!(power.peripheral_clock_status0, 0);
    assert!(!power.spi_clock_enabled());
    assert!(!power.usart_clock_enabled());
}
