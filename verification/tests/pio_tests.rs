use emulator::pio::{Controller, EmptyPioDevice, PIO_CONTROLLER_BEGIN, ParallelIoController, PioDevice};

#[derive(Default)]
pub struct LogPioDevice {
    states: Vec<bool>,
}

impl PioDevice for LogPioDevice {
    fn pio_state_changed(&mut self, pins: &[u32; 4]) {
        self.states
            .push(pins[Controller::PB as usize] & (1 << 27) != 0);
    }
}

#[test]
fn get_set_pio_device() {
    let mut pio = ParallelIoController::new(LogPioDevice::default());
    let log_pio_device = LogPioDevice { states: vec![true] };

    pio.set_pio_device(log_pio_device);
    let pio_device = pio.get_pio_device();

    assert_eq!(pio_device.states, vec![true]);
}

#[test]
fn get32_aligned_set_register() {
    const PIOB_ENABLE_REGISTER: u32 = 0x400E1000;
    let pio = ParallelIoController::new(EmptyPioDevice::new());

    assert_eq!(pio.get32_aligned(PIOB_ENABLE_REGISTER), 0);
}

#[test]
fn get32_aligned_clear_register() {
    const PIOB_DISABLE_REGISTER: u32 = 0x400E1004;
    let pio = ParallelIoController::new(EmptyPioDevice::new());

    assert_eq!(pio.get32_aligned(PIOB_DISABLE_REGISTER), 0);
}

#[test]
fn get32_aligned_read_only_register() {
    const PIOB_STATUS_REGISTER: u32 = 0x400E1008;
    let mut pio = ParallelIoController::new(EmptyPioDevice::new());
    pio.registers[130].value = 123;

    assert_eq!(pio.get32_aligned(PIOB_STATUS_REGISTER), 123);
}

#[test]
fn get32_aligned_read_write_register() {
    const PIOB_AB_SELECT_REGISTER: u32 = 0x400E1070;
    let mut pio = ParallelIoController::new(EmptyPioDevice::new());
    pio.registers[156].value = 123;

    assert_eq!(pio.get32_aligned(PIOB_AB_SELECT_REGISTER), 123);
}

#[test]
fn get32_aligned_reserved_register() {
    const PIOB_RESERVED_REGISTER: u32 = 0x400E100C;
    let pio = ParallelIoController::new(EmptyPioDevice::new());

    assert_eq!(pio.get32_aligned(PIOB_RESERVED_REGISTER), 0);
}

#[test]
fn pio_get32_aligned_unsupported_register() {
    const PIOB_RESERVED_REGISTER: u32 = 0x400E1050;
    let pio = ParallelIoController::new(EmptyPioDevice::new());

    assert_eq!(pio.get32_aligned(PIOB_RESERVED_REGISTER), 0);
}

#[test]
fn set32_aligned_set_register() {
    const PIOB_ENABLE_REGISTER: u32 = 0x400E1000;
    const PIOB_STATUS_REGISTER: u32 = 0x400E1008;
    let mut pio = ParallelIoController::new(EmptyPioDevice::new());
    pio.registers[130].value = 0x12;

    pio.set32_aligned(PIOB_ENABLE_REGISTER, 0xFF00).unwrap();

    assert_eq!(pio.get32_aligned(PIOB_STATUS_REGISTER), 0xFF12);
}

#[test]
fn set32_aligned_clear_register() {
    const PIOB_DISABLE_REGISTER: u32 = 0x400E1004;
    const PIOB_STATUS_REGISTER: u32 = 0x400E1008;
    let mut pio = ParallelIoController::new(EmptyPioDevice::new());
    pio.registers[130].value = 0xFF;

    pio.set32_aligned(PIOB_DISABLE_REGISTER, 0x12).unwrap();

    assert_eq!(pio.get32_aligned(PIOB_STATUS_REGISTER), 0xED);
}

#[test]
fn set32_aligned_read_only_register() {
    const PIOB_STATUS_REGISTER: u32 = 0x400E1008;
    let mut pio = ParallelIoController::new(EmptyPioDevice::new());

    pio.set32_aligned(PIOB_STATUS_REGISTER, 123).unwrap();

    assert_eq!(pio.registers[130].value, 0x0FFFFFFF);
}

#[test]
fn set32_aligned_read_write_register() {
    const PIOB_AB_SELECT_REGISTER: u32 = 0x400E1070;
    let mut pio = ParallelIoController::new(EmptyPioDevice::new());
    pio.registers[156].value = 456;

    pio.set32_aligned(PIOB_AB_SELECT_REGISTER, 123).unwrap();

    assert_eq!(pio.registers[156].value, 123);
}

#[test]
fn set32_aligned_reserved_register() {
    const PIOB_RESERVED_REGISTER: u32 = 0x400E100C;
    let mut pio = ParallelIoController::new(EmptyPioDevice::new());

    pio.set32_aligned(PIOB_RESERVED_REGISTER, 123).unwrap();

    assert_eq!(pio.registers[131].value, 0);
}

#[test]
fn pio_get_pin_output() {
    const PB27: u32 = 1 << 27;
    let mut pio = ParallelIoController::new(EmptyPioDevice::new());
    pio.set32_aligned(0x400E1004, PB27).unwrap(); // PIO Disable Register (PDR)
    let mut states = Vec::new();

    states.push(pio.get_pin_output(Controller::PB, 27));
    pio.set32_aligned(0x400E1010, PB27).unwrap(); // Output Enable Register (OER)
    states.push(pio.get_pin_output(Controller::PB, 27));
    pio.set32_aligned(0x400E1060, PB27).unwrap(); // Pull-up Disable Register (PUDR)
    states.push(pio.get_pin_output(Controller::PB, 27));
    pio.set32_aligned(0x400E1030, PB27).unwrap(); // Set Output Data Register (SODR)
    states.push(pio.get_pin_output(Controller::PB, 27));
    pio.set32_aligned(0x400E1000, PB27).unwrap(); // PIO Enable Register (PER)
    states.push(pio.get_pin_output(Controller::PB, 27));
    pio.set32_aligned(0x400E1034, PB27).unwrap(); // Clear Output Data Register (CODR)
    states.push(pio.get_pin_output(Controller::PB, 27));

    assert_eq!(states, vec![true, false, false, false, true, false]);
}

#[test]
fn get_pin_output_depends_on_pull_up_if_output_disabled() {
    const PB27: u32 = 1 << 27;
    let mut pio = ParallelIoController::new(EmptyPioDevice::new());
    let mut states = Vec::new();

    states.push(pio.get_pin_output(Controller::PB, 27));
    pio.set32_aligned(0x400E1060, PB27).unwrap(); // Pull-up Disable Register (PUDR)
    states.push(pio.get_pin_output(Controller::PB, 27));

    assert_eq!(states, vec![true, false]);
}

#[test]
fn spi_output_pins_enabled_ok() {
    const PIOA_DISABLE_REGISTER: u32 = 0x400E0E04;
    let mut pio = ParallelIoController::new(EmptyPioDevice::new());
    pio.set32_aligned(PIOA_DISABLE_REGISTER, 0xFFFFFFFF).unwrap();

    assert!(pio.spi_output_pins_enabled());
}

#[test]
fn spi_output_pins_enabled_pio_enabled() {
    const PIOA_DISABLE_REGISTER: u32 = 0x400E0E04;
    const ENABLE_REGISTER: u32 = 0x400E0E00;
    let mut pio = ParallelIoController::new(EmptyPioDevice::new());
    pio.set32_aligned(PIOA_DISABLE_REGISTER, 0xFFFFFFFF).unwrap();

    pio.set32_aligned(ENABLE_REGISTER, 1 << 25).unwrap();

    assert!(!pio.spi_output_pins_enabled());
}

#[test]
fn spi_output_pins_enabled_pullup_disabled() {
    const PIOA_DISABLE_REGISTER: u32 = 0x400E0E04;
    const PULL_UP_DISABLE_REGISTER: u32 = 0x400E0E60;
    let mut pio = ParallelIoController::new(EmptyPioDevice::new());
    pio.set32_aligned(PIOA_DISABLE_REGISTER, 0xFFFFFFFF).unwrap();

    pio.set32_aligned(PULL_UP_DISABLE_REGISTER, 1 << 26).unwrap();

    assert!(!pio.spi_output_pins_enabled());
}

#[test]
fn spi_output_pins_enabled_peripheral_b_selected() {
    const PIOA_DISABLE_REGISTER: u32 = 0x400E0E04;
    const AB_SELECT_REGISTER: u32 = 0x400E0E70;
    let mut pio = ParallelIoController::new(EmptyPioDevice::new());
    pio.set32_aligned(PIOA_DISABLE_REGISTER, 0xFFFFFFFF).unwrap();

    pio.set32_aligned(AB_SELECT_REGISTER, 1 << 27).unwrap();

    assert!(!pio.spi_output_pins_enabled());
}

#[test]
fn usart_input_pins_enabled_ok() {
    const PIOA_ENABLE_REGISTER: u32 = 0x400E0E00;
    let mut pio = ParallelIoController::new(EmptyPioDevice::new());
    pio.set32_aligned(PIOA_ENABLE_REGISTER, 0xFFFFFFFF).unwrap();

    assert!(pio.usart_input_pins_enabled());
}

#[test]
fn usart_input_pins_enabled_pio_enabled() {
    const PIOA_ENABLE_REGISTER: u32 = 0x400E0E00;
    const OUTPUT_ENABLE_REGISTER: u32 = 0x400E0E10;
    let mut pio = ParallelIoController::new(EmptyPioDevice::new());
    pio.set32_aligned(PIOA_ENABLE_REGISTER, 0xFFFFFFFF).unwrap();
    pio.set32_aligned(OUTPUT_ENABLE_REGISTER, 1 << 17).unwrap();

    assert!(!pio.usart_input_pins_enabled());
}

#[test]
fn usart_input_pins_enabled_pullup_disabled() {
    const PIOA_DISABLE_REGISTER: u32 = 0x400E0E04;
    const AB_SELECT_REGISTER: u32 = 0x400E0E70;
    const PULL_UP_DISABLE_REGISTER: u32 = 0x400E0E60;
    let mut pio = ParallelIoController::new(EmptyPioDevice::new());
    pio.set32_aligned(PIOA_DISABLE_REGISTER, 0xFFFFFFFF).unwrap();
    pio.set32_aligned(AB_SELECT_REGISTER, 1 << 17).unwrap();

    pio.set32_aligned(PULL_UP_DISABLE_REGISTER, 1 << 17).unwrap();

    assert!(!pio.usart_input_pins_enabled());
}

#[test]
fn pio_device_pin_state_changed() {
    const PB27: u32 = 1 << 27;
    let mut pio = ParallelIoController::new(LogPioDevice::default());

    pio.set32_aligned(0x400E1010, PB27).unwrap(); // Output Enable Register (OER)
                                         // State changed to LOW.
    pio.set32_aligned(0x400E1060, PB27).unwrap(); // Pull-up Disable Register (PUDR)
    pio.set32_aligned(0x400E1030, PB27).unwrap(); // Set Output Data Register (SODR)
    pio.set32_aligned(0x400E1000, PB27).unwrap(); // PIO Enable Register (PER)
                                         // State changed to HIGH.
    pio.set32_aligned(0x400E1034, PB27).unwrap(); // Clear Output Data Register (CODR)
                                         // State changed to LOW.

    assert_eq!(pio.get_pio_device().states, vec![false, true, false]);
}

#[test]
fn pio_reset() {
    const PIOB_STATUS_REGISTER: u32 = 0x400E1008;
    const PIOB_AB_SELECT_REGISTER: u32 = 0x400E1070;
    let mut pio = ParallelIoController::new(EmptyPioDevice::new());
    pio.registers[(PIOB_STATUS_REGISTER - PIO_CONTROLLER_BEGIN) as usize / 4].value = 123;
    pio.registers[(PIOB_AB_SELECT_REGISTER - PIO_CONTROLLER_BEGIN) as usize / 4].value = 456;

    pio.reset();

    assert_eq!(pio.get32_aligned(PIOB_STATUS_REGISTER), 0x0FFFFFFF);
    assert_eq!(pio.get32_aligned(PIOB_AB_SELECT_REGISTER), 0);
}
