use emulator::spi::{SerialPeripheralInterfaceController, SpiDevice, CHIP_SELECT0_REGISTER, CONTROL_REGISTER, MASTER_SLAVE_MODE, MODE_REGISTER, OVERRUN_ERROR_STATUS, RECEIVE_DATA_REGISTER, RECEIVE_DATA_REGISTER_FULL, SPI_DISABLE, SPI_ENABLE, SPI_ENABLE_STATUS, SPI_SOFTWARE_RESET, STATUS_REGISTER, TRANSMIT_DATA_REGISTER, TRANSMIT_DATA_REGISTER_EMPTY};

use emulator::fault::Fault;

/// A device which answers each data with the next integer, or which never answers.
pub struct TestSpiDevice {
    increment: bool,
}

impl SpiDevice for TestSpiDevice {
    fn data_received(&mut self, data: u32, _chip_select: u32) -> Result<Option<u32>, Fault> {
        if self.increment {
            Ok(Some(data + 1))
        } else {
            Ok(None)
        }
    }
}

#[test]
fn spi_get_set_spi_device() {
    let mut spi = SerialPeripheralInterfaceController::new(TestSpiDevice { increment: false });

    spi.set_spi_device(TestSpiDevice { increment: true });
    let spi_device = spi.get_spi_device();

    assert!(spi_device.increment);
}

#[test]
fn spi_get32_aligned() {
    let mut spi = SerialPeripheralInterfaceController::new(TestSpiDevice { increment: false });
    spi.mode = 123;
    spi.received_data = 789;
    spi.status = 0x45600 | OVERRUN_ERROR_STATUS | RECEIVE_DATA_REGISTER_FULL;
    spi.chip_select0 = 0xABC;

    assert_eq!(spi.get32_aligned(CONTROL_REGISTER).unwrap(), 0);
    assert_eq!(spi.get32_aligned(MODE_REGISTER).unwrap(), 123);
    assert_eq!(spi.get32_aligned(STATUS_REGISTER).unwrap(), 0x45609);
    assert_eq!(spi.get32_aligned(STATUS_REGISTER).unwrap(), 0x45601);
    assert_eq!(spi.get32_aligned(RECEIVE_DATA_REGISTER).unwrap(), 789);
    assert_eq!(spi.get32_aligned(STATUS_REGISTER).unwrap(), 0x45600);
    assert_eq!(spi.get32_aligned(TRANSMIT_DATA_REGISTER).unwrap(), 0);
    assert_eq!(spi.get32_aligned(CHIP_SELECT0_REGISTER).unwrap(), 0xABC);
}

#[test]
fn set32_aligned_control_spi_enable_clock_enabled() {
    let mut spi = SerialPeripheralInterfaceController::new(TestSpiDevice { increment: false });
    spi.status = RECEIVE_DATA_REGISTER_FULL;

    spi.set32_aligned(CONTROL_REGISTER, SPI_ENABLE, true, false).unwrap();

    assert_eq!(
        spi.status,
        RECEIVE_DATA_REGISTER_FULL | SPI_ENABLE_STATUS | TRANSMIT_DATA_REGISTER_EMPTY
    );
}

#[test]
fn set32_aligned_control_spi_enable_clock_disabled() {
    let mut spi = SerialPeripheralInterfaceController::new(TestSpiDevice { increment: false });
    spi.status = RECEIVE_DATA_REGISTER_FULL;

    spi.set32_aligned(CONTROL_REGISTER, SPI_ENABLE, false, false).unwrap();

    assert_eq!(spi.status, RECEIVE_DATA_REGISTER_FULL);
}

#[test]
fn set32_aligned_control_spi_disable() {
    let mut spi = SerialPeripheralInterfaceController::new(TestSpiDevice { increment: false });
    spi.status = SPI_ENABLE_STATUS | RECEIVE_DATA_REGISTER_FULL;

    spi.set32_aligned(CONTROL_REGISTER, SPI_ENABLE | SPI_DISABLE, false, false).unwrap();

    assert_eq!(spi.status, 0);
}

#[test]
fn set32_aligned_control_software_reset() {
    let mut spi = SerialPeripheralInterfaceController::new(TestSpiDevice { increment: false });
    spi.mode = 123;
    spi.received_data = 456;
    spi.status = 789;
    spi.chip_select0 = 123456;
    spi.spi_device = TestSpiDevice { increment: true };

    spi.set32_aligned(CONTROL_REGISTER, SPI_SOFTWARE_RESET, false, false).unwrap();

    assert_eq!(spi.mode, 0);
    assert_eq!(spi.received_data, 0);
    assert_eq!(spi.status, 0);
    assert_eq!(spi.chip_select0, 0);
}

#[test]
fn spi_set32_aligned_mode() {
    let mut spi = SerialPeripheralInterfaceController::new(TestSpiDevice { increment: false });

    spi.set32_aligned(MODE_REGISTER, 0xFFF00011, false, false).unwrap();

    assert_eq!(spi.mode, 0xFF000011);
}

#[test]
fn set32_aligned_receive_data() {
    let mut spi = SerialPeripheralInterfaceController::new(TestSpiDevice { increment: false });

    spi.set32_aligned(RECEIVE_DATA_REGISTER, 123, true, true).unwrap();

    assert_eq!(spi.received_data, 0);
}

#[test]
fn set32_aligned_transmit_data_disabled() {
    let mut spi = SerialPeripheralInterfaceController::new(TestSpiDevice { increment: false });
    spi.mode = MASTER_SLAVE_MODE;
    spi.spi_device = TestSpiDevice { increment: true };

    spi.set32_aligned(TRANSMIT_DATA_REGISTER, 123, true, true).unwrap();

    assert_eq!(spi.received_data, 0);
    assert_eq!(spi.status, 0);
}

#[test]
fn set32_aligned_transmit_data_output_disabled() {
    let mut spi = SerialPeripheralInterfaceController::new(TestSpiDevice { increment: false });
    spi.mode = MASTER_SLAVE_MODE;
    spi.status = SPI_ENABLE_STATUS;
    spi.spi_device = TestSpiDevice { increment: true };

    spi.set32_aligned(TRANSMIT_DATA_REGISTER, 123, true, false).unwrap();

    assert_eq!(spi.received_data, 0);
    assert_eq!(spi.status, SPI_ENABLE_STATUS);
}

#[test]
fn set32_aligned_transmit_data_slave_mode() {
    let mut spi = SerialPeripheralInterfaceController::new(TestSpiDevice { increment: false });
    spi.status = SPI_ENABLE_STATUS;
    spi.spi_device = TestSpiDevice { increment: true };

    spi.set32_aligned(TRANSMIT_DATA_REGISTER, 123, true, true).unwrap();

    assert_eq!(spi.received_data, 0);
    assert_eq!(spi.status, SPI_ENABLE_STATUS);
}

#[test]
fn set32_aligned_transmit_data_no_response() {
    let mut spi = SerialPeripheralInterfaceController::new(TestSpiDevice { increment: false });
    spi.mode = MASTER_SLAVE_MODE;
    spi.status = SPI_ENABLE_STATUS;

    spi.set32_aligned(TRANSMIT_DATA_REGISTER, 123, true, true).unwrap();

    assert_eq!(spi.received_data, 0);
    assert_eq!(spi.status, SPI_ENABLE_STATUS);
}

#[test]
fn set32_aligned_transmit_data_ok() {
    let mut spi = SerialPeripheralInterfaceController::new(TestSpiDevice { increment: false });
    spi.mode = MASTER_SLAVE_MODE;
    spi.status = SPI_ENABLE_STATUS;
    spi.spi_device = TestSpiDevice { increment: true };

    spi.set32_aligned(TRANSMIT_DATA_REGISTER, 123, true, true).unwrap();

    assert_eq!(spi.received_data, 124);
    assert_eq!(spi.status, SPI_ENABLE_STATUS | RECEIVE_DATA_REGISTER_FULL);
}

#[test]
fn set32_aligned_transmit_data_overrun() {
    let mut spi = SerialPeripheralInterfaceController::new(TestSpiDevice { increment: false });
    spi.mode = MASTER_SLAVE_MODE;
    spi.received_data = 456;
    spi.status = SPI_ENABLE_STATUS | RECEIVE_DATA_REGISTER_FULL;
    spi.spi_device = TestSpiDevice { increment: true };

    spi.set32_aligned(TRANSMIT_DATA_REGISTER, 123, true, true).unwrap();

    assert_eq!(spi.received_data, 124);
    assert_eq!(
        spi.status,
        SPI_ENABLE_STATUS | RECEIVE_DATA_REGISTER_FULL | OVERRUN_ERROR_STATUS
    );
}

#[test]
fn spi_set32_aligned_status() {
    let mut spi = SerialPeripheralInterfaceController::new(TestSpiDevice { increment: false });

    spi.set32_aligned(STATUS_REGISTER, 123, true, true).unwrap();

    assert_eq!(spi.status, 0);
}

#[test]
fn set32_aligned_chip_select0() {
    let mut spi = SerialPeripheralInterfaceController::new(TestSpiDevice { increment: false });

    spi.set32_aligned(CHIP_SELECT0_REGISTER, 123, true, true).unwrap();

    assert_eq!(spi.chip_select0, 123);
}

#[test]
fn spi_reset() {
    let mut spi = SerialPeripheralInterfaceController::new(TestSpiDevice { increment: false });
    spi.mode = 123;
    spi.received_data = 456;
    spi.status = 789;
    spi.chip_select0 = 123456;
    spi.spi_device = TestSpiDevice { increment: true };

    spi.reset();

    assert_eq!(spi.mode, 0);
    assert_eq!(spi.received_data, 0);
    assert_eq!(spi.status, 0);
    assert_eq!(spi.chip_select0, 0);
    assert!(spi.spi_device.increment);
}
