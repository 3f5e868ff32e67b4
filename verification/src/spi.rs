use vstd::prelude::*;
use crate::fault::Fault;

verus! {

pub const SPI_CONTROLLER_BEGIN: u32 = 0x40008000;

pub const SPI_CONTROLLER_END: u32 = 0x40008100;

pub const SPI_CONTROLLER_LAST: u32 = SPI_CONTROLLER_END - 1;

pub const CONTROL_REGISTER: u32 = 0x40008000;

pub const MODE_REGISTER: u32 = 0x40008004;

pub const RECEIVE_DATA_REGISTER: u32 = 0x40008008;

pub const TRANSMIT_DATA_REGISTER: u32 = 0x4000800C;

pub const STATUS_REGISTER: u32 = 0x40008010;

pub const CHIP_SELECT0_REGISTER: u32 = 0x40008030;

// Control Register flags.
pub const SPI_ENABLE: u32 = 0x01;

pub const SPI_DISABLE: u32 = 0x02;

pub const SPI_SOFTWARE_RESET: u32 = 0x80;

// Mode Register flags.
pub const MASTER_SLAVE_MODE: u32 = 0x01;

pub const PERIPHERAL_SELECT: u32 = 0x02;

pub const CHIP_SELECT_DECODE: u32 = 0x04;

pub const PERIPHERAL_CHIP_SELECT: u32 = 0xF0000;

pub const MODE_BITS: u32 = 0xFF0F00B7;

// Status Register flags.
pub const RECEIVE_DATA_REGISTER_FULL: u32 = 0x01;

pub const TRANSMIT_DATA_REGISTER_EMPTY: u32 = 0x02;

pub const OVERRUN_ERROR_STATUS: u32 = 0x08;

pub const SPI_ENABLE_STATUS: u32 = 0x10000;

/// An external device which can be connected to the Serial Peripheral Interface of the
/// micro-controller. This implementation only supports master mode, with a fixed peripheral
/// select, without chip select decode, and for chip 0 only. It does not support interrupts.
pub trait SpiDevice: Sized {
    /// Whether this device is in a consistent state (always, unless an implementation says
    /// otherwise).
    open spec fn spi_inv(&self) -> bool {
        true
    }

    /// The response of this device to `data` (unknown unless an implementation defines it).
    open spec fn spi_response(&self, data: u32, chip_select: u32) -> Result<Option<u32>, Fault> {
        arbitrary()
    }

    /// The state of this device after it received `data` (unknown unless an implementation
    /// defines it).
    open spec fn spi_next(&self, data: u32, chip_select: u32) -> Self {
        arbitrary()
    }

    /// Receives data transmitted from the micro-controller and returns the data to send back, if
    /// any, or the reason why the device can't handle this data.
    fn data_received(&mut self, data: u32, chip_select: u32) -> (r: Result<Option<u32>, Fault>)
        requires
            old(self).spi_inv(),
        ensures
            final(self).spi_inv(),
            r == old(self).spi_response(data, chip_select),
            *final(self) == old(self).spi_next(data, chip_select),
    ;
}

/// An empty SPI device, which does nothing and does not send responses to received requests.
pub struct EmptySpiDevice {}

impl EmptySpiDevice {
    pub fn new() -> (r: Self)
        ensures
            r == (EmptySpiDevice {}),
    {
        EmptySpiDevice {  }
    }
}

impl Default for EmptySpiDevice {
    fn default() -> (r: Self) {
        EmptySpiDevice {  }
    }
}

impl SpiDevice for EmptySpiDevice {
    open spec fn spi_response(&self, data: u32, chip_select: u32) -> Result<Option<u32>, Fault> {
        Ok(None)
    }

    open spec fn spi_next(&self, data: u32, chip_select: u32) -> Self {
        *self
    }

    fn data_received(&mut self, _data: u32, _chip_select: u32) -> (r: Result<Option<u32>, Fault>) {
        Ok(None)
    }
}

/// The Serial Peripheral Interface (SPI0). See section 32, p676 of the Atmel SAM3X Datasheet.
pub struct SerialPeripheralInterfaceController<S: SpiDevice> {
    pub mode: u32,
    pub received_data: u32,
    pub status: u32,
    pub chip_select0: u32,
    pub spi_device: S,
}

impl<S: SpiDevice> SerialPeripheralInterfaceController<S> {
    pub fn new(spi_device: S) -> (r: Self)
        ensures
            r.mode == 0 && r.received_data == 0 && r.status == 0 && r.chip_select0 == 0,
            r.spi_device == spi_device,
    {
        Self { mode: 0, received_data: 0, status: 0, chip_select0: 0, spi_device }
    }

    pub fn get_spi_device(&self) -> (r: &S)
        ensures
            *r == self.spi_device,
    {
        &self.spi_device
    }

    pub fn set_spi_device(&mut self, spi_device: S)
        ensures
            *final(self) == (Self { spi_device, ..*old(self) }),
    {
        self.spi_device = spi_device;
    }

    /// Whether `address` is a register that can be read.
    pub fn supports_read(&self, address: u32) -> (r: bool)
        ensures
            r == self.read_value(address) is Ok,
    {
        address == CONTROL_REGISTER || address == TRANSMIT_DATA_REGISTER || address == MODE_REGISTER
            || address == RECEIVE_DATA_REGISTER || address == STATUS_REGISTER || address
            == CHIP_SELECT0_REGISTER
    }

    /// The value read from the register at `address`.
    pub open spec fn read_value(self, address: u32) -> Result<u32, Fault> {
        if address == CONTROL_REGISTER || address == TRANSMIT_DATA_REGISTER {
            Ok(0u32)
        } else if address == MODE_REGISTER {
            Ok(self.mode)
        } else if address == RECEIVE_DATA_REGISTER {
            Ok(self.received_data)
        } else if address == STATUS_REGISTER {
            Ok(self.status)
        } else if address == CHIP_SELECT0_REGISTER {
            Ok(self.chip_select0)
        } else {
            Err(Fault::UnsupportedRegister(address))
        }
    }

    /// The state after reading the register at `address`: reading the received data clears
    /// the receive data register full flag, and reading the status clears the overrun error.
    pub open spec fn after_read(self, address: u32) -> Self {
        if address == RECEIVE_DATA_REGISTER {
            Self { status: self.status & !RECEIVE_DATA_REGISTER_FULL, ..self }
        } else if address == STATUS_REGISTER {
            Self { status: self.status & !OVERRUN_ERROR_STATUS, ..self }
        } else {
            self
        }
    }

    pub fn get32_aligned(&mut self, address: u32) -> (r: Result<u32, Fault>)
        requires
            old(self).read_value(address) is Ok,
            address % 4 == 0,
        ensures
            r == old(self).read_value(address),
            *final(self) == old(self).after_read(address),
    {
        if address == CONTROL_REGISTER || address == TRANSMIT_DATA_REGISTER {
            Ok(0)
        } else if address == MODE_REGISTER {
            Ok(self.mode)
        } else if address == RECEIVE_DATA_REGISTER {
            self.status = self.status & !RECEIVE_DATA_REGISTER_FULL;
            Ok(self.received_data)
        } else if address == STATUS_REGISTER {
            let result = self.status;
            self.status = self.status & !OVERRUN_ERROR_STATUS;
            Ok(result)
        } else if address == CHIP_SELECT0_REGISTER {
            Ok(self.chip_select0)
        } else {
            Err(Fault::UnsupportedRegister(address))
        }
    }

    /// Whether data written in the transmit register is sent to the device: the output pins, the
    /// SPI and the master mode must be enabled.
    pub open spec fn transmits(self, output_enabled: bool) -> bool {
        output_enabled && self.status & SPI_ENABLE_STATUS != 0 && self.mode & MASTER_SLAVE_MODE
            != 0
    }

    /// The state and the result of writing `value` at `address`, when the SPI clock is enabled
    /// or not, and when the SPI output pins are enabled or not.
    pub open spec fn write(
        self,
        address: u32,
        value: u32,
        clock_enabled: bool,
        output_enabled: bool,
    ) -> (Self, Result<(), Fault>) {
        if address == CONTROL_REGISTER {
            let status = if value & SPI_DISABLE != 0 {
                0
            } else if value & SPI_ENABLE != 0 && clock_enabled {
                self.status | SPI_ENABLE_STATUS | TRANSMIT_DATA_REGISTER_EMPTY
            } else {
                self.status
            };
            if value & SPI_SOFTWARE_RESET != 0 {
                (Self { mode: 0, status: 0, received_data: 0, chip_select0: 0, ..self }, Ok(()))
            } else {
                (Self { status, ..self }, Ok(()))
            }
        } else if address == MODE_REGISTER {
            if value & (PERIPHERAL_SELECT | CHIP_SELECT_DECODE | PERIPHERAL_CHIP_SELECT) != 0 {
                (self, Err(Fault::UnsupportedValue(address, value)))
            } else {
                (Self { mode: value & MODE_BITS, ..self }, Ok(()))
            }
        } else if address == RECEIVE_DATA_REGISTER || address == STATUS_REGISTER {
            (self, Ok(()))
        } else if address == TRANSMIT_DATA_REGISTER {
            if !self.transmits(output_enabled) {
                (self, Ok(()))
            } else {
                let device = self.spi_device.spi_next(value, self.chip_select0);
                match self.spi_device.spi_response(value, self.chip_select0) {
                    Err(e) => (Self { spi_device: device, ..self }, Err(e)),
                    Ok(None) => (Self { spi_device: device, ..self }, Ok(())),
                    Ok(Some(data)) => {
                        let status = if self.status & RECEIVE_DATA_REGISTER_FULL != 0 {
                            self.status | OVERRUN_ERROR_STATUS | RECEIVE_DATA_REGISTER_FULL
                        } else {
                            self.status | RECEIVE_DATA_REGISTER_FULL
                        };
                        (
                            Self { spi_device: device, received_data: data, status, ..self },
                            Ok(()),
                        )
                    },
                }
            }
        } else if address == CHIP_SELECT0_REGISTER {
            (Self { chip_select0: value, ..self }, Ok(()))
        } else {
            (self, Err(Fault::UnsupportedRegister(address)))
        }
    }

    /// Whether the register write of `value` at `address` is supported: the mode must not
    /// select a peripheral (fixed or decoded), and the register must be known. A transmitted data
    /// can still be refused by the device.
    pub open spec fn register_write_supported(address: u32, value: u32) -> bool {
        &&& address == MODE_REGISTER ==> value & (PERIPHERAL_SELECT | CHIP_SELECT_DECODE
            | PERIPHERAL_CHIP_SELECT) == 0
        &&& address == CONTROL_REGISTER || address == MODE_REGISTER || address
            == RECEIVE_DATA_REGISTER || address == STATUS_REGISTER || address
            == TRANSMIT_DATA_REGISTER || address == CHIP_SELECT0_REGISTER
    }

    /// Checks a register write of `value` at `address` (see `register_write_supported`).
    pub fn check_write(address: u32, value: u32) -> (r: Result<(), Fault>)
        ensures
            r is Ok <==> Self::register_write_supported(address, value),
            r is Err ==> r == Self::write_spec_error(address, value),
    {
        if address == MODE_REGISTER {
            if value & (PERIPHERAL_SELECT | CHIP_SELECT_DECODE | PERIPHERAL_CHIP_SELECT) != 0 {
                return Err(Fault::UnsupportedValue(address, value));
            }
            Ok(())
        } else if address == CONTROL_REGISTER || address == RECEIVE_DATA_REGISTER || address
            == STATUS_REGISTER || address == TRANSMIT_DATA_REGISTER || address
            == CHIP_SELECT0_REGISTER {
            Ok(())
        } else {
            Err(Fault::UnsupportedRegister(address))
        }
    }

    /// The error of an unsupported register write of `value` at `address`.
    pub open spec fn write_spec_error(address: u32, value: u32) -> Result<(), Fault> {
        if address == MODE_REGISTER {
            Err(Fault::UnsupportedValue(address, value))
        } else {
            Err(Fault::UnsupportedRegister(address))
        }
    }

    pub fn set32_aligned(
        &mut self,
        address: u32,
        value: u32,
        clock_enabled: bool,
        output_enabled: bool,
    ) -> (r: Result<(), Fault>)
        requires
            address % 4 == 0,
            Self::register_write_supported(address, value),
            old(self).spi_device.spi_inv(),
        ensures
            final(self).spi_device.spi_inv(),
            (*final(self), r) == old(self).write(address, value, clock_enabled, output_enabled),
    {
        if address == CONTROL_REGISTER {
            if value & SPI_DISABLE != 0 {
                self.status = 0;
            } else if value & SPI_ENABLE != 0 && clock_enabled {
                self.status = self.status | SPI_ENABLE_STATUS | TRANSMIT_DATA_REGISTER_EMPTY;
            }
            if value & SPI_SOFTWARE_RESET != 0 {
                self.reset();
            }
            Ok(())
        } else if address == MODE_REGISTER {
            if value & (PERIPHERAL_SELECT | CHIP_SELECT_DECODE | PERIPHERAL_CHIP_SELECT) != 0 {
                return Err(Fault::UnsupportedValue(address, value));
            }
            self.mode = value & MODE_BITS;
            Ok(())
        } else if address == RECEIVE_DATA_REGISTER || address == STATUS_REGISTER {
            Ok(())
        } else if address == TRANSMIT_DATA_REGISTER {
            if !(output_enabled && (self.status & SPI_ENABLE_STATUS != 0) && (self.mode
                & MASTER_SLAVE_MODE != 0)) {
                return Ok(());
            }
            let received = self.spi_device.data_received(value, self.chip_select0);
            match received {
                Err(e) => Err(e),
                Ok(None) => Ok(()),
                Ok(Some(data)) => {
                    self.received_data = data;
                    if self.status & RECEIVE_DATA_REGISTER_FULL != 0 {
                        self.status = self.status | OVERRUN_ERROR_STATUS;
                    }
                    self.status = self.status | RECEIVE_DATA_REGISTER_FULL;
                    Ok(())
                },
            }
        } else if address == CHIP_SELECT0_REGISTER {
            self.chip_select0 = value;
            Ok(())
        } else {
            Err(Fault::UnsupportedRegister(address))
        }
    }

    pub fn reset(&mut self)
        ensures
            *final(self) == (Self {
                mode: 0,
                status: 0,
                received_data: 0,
                chip_select0: 0,
                ..*old(self)
            }),
    {
        self.mode = 0;
        self.status = 0;
        self.received_data = 0;
        self.chip_select0 = 0;
    }
}

} // verus!
