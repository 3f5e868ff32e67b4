use vstd::prelude::*;
use crate::fault::Fault;

verus! {

pub const PM_CONTROLLER_BEGIN: u32 = 0x400E0600;

pub const PM_CONTROLLER_END: u32 = 0x400E0710;

pub const PM_CONTROLLER_LAST: u32 = PM_CONTROLLER_END - 1;

pub const PERIPHERAL_CLOCK_ENABLE_REGISTER_0: u32 = 0x400E0610;

pub const PERIPHERAL_CLOCK_DISABLE_REGISTER_0: u32 = 0x400E0614;

pub const PERIPHERAL_CLOCK_STATUS_REGISTER_0: u32 = 0x400E0618;

pub const MAIN_OSCILLATOR_REGISTER: u32 = 0x400E0620;

pub const PLLA_REGISTER: u32 = 0x400E0628;

pub const MASTER_CLOCK_REGISTER: u32 = 0x400E0630;

pub const STATUS_REGISTER: u32 = 0x400E0668;

// Peripheral Clock Status bits.
pub const PERIPHERAL_CLOCK_STATUS_BITS: u32 = 0xFFFFFFFC;

// Main Oscillator Register bits.
pub const MAIN_OSCILLATOR_KEY_MASK: u32 = 0x00FF0000;

pub const MAIN_OSCILLATOR_KEY: u32 = 0x00370000;

pub const MAIN_OSCILLATOR_BITS: u32 = 0x0300FF7B;

// PLLA Register used bits.
pub const PLLA_BITS: u32 = 0x07FF3FFF;

// Master Clock Register used bits.
pub const MASTER_CLOCK_BITS: u32 = 0x3073;

// Status Register flags.
pub const MAIN_CRYSTAL_OSCILLATOR_STABILIZED: u32 = 1;

pub const PPLA_LOCKED: u32 = 2;

pub const MASTER_CLOCK_READY: u32 = 8;

pub const MAIN_OSCILLATOR_SELECTION_DONE: u32 = 0x10000;

pub const MAIN_ON_CHIP_OSCILLATOR_STABILIZED: u32 = 0x20000;

/// The value of the status register: all the clocks are always ready.
pub const STATUS_VALUE: u32 = 0x3000B;

/// The SPI peripheral identifier (see section 9.1 Peripheral Identifiers).
pub const SPI_ID: u32 = 24;

/// The USART0 peripheral identifier (see section 9.1 Peripheral Identifiers).
pub const USART0_ID: u32 = 17;

/// The Power Managemenet Controller. See section 28, p526 of the Atmel SAM3X Datasheet.
/// This implementation does not support interrupts.
pub struct PowerManagementController {
    pub main_oscillator: u32,
    pub plla: u32,
    pub master_clock: u32,
    pub peripheral_clock_status0: u32,
}

impl PowerManagementController {
    /// The state after a reset.
    pub open spec fn initial() -> Self {
        Self { main_oscillator: 1, plla: 0x3F00, master_clock: 1, peripheral_clock_status0: 0 }
    }

    pub fn new() -> (r: Self)
        ensures
            r == Self::initial(),
    {
        Self { main_oscillator: 0x1, plla: 0x3F00, master_clock: 0x1, peripheral_clock_status0: 0x0 }
    }

    /// Whether `address` is a register that can be read.
    pub fn supports_read(&self, address: u32) -> (r: bool)
        ensures
            r == self.read_value(address) is Ok,
    {
        address == PERIPHERAL_CLOCK_ENABLE_REGISTER_0 || address
            == PERIPHERAL_CLOCK_DISABLE_REGISTER_0 || address == PERIPHERAL_CLOCK_STATUS_REGISTER_0
            || address == MAIN_OSCILLATOR_REGISTER || address == PLLA_REGISTER || address
            == MASTER_CLOCK_REGISTER || address == STATUS_REGISTER
    }

    /// The value read from the register at `address`.
    pub open spec fn read_value(self, address: u32) -> Result<u32, Fault> {
        if address == PERIPHERAL_CLOCK_ENABLE_REGISTER_0 || address
            == PERIPHERAL_CLOCK_DISABLE_REGISTER_0 {
            Ok(0u32)
        } else if address == PERIPHERAL_CLOCK_STATUS_REGISTER_0 {
            Ok(self.peripheral_clock_status0)
        } else if address == MAIN_OSCILLATOR_REGISTER {
            Ok(self.main_oscillator)
        } else if address == PLLA_REGISTER {
            Ok(self.plla)
        } else if address == MASTER_CLOCK_REGISTER {
            Ok(self.master_clock)
        } else if address == STATUS_REGISTER {
            Ok(STATUS_VALUE)
        } else {
            Err(Fault::UnsupportedRegister(address))
        }
    }

    pub fn get32_aligned(&self, address: u32) -> (r: Result<u32, Fault>)
        requires
            self.read_value(address) is Ok,
            address % 4 == 0,
        ensures
            r == self.read_value(address),
    {
        if address == PERIPHERAL_CLOCK_ENABLE_REGISTER_0 || address
            == PERIPHERAL_CLOCK_DISABLE_REGISTER_0 {
            Ok(0)
        } else if address == PERIPHERAL_CLOCK_STATUS_REGISTER_0 {
            Ok(self.peripheral_clock_status0)
        } else if address == MAIN_OSCILLATOR_REGISTER {
            Ok(self.main_oscillator)
        } else if address == PLLA_REGISTER {
            Ok(self.plla)
        } else if address == MASTER_CLOCK_REGISTER {
            Ok(self.master_clock)
        } else if address == STATUS_REGISTER {
            let value = MAIN_CRYSTAL_OSCILLATOR_STABILIZED | PPLA_LOCKED | MASTER_CLOCK_READY
                | MAIN_OSCILLATOR_SELECTION_DONE | MAIN_ON_CHIP_OSCILLATOR_STABILIZED;
            assert(value == STATUS_VALUE) by (bit_vector)
                requires
                    value == 1u32 | 2u32 | 8u32 | 0x10000u32 | 0x20000u32,
            ;
            Ok(value)
        } else {
            Err(Fault::UnsupportedRegister(address))
        }
    }

    /// The result of writing `value` at `address`.
    pub open spec fn write_result(address: u32, value: u32) -> Result<(), Fault> {
        if address == PERIPHERAL_CLOCK_ENABLE_REGISTER_0 || address
            == PERIPHERAL_CLOCK_DISABLE_REGISTER_0 || address == PERIPHERAL_CLOCK_STATUS_REGISTER_0
            || address == MAIN_OSCILLATOR_REGISTER || address == MASTER_CLOCK_REGISTER {
            Ok(())
        } else if address == PLLA_REGISTER {
            // Bit 29 must be set.
            if value & 0x20000000 == 0 {
                Err(Fault::UnsupportedValue(address, value))
            } else {
                Ok(())
            }
        } else {
            Err(Fault::UnsupportedRegister(address))
        }
    }

    /// The state after writing `value` at `address`.
    pub open spec fn after_write(self, address: u32, value: u32) -> Self {
        if address == PERIPHERAL_CLOCK_ENABLE_REGISTER_0 {
            Self {
                peripheral_clock_status0: self.peripheral_clock_status0 | (value
                    & PERIPHERAL_CLOCK_STATUS_BITS),
                ..self
            }
        } else if address == PERIPHERAL_CLOCK_DISABLE_REGISTER_0 {
            Self { peripheral_clock_status0: self.peripheral_clock_status0 & !value, ..self }
        } else if address == MAIN_OSCILLATOR_REGISTER && value & MAIN_OSCILLATOR_KEY_MASK
            == MAIN_OSCILLATOR_KEY {
            Self { main_oscillator: value & MAIN_OSCILLATOR_BITS, ..self }
        } else if address == PLLA_REGISTER && value & 0x20000000 != 0 {
            Self { plla: value & PLLA_BITS, ..self }
        } else if address == MASTER_CLOCK_REGISTER {
            Self { master_clock: value & MASTER_CLOCK_BITS, ..self }
        } else {
            self
        }
    }

    /// Checks a write of `value` at `address`: a PLLA value without bit 29, or an unknown
    /// register, is refused.
    pub fn check_write(address: u32, value: u32) -> (r: Result<(), Fault>)
        ensures
            r == Self::write_result(address, value),
    {
        if address == PERIPHERAL_CLOCK_ENABLE_REGISTER_0 || address
            == PERIPHERAL_CLOCK_DISABLE_REGISTER_0 || address == PERIPHERAL_CLOCK_STATUS_REGISTER_0
            || address == MAIN_OSCILLATOR_REGISTER || address == MASTER_CLOCK_REGISTER {
            Ok(())
        } else if address == PLLA_REGISTER {
            if value & 0x20000000 == 0 {
                Err(Fault::UnsupportedValue(address, value))
            } else {
                Ok(())
            }
        } else {
            Err(Fault::UnsupportedRegister(address))
        }
    }

    /// Writes the supported `value` at `address` (see `check_write`).
    pub fn set32_aligned(&mut self, address: u32, value: u32) -> (r: Result<(), Fault>)
        requires
            address % 4 == 0,
            Self::write_result(address, value) is Ok,
        ensures
            r == Ok::<(), Fault>(()),
            r == Self::write_result(address, value),
            *final(self) == old(self).after_write(address, value),
    {
        if address == PERIPHERAL_CLOCK_ENABLE_REGISTER_0 {
            self.peripheral_clock_status0 = self.peripheral_clock_status0 | (value
                & PERIPHERAL_CLOCK_STATUS_BITS);
        } else if address == PERIPHERAL_CLOCK_DISABLE_REGISTER_0 {
            self.peripheral_clock_status0 = self.peripheral_clock_status0 & !value;
        } else if address == PERIPHERAL_CLOCK_STATUS_REGISTER_0 {
        } else if address == MAIN_OSCILLATOR_REGISTER {
            if value & MAIN_OSCILLATOR_KEY_MASK == MAIN_OSCILLATOR_KEY {
                self.main_oscillator = value & MAIN_OSCILLATOR_BITS;
            }
        } else if address == PLLA_REGISTER {
            if value & 0x20000000 == 0 {
                return Err(Fault::UnsupportedValue(address, value));
            }
            self.plla = value & PLLA_BITS;
        } else if address == MASTER_CLOCK_REGISTER {
            self.master_clock = value & MASTER_CLOCK_BITS;
        } else {
            return Err(Fault::UnsupportedRegister(address));
        }
        Ok(())
    }

    /// Whether the clock of the peripheral `id` is enabled.
    pub open spec fn clock_enabled(self, id: u32) -> bool {
        self.peripheral_clock_status0 & (1u32 << id) != 0
    }

    pub fn spi_clock_enabled(&self) -> (r: bool)
        ensures
            r == self.clock_enabled(SPI_ID),
    {
        self.peripheral_clock_status0 & (1u32 << SPI_ID) != 0
    }

    pub fn usart_clock_enabled(&self) -> (r: bool)
        ensures
            r == self.clock_enabled(USART0_ID),
    {
        self.peripheral_clock_status0 & (1u32 << USART0_ID) != 0
    }

    pub fn reset(&mut self)
        ensures
            *final(self) == Self::initial(),
    {
        *self = Self::new();
    }
}

} // verus!
