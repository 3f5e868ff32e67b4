use vstd::prelude::*;
use crate::fault::Fault;

verus! {

pub const UNIVERSAL_RECEIVER_TRANSMITTER_BEGIN: u32 = 0x40098000;

pub const UNIVERSAL_RECEIVER_TRANSMITTER_END: u32 = 0x4009812C;

pub const UNIVERSAL_RECEIVER_TRANSMITTER_LAST: u32 = UNIVERSAL_RECEIVER_TRANSMITTER_END - 1;

pub const CONTROL_REGISTER: u32 = 0x40098000;

pub const MODE_REGISTER: u32 = 0x40098004;

pub const INTERRUPT_ENABLE_REGISTER: u32 = 0x40098008;

pub const INTERRUPT_DISABLE_REGISTER: u32 = 0x4009800C;

pub const INTERRUPT_MASK_REGISTER: u32 = 0x40098010;

pub const CHANNEL_STATUS_REGISTER: u32 = 0x40098014;

pub const RECEIVE_HOLDING_REGISTER: u32 = 0x40098018;

pub const TRANSMIT_HOLDING_REGISTER: u32 = 0x4009801C;

// Control Register flags.
pub const RESET_RECEIVER: u32 = 0x4;

pub const RESET_TRANSMITTER: u32 = 0x8;

pub const RECEIVER_ENABLE: u32 = 0x10;

pub const RECEIVER_DISABLE: u32 = 0x20;

pub const TRANSMITTER_ENABLE: u32 = 0x40;

pub const TRANSMITTER_DISABLE: u32 = 0x80;

pub const RESET_STATUS: u32 = 0x100;

/// The union of the supported Control Register flags.
pub const SUPPORTED_CONTROL_BITS: u32 = 0x1FC;

pub const CONTROL_BITS: u32 = 0x3CFFFC;

// Mode Register used bits (all but bit 27).
pub const MODE_BITS: u32 = 0xF7FFFFFF;

// Interrupt Mask Register flags.
pub const RECEIVER_READY_INTERRUPT: u32 = 1;

// Channel Status Register flags.
pub const RECEIVER_READY: u32 = 1;

pub const TRANSMITTER_READY: u32 = 2;

pub const OVERRUN_ERROR: u32 = 0x20;

pub const RESET_BITS: u32 = 0b00111111000000001110010011100100;

/// The USART0 peripheral identifier, which is also its interrupt number.
pub const PERIPHERAL_ID: u32 = 17;

/// The Universal Synchronous Asynchronous Receiver Transmitter (USART0). See section 35, p769 of
/// the Atmel SAM3X Datasheet. This implementation only supports the receiver part.
pub struct UniversalReceiverTransmitter {
    pub mode: u32,
    pub interrupt_mask: u32,
    pub channel_status: u32,
    pub receiver_enabled: bool,
    pub receive_holding: u32,
    pub transmitter_enabled: bool,
    pub transmit_holding: u32,
}

impl UniversalReceiverTransmitter {
    /// The state after a reset.
    pub open spec fn initial() -> Self {
        Self {
            mode: 0,
            interrupt_mask: 0,
            channel_status: 0,
            receiver_enabled: false,
            receive_holding: 0,
            transmitter_enabled: false,
            transmit_holding: 0,
        }
    }

    pub fn new() -> (r: Self)
        ensures
            r == Self::initial(),
    {
        Self {
            mode: 0,
            interrupt_mask: 0,
            channel_status: 0,
            receiver_enabled: false,
            receive_holding: 0,
            transmitter_enabled: false,
            transmit_holding: 0,
        }
    }

    /// Whether `address` is a register that can be read.
    pub fn supports_read(&self, address: u32) -> (r: bool)
        ensures
            r == self.read_value(address) is Ok,
    {
        address == CONTROL_REGISTER || address == INTERRUPT_ENABLE_REGISTER || address
            == INTERRUPT_DISABLE_REGISTER || address == TRANSMIT_HOLDING_REGISTER || address
            == MODE_REGISTER || address == INTERRUPT_MASK_REGISTER || address
            == CHANNEL_STATUS_REGISTER || address == RECEIVE_HOLDING_REGISTER
    }

    /// The value read from the register at `address`.
    pub open spec fn read_value(self, address: u32) -> Result<u32, Fault> {
        if address == CONTROL_REGISTER || address == INTERRUPT_ENABLE_REGISTER || address
            == INTERRUPT_DISABLE_REGISTER || address == TRANSMIT_HOLDING_REGISTER {
            Ok(0u32)
        } else if address == MODE_REGISTER {
            Ok(self.mode)
        } else if address == INTERRUPT_MASK_REGISTER {
            Ok(self.interrupt_mask)
        } else if address == CHANNEL_STATUS_REGISTER {
            Ok(self.channel_status)
        } else if address == RECEIVE_HOLDING_REGISTER {
            Ok(self.receive_holding)
        } else {
            Err(Fault::UnsupportedRegister(address))
        }
    }

    /// The state after reading the register at `address`: reading the received character
    /// clears it, and clears the receiver ready flag.
    pub open spec fn after_read(self, address: u32) -> Self {
        if address == RECEIVE_HOLDING_REGISTER {
            Self {
                channel_status: self.channel_status & !RECEIVER_READY,
                receive_holding: 0,
                ..self
            }
        } else {
            self
        }
    }

    pub fn get32_aligned(&mut self, address: u32) -> (r: Result<u32, Fault>)
        requires
            old(self).read_value(address) is Ok,
            address % 4 == 0,
        ensures
            r == old(self).read_value(address),
            *final(self) == old(self).after_read(address),
    {
        if address == CONTROL_REGISTER || address == INTERRUPT_ENABLE_REGISTER || address
            == INTERRUPT_DISABLE_REGISTER || address == TRANSMIT_HOLDING_REGISTER {
            Ok(0)
        } else if address == MODE_REGISTER {
            Ok(self.mode)
        } else if address == INTERRUPT_MASK_REGISTER {
            Ok(self.interrupt_mask)
        } else if address == CHANNEL_STATUS_REGISTER {
            Ok(self.channel_status)
        } else if address == RECEIVE_HOLDING_REGISTER {
            let result = self.receive_holding;
            self.channel_status = self.channel_status & !RECEIVER_READY;
            self.receive_holding = 0;
            Ok(result)
        } else {
            Err(Fault::UnsupportedRegister(address))
        }
    }

    /// The result of writing `value` at `address`.
    pub open spec fn write_result(address: u32, value: u32) -> Result<(), Fault> {
        if address == CONTROL_REGISTER {
            if value & SUPPORTED_CONTROL_BITS != value & CONTROL_BITS {
                Err(Fault::UnsupportedValue(address, value))
            } else {
                Ok(())
            }
        } else if address == INTERRUPT_ENABLE_REGISTER {
            if value & !RECEIVER_READY_INTERRUPT != 0 {
                Err(Fault::UnsupportedValue(address, value))
            } else {
                Ok(())
            }
        } else if address == MODE_REGISTER || address == INTERRUPT_DISABLE_REGISTER || address
            == INTERRUPT_MASK_REGISTER || address == CHANNEL_STATUS_REGISTER || address
            == RECEIVE_HOLDING_REGISTER || address == TRANSMIT_HOLDING_REGISTER {
            Ok(())
        } else {
            Err(Fault::UnsupportedRegister(address))
        }
    }

    /// The state after writing the supported `value` into the Control Register.
    pub open spec fn after_control(self, value: u32) -> Self {
        let s1 = if value & RESET_RECEIVER != 0 {
            Self { receive_holding: 0, channel_status: self.channel_status & !RECEIVER_READY, ..self }
        } else {
            self
        };
        let s2 = if value & RESET_TRANSMITTER != 0 {
            Self { transmit_holding: 0, channel_status: s1.channel_status & !TRANSMITTER_READY, ..s1 }
        } else {
            s1
        };
        let s3 = if value & RECEIVER_DISABLE != 0 {
            Self { receiver_enabled: false, ..s2 }
        } else if value & RECEIVER_ENABLE != 0 {
            Self { receiver_enabled: true, ..s2 }
        } else {
            s2
        };
        let s4 = if value & TRANSMITTER_DISABLE != 0 {
            Self { transmitter_enabled: false, ..s3 }
        } else if value & TRANSMITTER_ENABLE != 0 {
            Self { transmitter_enabled: true, ..s3 }
        } else {
            s3
        };
        if value & RESET_STATUS != 0 {
            Self { channel_status: s4.channel_status & !RESET_BITS, ..s4 }
        } else {
            s4
        }
    }

    /// The state after writing `value` at `address`.
    pub open spec fn after_write(self, address: u32, value: u32) -> Self {
        if Self::write_result(address, value) is Err {
            self
        } else if address == CONTROL_REGISTER {
            self.after_control(value)
        } else if address == MODE_REGISTER {
            Self { mode: value & MODE_BITS, ..self }
        } else if address == INTERRUPT_ENABLE_REGISTER {
            Self { interrupt_mask: self.interrupt_mask | value, ..self }
        } else if address == INTERRUPT_DISABLE_REGISTER {
            Self { interrupt_mask: self.interrupt_mask & !value, ..self }
        } else if address == TRANSMIT_HOLDING_REGISTER {
            Self { transmit_holding: value, ..self }
        } else {
            self
        }
    }

    /// Checks a write of `value` at `address`: a control register value with a bit that is not
    /// emulated (outside `SUPPORTED_CONTROL_BITS`), an interrupt other than the receiver ready
    /// one, or an unknown register is refused.
    pub fn check_write(address: u32, value: u32) -> (r: Result<(), Fault>)
        ensures
            r == Self::write_result(address, value),
    {
        if address == CONTROL_REGISTER {
            if value & SUPPORTED_CONTROL_BITS != value & CONTROL_BITS {
                Err(Fault::UnsupportedValue(address, value))
            } else {
                Ok(())
            }
        } else if address == INTERRUPT_ENABLE_REGISTER {
            if value & !RECEIVER_READY_INTERRUPT != 0 {
                Err(Fault::UnsupportedValue(address, value))
            } else {
                Ok(())
            }
        } else if address == MODE_REGISTER || address == INTERRUPT_DISABLE_REGISTER || address
            == INTERRUPT_MASK_REGISTER || address == CHANNEL_STATUS_REGISTER || address
            == RECEIVE_HOLDING_REGISTER || address == TRANSMIT_HOLDING_REGISTER {
            Ok(())
        } else {
            Err(Fault::UnsupportedRegister(address))
        }
    }

    /// Writes the supported `value` at `address` (see `check_write`).
    pub fn set32_aligned(&mut self, address: u32, value: u32) -> (r: Result<(), Fault>)
        requires
            address % 4 == 0,
            Self::write_result(address, value) is Ok,
        ensures
            r == Ok::<(), Fault>(()),
            r == Self::write_result(address, value),
            *final(self) == old(self).after_write(address, value),
    {
        if address == CONTROL_REGISTER {
            if value & SUPPORTED_CONTROL_BITS != value & CONTROL_BITS {
                return Err(Fault::UnsupportedValue(address, value));
            }
            if value & RESET_RECEIVER != 0 {
                self.receive_holding = 0;
                self.channel_status = self.channel_status & !RECEIVER_READY;
            }
            if value & RESET_TRANSMITTER != 0 {
                self.transmit_holding = 0;
                self.channel_status = self.channel_status & !TRANSMITTER_READY;
            }
            if value & RECEIVER_DISABLE != 0 {
                self.receiver_enabled = false;
            } else if value & RECEIVER_ENABLE != 0 {
                self.receiver_enabled = true;
            }
            if value & TRANSMITTER_DISABLE != 0 {
                self.transmitter_enabled = false;
            } else if value & TRANSMITTER_ENABLE != 0 {
                self.transmitter_enabled = true;
            }
            if value & RESET_STATUS != 0 {
                self.channel_status = self.channel_status & !RESET_BITS;
            }
        } else if address == MODE_REGISTER {
            self.mode = value & MODE_BITS;
        } else if address == INTERRUPT_ENABLE_REGISTER {
            if value & !RECEIVER_READY_INTERRUPT != 0 {
                return Err(Fault::UnsupportedValue(address, value));
            }
            self.interrupt_mask = self.interrupt_mask | value;
        } else if address == INTERRUPT_DISABLE_REGISTER {
            self.interrupt_mask = self.interrupt_mask & !value;
        } else if address == TRANSMIT_HOLDING_REGISTER {
            self.transmit_holding = value;
        } else if address != INTERRUPT_MASK_REGISTER && address != CHANNEL_STATUS_REGISTER
            && address != RECEIVE_HOLDING_REGISTER {
            return Err(Fault::UnsupportedRegister(address));
        }
        Ok(())
    }

    /// The state after receiving `character`, which is dropped unless the receiver is enabled
    /// and the mode matches the required mode (for the bits in the required mode mask). A
    /// character received before the previous one was read causes an overrun error.
    pub open spec fn after_data_received(
        self,
        character: u32,
        required_mode_mask: u32,
        required_mode: u32,
    ) -> Self {
        if !self.receiver_enabled || self.mode & required_mode_mask != required_mode {
            self
        } else if self.channel_status & RECEIVER_READY != 0 {
            Self {
                receive_holding: character & 0xFF,
                channel_status: self.channel_status | OVERRUN_ERROR,
                ..self
            }
        } else {
            Self {
                receive_holding: character & 0xFF,
                channel_status: self.channel_status | RECEIVER_READY,
                ..self
            }
        }
    }

    pub fn data_received(&mut self, character: u32, required_mode_mask: u32, required_mode: u32)
        ensures
            *final(self) == old(self).after_data_received(
                character,
                required_mode_mask,
                required_mode,
            ),
    {
        if !self.receiver_enabled || self.mode & required_mode_mask != required_mode {
            return ;
        }
        self.receive_holding = character & 0xFF;
        if self.channel_status & RECEIVER_READY != 0 {
            self.channel_status = self.channel_status | OVERRUN_ERROR;
        } else {
            self.channel_status = self.channel_status | RECEIVER_READY;
        }
    }

    /// The level interrupts raised by this peripheral: its interrupt line is high while a
    /// received character is ready.
    pub open spec fn level_interrupts_value(self) -> u32 {
        if self.channel_status & RECEIVER_READY != 0 {
            1u32 << PERIPHERAL_ID
        } else {
            0
        }
    }

    #[inline]
    pub fn level_interrupts(&self) -> (r: u32)
        ensures
            r == self.level_interrupts_value(),
    {
        if self.channel_status & RECEIVER_READY != 0 {
            1u32 << PERIPHERAL_ID
        } else {
            0
        }
    }

    pub fn reset(&mut self)
        ensures
            *final(self) == Self::initial(),
    {
        *self = Self::new();
    }
}

} // verus!
