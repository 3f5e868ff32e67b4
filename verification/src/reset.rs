use vstd::prelude::*;
use crate::fault::Fault;

verus! {

pub const RESET_CONTROLLER_BEGIN: u32 = 0x400E1A00;

pub const RESET_CONTROLLER_END: u32 = 0x400E1A0C;

pub const RESET_CONTROLLER_LAST: u32 = RESET_CONTROLLER_END - 1;

pub const CONTROL_REGISTER: u32 = 0x400E1A00;

pub const KEY_MASK: u32 = 0xFF000000;

pub const KEY: u32 = 0xA5000000;

pub const RESET_BITS: u32 = 0b1101;

/// The Reset Controller. See section 12, p222 of the Atmel SAM3X Datasheet.
/// This implementation only supports the Control Register.
pub struct ResetController {
    pub reset_requested: bool,
}

impl ResetController {
    pub fn new() -> (r: Self)
        ensures
            !r.reset_requested,
    {
        Self { reset_requested: false }
    }

    pub fn get32_aligned(&self, address: u32) -> (r: Result<u32, Fault>)
        requires
            address == CONTROL_REGISTER,
        ensures
            r == (if address == CONTROL_REGISTER {
                Ok(0u32)
            } else {
                Err(Fault::UnsupportedRegister(address))
            }),
    {
        if address == CONTROL_REGISTER {
            Ok(0)
        } else {
            Err(Fault::UnsupportedRegister(address))
        }
    }

    /// The result of writing `value` at `address`.
    pub open spec fn write_result(address: u32, value: u32) -> Result<(), Fault> {
        if address != CONTROL_REGISTER {
            Err(Fault::UnsupportedRegister(address))
        } else if value & KEY_MASK == KEY && value & RESET_BITS != RESET_BITS && value & RESET_BITS
            != 0 {
            Err(Fault::UnsupportedValue(address, value))
        } else {
            Ok(())
        }
    }

    /// Whether writing `value` at `address` requests a reset: the key must be correct and the
    /// processor, peripheral and external reset bits must all be set.
    pub open spec fn requests_reset(address: u32, value: u32) -> bool {
        address == CONTROL_REGISTER && value & KEY_MASK == KEY && value & RESET_BITS == RESET_BITS
    }

    /// Checks a write of `value` at `address`: a keyed control value with some but not all of
    /// the reset bits, or another register, is refused.
    pub fn check_write(address: u32, value: u32) -> (r: Result<(), Fault>)
        ensures
            r == Self::write_result(address, value),
    {
        if address != CONTROL_REGISTER {
            Err(Fault::UnsupportedRegister(address))
        } else if value & KEY_MASK == KEY && value & RESET_BITS != RESET_BITS && value & RESET_BITS
            != 0 {
            Err(Fault::UnsupportedValue(address, value))
        } else {
            Ok(())
        }
    }

    /// Writes the supported `value` at `address` (see `check_write`).
    pub fn set32_aligned(&mut self, address: u32, value: u32) -> (r: Result<(), Fault>)
        requires
            Self::write_result(address, value) is Ok,
        ensures
            r == Ok::<(), Fault>(()),
            r == Self::write_result(address, value),
            final(self).reset_requested == (old(self).reset_requested || Self::requests_reset(
                address,
                value,
            )),
    {
        if address == CONTROL_REGISTER {
            if value & KEY_MASK == KEY {
                if value & RESET_BITS == RESET_BITS {
                    self.reset_requested = true;
                } else if value & RESET_BITS != 0 {
                    return Err(Fault::UnsupportedValue(address, value));
                }
            }
            Ok(())
        } else {
            Err(Fault::UnsupportedRegister(address))
        }
    }

    #[inline]
    pub fn reset_requested(&self) -> (r: bool)
        ensures
            r == self.reset_requested,
    {
        self.reset_requested
    }

    pub fn reset(&mut self)
        ensures
            !final(self).reset_requested,
    {
        self.reset_requested = false;
    }
}

} // verus!
