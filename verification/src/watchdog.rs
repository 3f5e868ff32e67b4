use vstd::prelude::*;

verus! {

pub const WATCHDOG_TIMER_BEGIN: u32 = 0x400E1A50;

pub const WATCHDOG_TIMER_END: u32 = 0x400E1A5C;

pub const WATCHDOG_TIMER_LAST: u32 = WATCHDOG_TIMER_END - 1;

pub const MODE_REGISTER: u32 = 0x400E1A54;

pub const INITIAL_MODE: u32 = 0x3FFF2FFF;

/// The Watchdog Timer. See section 15, p260 of the Atmel SAM3X Datasheet.
/// This dummy implementation never decrements its counter, and thus never triggers a reset.
pub struct WatchdogTimer {
    pub mode: u32,
    pub written_once: bool,
}

impl WatchdogTimer {
    pub fn uninitialized() -> (r: Self)
        ensures
            r.mode == 0 && !r.written_once,
    {
        Self { mode: 0, written_once: false }
    }

    pub fn new() -> (r: Self)
        ensures
            r.mode == INITIAL_MODE && !r.written_once,
    {
        let mut result = Self::uninitialized();
        result.reset();
        result
    }

    pub fn get32_aligned(&self, address: u32) -> (r: u32)
        ensures
            r == (if address == MODE_REGISTER {
                self.mode
            } else {
                0
            }),
    {
        if address == MODE_REGISTER {
            self.mode
        } else {
            0
        }
    }

    /// The mode register can be written only once after each reset; other writes are ignored.
    pub fn set32_aligned(&mut self, address: u32, value: u32)
        ensures
            if address == MODE_REGISTER && !old(self).written_once {
                final(self).mode == value && final(self).written_once
            } else {
                *final(self) == *old(self)
            },
    {
        if address == MODE_REGISTER && !self.written_once {
            self.mode = value;
            self.written_once = true;
        }
    }

    pub fn reset(&mut self)
        ensures
            final(self).mode == INITIAL_MODE && !final(self).written_once,
    {
        self.mode = INITIAL_MODE;
        self.written_once = false;
    }
}

} // verus!
