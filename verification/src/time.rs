use vstd::prelude::*;
use crate::fault::Fault;

verus! {

pub const SYSTEM_TIMER_BEGIN: u32 = 0xE000E010;

pub const SYSTEM_TIMER_END: u32 = 0xE000E020;

pub const SYSTEM_TIMER_LAST: u32 = SYSTEM_TIMER_END - 1;

pub const CONTROL_AND_STATUS_REGISTER: u32 = 0xE000E010;

pub const RELOAD_VALUE_REGISTER: u32 = 0xE000E014;

pub const CURRENT_VALUE_REGISTER: u32 = 0xE000E018;

pub const CALIBRATION_VALUE_REGISTER: u32 = 0xE000E01C;

// Control and Status Register flags.
pub const COUNT_FLAG: u32 = 0x10000;

pub const CLOCK_SOURCE: u32 = 4;

pub const TICK_INTERRUPT: u32 = 2;

pub const ENABLE: u32 = 1;

// Calibration Value Register.
pub const CALIBRATION_VALUE: u32 = 10500;

/// The number of timer ticks per emulated instruction.
pub const INCREMENT: u32 = 1000;

/// The System Timer, SysTick. See section 10.22, p192 of the Atmel SAM3X Datasheet.
///
/// When waiting is enabled, reading the Control and Status Register is considered to be the
/// end of a busy wait loop: the timer then immediately reaches zero and, instead of emulating the
/// loop, the emulator asks its host to wait for the corresponding real time. The requested
/// waiting time, in microseconds, is accumulated in `pending_wait` until the host takes it with
/// `take_pending_wait`.
pub struct SystemTimer {
    pub control_and_status: u32,
    pub reload_value: u32,
    pub current_value: u32,
    pub wait_enabled: bool,
    pub pending_wait: u64,
}

impl SystemTimer {
    /// The state of a new timer.
    pub open spec fn initial(wait_enabled: bool) -> Self {
        Self {
            control_and_status: CLOCK_SOURCE,
            reload_value: 0,
            current_value: 0,
            wait_enabled,
            pending_wait: 0,
        }
    }

    pub fn new(wait_enabled: bool) -> (r: Self)
        ensures
            r == Self::initial(wait_enabled),
    {
        Self {
            control_and_status: 0x4,
            reload_value: 0,
            current_value: 0,
            wait_enabled,
            pending_wait: 0,
        }
    }

    /// The real time, in microseconds, corresponding to the current value of the timer.
    pub open spec fn wait_time(self) -> u32 {
        if self.control_and_status & CLOCK_SOURCE != 0 {
            (125 * (self.current_value / CALIBRATION_VALUE)) as u32
        } else {
            (1000 * (self.current_value / CALIBRATION_VALUE)) as u32
        }
    }

    /// The value read from the register at `address`.
    pub open spec fn read_value(self, address: u32) -> u32 {
        if address == CONTROL_AND_STATUS_REGISTER {
            if self.wait_enabled {
                self.control_and_status | COUNT_FLAG
            } else {
                self.control_and_status
            }
        } else if address == RELOAD_VALUE_REGISTER {
            self.reload_value
        } else if address == CURRENT_VALUE_REGISTER {
            self.current_value
        } else {
            CALIBRATION_VALUE
        }
    }

    /// The state after reading the register at `address`: reading the control and status
    /// register clears the count flag (and, if waiting is enabled, waits until the timer
    /// reaches zero).
    pub open spec fn after_read(self, address: u32) -> Self {
        if address == CONTROL_AND_STATUS_REGISTER {
            if self.wait_enabled {
                Self {
                    control_and_status: self.control_and_status & !COUNT_FLAG,
                    current_value: self.reload_value,
                    pending_wait: sat_add(self.pending_wait, self.wait_time() as u64),
                    ..self
                }
            } else {
                Self { control_and_status: self.control_and_status & !COUNT_FLAG, ..self }
            }
        } else {
            self
        }
    }

    pub fn get32_aligned(&mut self, address: u32) -> (r: u32)
        requires
            SYSTEM_TIMER_BEGIN <= address <= SYSTEM_TIMER_LAST,
            address % 4 == 0,
        ensures
            r == old(self).read_value(address),
            *final(self) == old(self).after_read(address),
    {
        if address == CONTROL_AND_STATUS_REGISTER {
            let mut result = self.control_and_status;
            if self.wait_enabled {
                let wait = if result & CLOCK_SOURCE != 0 {
                    125 * (self.current_value / CALIBRATION_VALUE)
                } else {
                    1000 * (self.current_value / CALIBRATION_VALUE)
                };
                self.pending_wait = self.pending_wait.saturating_add(wait as u64);
                self.current_value = self.reload_value;
                result = result | COUNT_FLAG;
            }
            self.control_and_status = self.control_and_status & !COUNT_FLAG;
            result
        } else if address == RELOAD_VALUE_REGISTER {
            self.reload_value
        } else if address == CURRENT_VALUE_REGISTER {
            self.current_value
        } else {
            CALIBRATION_VALUE
        }
    }

    /// The state after writing `value` at `address` (writing the tick interrupt flag is not
    /// supported, see `set32_aligned`).
    pub open spec fn after_write(self, address: u32, value: u32) -> Self {
        if address == CONTROL_AND_STATUS_REGISTER {
            Self {
                control_and_status: (self.control_and_status & !(CLOCK_SOURCE | ENABLE)) | (value
                    & (CLOCK_SOURCE | ENABLE)),
                ..self
            }
        } else if address == RELOAD_VALUE_REGISTER {
            Self { reload_value: value, ..self }
        } else if address == CURRENT_VALUE_REGISTER {
            Self {
                control_and_status: self.control_and_status & !COUNT_FLAG,
                current_value: 0,
                ..self
            }
        } else {
            self
        }
    }

    /// Whether writing `value` at `address` is supported (tick interrupts are not).
    pub open spec fn write_supported(address: u32, value: u32) -> bool {
        !(address == CONTROL_AND_STATUS_REGISTER && value & TICK_INTERRUPT != 0)
    }

    /// Whether writing `value` at `address` is supported: the tick interrupt is not emulated.
    pub fn check_write(address: u32, value: u32) -> (r: bool)
        ensures
            r == Self::write_supported(address, value),
    {
        !(address == CONTROL_AND_STATUS_REGISTER && value & TICK_INTERRUPT != 0)
    }

    /// Writes the supported `value` at `address` (see `check_write`).
    pub fn set32_aligned(&mut self, address: u32, value: u32) -> (r: Result<(), Fault>)
        requires
            Self::write_supported(address, value),
            SYSTEM_TIMER_BEGIN <= address <= SYSTEM_TIMER_LAST,
            address % 4 == 0,
        ensures
            r == (if Self::write_supported(address, value) {
                Ok(())
            } else {
                Err(Fault::UnsupportedValue(address, value))
            }),
            *final(self) == (if r is Ok {
                old(self).after_write(address, value)
            } else {
                *old(self)
            }),
    {
        if address == CONTROL_AND_STATUS_REGISTER {
            if value & TICK_INTERRUPT != 0 {
                return Err(Fault::UnsupportedValue(address, value));
            }
            self.control_and_status = self.control_and_status & !(CLOCK_SOURCE | ENABLE);
            self.control_and_status = self.control_and_status | (value & (CLOCK_SOURCE | ENABLE));
        } else if address == RELOAD_VALUE_REGISTER {
            self.reload_value = value;
        } else if address == CURRENT_VALUE_REGISTER {
            self.control_and_status = self.control_and_status & !COUNT_FLAG;
            self.current_value = 0;
        }
        Ok(())
    }

    /// The state after one emulated instruction: if the timer is enabled, it is decremented by
    /// `INCREMENT` and wraps around to its reload value when it reaches zero, setting the count
    /// flag.
    pub open spec fn after_update(self) -> Self {
        if self.control_and_status & ENABLE == 0 {
            self
        } else if self.current_value > INCREMENT {
            Self { current_value: (self.current_value - INCREMENT) as u32, ..self }
        } else if self.current_value == INCREMENT {
            Self {
                control_and_status: self.control_and_status | COUNT_FLAG,
                current_value: 0,
                ..self
            }
        } else {
            let status = if self.current_value != 0 {
                self.control_and_status | COUNT_FLAG
            } else {
                self.control_and_status
            };
            let current = if self.reload_value == 0 {
                0u32
            } else {
                ((self.current_value + self.reload_value - INCREMENT) % 0x1_0000_0000) as u32
            };
            Self { control_and_status: status, current_value: current, ..self }
        }
    }

    /// Whether the timer can be decremented after one more instruction: when it is enabled and
    /// must reload, its reload value must be 0 or at least `INCREMENT`.
    pub open spec fn update_supported(self) -> bool {
        self.control_and_status & ENABLE == 0 || self.current_value >= INCREMENT
            || self.reload_value == 0 || self.reload_value >= INCREMENT
    }

    /// Computes `update_supported`.
    pub fn can_update(&self) -> (r: bool)
        ensures
            r == self.update_supported(),
    {
        self.control_and_status & ENABLE == 0 || self.current_value >= INCREMENT
            || self.reload_value == 0 || self.reload_value >= INCREMENT
    }

    /// Decrements the timer after one emulated instruction (see `after_update`).
    pub fn update(&mut self)
        requires
            old(self).update_supported(),
        ensures
            *final(self) == old(self).after_update(),
    {
        if (self.control_and_status & ENABLE) != 0 {
            let increment = INCREMENT;
            if self.current_value > increment {
                self.current_value = self.current_value - increment;
            } else if self.current_value == increment {
                self.control_and_status = self.control_and_status | COUNT_FLAG;
                self.current_value = 0;
            } else {
                if self.current_value != 0 {
                    self.control_and_status = self.control_and_status | COUNT_FLAG;
                }
                if self.reload_value == 0 {
                    self.current_value = 0;
                } else {
                    self.current_value = self.current_value.wrapping_add(
                        self.reload_value.wrapping_sub(increment),
                    );
                }
            }
        }
    }

    /// Returns the waiting time requested since the last call, in microseconds.
    pub fn take_pending_wait(&mut self) -> (r: u64)
        ensures
            r == old(self).pending_wait,
            *final(self) == (Self { pending_wait: 0, ..*old(self) }),
    {
        let result = self.pending_wait;
        self.pending_wait = 0;
        result
    }

    pub fn reset(&mut self)
        ensures
            *final(self) == (Self {
                control_and_status: CLOCK_SOURCE,
                reload_value: 0,
                current_value: 0,
                ..*old(self)
            }),
    {
        self.control_and_status = 0x4;
        self.reload_value = 0;
        self.current_value = 0;
    }
}

/// With waiting enabled, reading the control and status register requests a wait of the time
/// that the timer needs to count its current value down: 125 microseconds per 10500 ticks on the
/// processor clock (CLOCK_SOURCE set, 84 MHz), and 1000 microseconds per 10500 ticks on MCK/8
/// (10.5 MHz), added to the pending wait (saturating); it also reloads the timer and clears the
/// count flag.
pub proof fn lemma_wait_on_read(timer: SystemTimer)
    requires
        timer.wait_enabled,
    ensures
        ({
            let ticks = timer.current_value / 10500;
            let micros: int = if timer.control_and_status & 4 != 0 {
                125 * ticks
            } else {
                1000 * ticks
            };
            let after = timer.after_read(0xE000E010);
            &&& after.pending_wait == (if timer.pending_wait + micros > u64::MAX {
                u64::MAX as int
            } else {
                timer.pending_wait + micros
            })
            &&& after.current_value == timer.reload_value
            &&& after.control_and_status == timer.control_and_status & !0x10000u32
        }),
{
}

impl Default for SystemTimer {
    fn default() -> (r: Self)
        ensures
            r == SystemTimer::initial(false),
    {
        Self::new(false)
    }
}

/// `a + b`, or `u64::MAX` if this sum does not fit in 64 bits.
pub open spec fn sat_add(a: u64, b: u64) -> u64 {
    if a + b > u64::MAX {
        u64::MAX
    } else {
        (a + b) as u64
    }
}

} // verus!
