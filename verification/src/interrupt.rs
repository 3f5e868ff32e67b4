use vstd::prelude::*;
use crate::fault::Fault;

verus! {

pub const NESTED_VECTOR_INTERRUPT_CONTROLLER_BEGIN: u32 = 0xE000E100;

pub const NESTED_VECTOR_INTERRUPT_CONTROLLER_END: u32 = 0xE000E420;

pub const NESTED_VECTOR_INTERRUPT_CONTROLLER_LAST: u32 = NESTED_VECTOR_INTERRUPT_CONTROLLER_END - 1;

pub const SET_ENABLE_REGISTER0: u32 = 0xE000E100;

pub const CLEAR_ENABLE_REGISTER0: u32 = 0xE000E180;

pub const SET_PENDING_REGISTER0: u32 = 0xE000E200;

pub const CLEAR_PENDING_REGISTER0: u32 = 0xE000E280;

pub const ACTIVE_BITS_REGISTER0: u32 = 0xE000E300;

/// The index of the lowest bit set in `x` at or above bit `i`, or 32 if there is none.
pub open spec fn lowest_set_bit_from(x: u32, i: u32) -> u32
    decreases 32 - i,
{
    if i >= 32 {
        32
    } else if (x >> i) & 1 == 1 {
        i
    } else {
        lowest_set_bit_from(x, (i + 1) as u32)
    }
}

/// The index of the lowest bit set in `x` (the number of trailing zeros), or 32 if `x == 0`.
pub open spec fn lowest_set_bit(x: u32) -> u32 {
    lowest_set_bit_from(x, 0)
}

/// Computes `lowest_set_bit(x)` for a non zero `x`.
pub fn trailing_zeros(x: u32) -> (r: u32)
    requires
        x != 0,
    ensures
        r == lowest_set_bit(x),
        r < 32,
        (x >> r) & 1 == 1,
{
    let mut i: u32 = 0;
    assert(x >> 0u32 == x) by (bit_vector);
    while (x >> i) & 1 == 0
        invariant
            i < 32,
            x >> i != 0,
            lowest_set_bit(x) == lowest_set_bit_from(x, i),
        decreases 32 - i,
    {
        assert(x >> (i + 1) != 0 && i + 1 < 32) by (bit_vector)
            requires
                i < 32,
                x >> i != 0,
                (x >> i) & 1 == 0,
        ;
        i = i + 1;
    }
    assert((x >> i) & 1 != 0 ==> (x >> i) & 1 == 1) by (bit_vector);
    i
}

/// The Nested Vector Interrupt Controller. See section 10.20, p152 of the Atmel SAM3X Datasheet.
/// This implementation does not support configurable priorities, and supports interrupts [0..31]
/// only.
pub struct NestedVectorInterruptController {
    pub enabled: u32,
    pub pending: u32,
    pub active: u32,
}

impl NestedVectorInterruptController {
    pub fn new() -> (r: Self)
        ensures
            r.enabled == 0 && r.pending == 0 && r.active == 0,
    {
        Self { enabled: 0, pending: 0, active: 0 }
    }

    /// Whether `address` is a register that can be read.
    pub fn supports_read(&self, address: u32) -> (r: bool)
        ensures
            r == self.read_value(address) is Ok,
    {
        address == SET_ENABLE_REGISTER0 || address == CLEAR_ENABLE_REGISTER0 || address
            == SET_PENDING_REGISTER0 || address == CLEAR_PENDING_REGISTER0 || address
            == ACTIVE_BITS_REGISTER0
    }

    /// The value read from the register at `address`.
    pub open spec fn read_value(self, address: u32) -> Result<u32, Fault> {
        if address == SET_ENABLE_REGISTER0 || address == CLEAR_ENABLE_REGISTER0 {
            Ok(self.enabled)
        } else if address == SET_PENDING_REGISTER0 || address == CLEAR_PENDING_REGISTER0 {
            Ok(self.pending)
        } else if address == ACTIVE_BITS_REGISTER0 {
            Ok(self.active)
        } else {
            Err(Fault::UnsupportedRegister(address))
        }
    }

    /// The state after writing `value` to the register at `address`.
    pub open spec fn after_write(self, address: u32, value: u32) -> Self {
        if address == SET_ENABLE_REGISTER0 {
            Self { enabled: self.enabled | value, ..self }
        } else if address == CLEAR_ENABLE_REGISTER0 {
            Self { enabled: self.enabled & !value, ..self }
        } else if address == SET_PENDING_REGISTER0 {
            Self { pending: self.pending | value, ..self }
        } else if address == CLEAR_PENDING_REGISTER0 {
            Self { pending: self.pending & !value, ..self }
        } else {
            self
        }
    }

    /// Whether `address` is one of the supported registers.
    pub open spec fn supports(address: u32) -> bool {
        address == SET_ENABLE_REGISTER0 || address == CLEAR_ENABLE_REGISTER0 || address
            == SET_PENDING_REGISTER0 || address == CLEAR_PENDING_REGISTER0 || address
            == ACTIVE_BITS_REGISTER0
    }

    pub fn get32_aligned(&mut self, address: u32) -> (r: Result<u32, Fault>)
        requires
            old(self).read_value(address) is Ok,
        ensures
            r == old(self).read_value(address),
            *final(self) == *old(self),
    {
        if address == SET_ENABLE_REGISTER0 || address == CLEAR_ENABLE_REGISTER0 {
            Ok(self.enabled)
        } else if address == SET_PENDING_REGISTER0 || address == CLEAR_PENDING_REGISTER0 {
            Ok(self.pending)
        } else if address == ACTIVE_BITS_REGISTER0 {
            Ok(self.active)
        } else {
            Err(Fault::UnsupportedRegister(address))
        }
    }

    /// Whether `address` is a supported register (see `supports`).
    pub fn supports_register(address: u32) -> (r: bool)
        ensures
            r == Self::supports(address),
    {
        address == SET_ENABLE_REGISTER0 || address == CLEAR_ENABLE_REGISTER0 || address
            == SET_PENDING_REGISTER0 || address == CLEAR_PENDING_REGISTER0 || address
            == ACTIVE_BITS_REGISTER0
    }

    /// Writes `value` at the supported register `address`.
    pub fn set32_aligned(&mut self, address: u32, value: u32) -> (r: Result<(), Fault>)
        requires
            Self::supports(address),
        ensures
            r == (if Self::supports(address) {
                Ok(())
            } else {
                Err(Fault::UnsupportedRegister(address))
            }),
            *final(self) == old(self).after_write(address, value),
    {
        if address == SET_ENABLE_REGISTER0 {
            self.enabled = self.enabled | value;
        } else if address == CLEAR_ENABLE_REGISTER0 {
            self.enabled = self.enabled & !value;
        } else if address == SET_PENDING_REGISTER0 {
            self.pending = self.pending | value;
        } else if address == CLEAR_PENDING_REGISTER0 {
            self.pending = self.pending & !value;
        } else if address != ACTIVE_BITS_REGISTER0 {
            return Err(Fault::UnsupportedRegister(address));
        }
        Ok(())
    }

    /// The interrupt activated by `maybe_activate_interrupt`, if any.
    pub open spec fn activated(self, level_interrupts: u32) -> Option<u8> {
        let activable = self.enabled & (self.pending | level_interrupts);
        if self.active == 0 && activable != 0 {
            Some(lowest_set_bit(activable) as u8)
        } else {
            None
        }
    }

    /// Marks the level interrupts as pending and, if no interrupt is active, activates the
    /// lowest numbered interrupt which is both enabled and pending. Since all interrupts have the
    /// same priority, an interrupt can't be activated if there is already one active interrupt.
    #[inline]
    pub fn maybe_activate_interrupt(&mut self, level_interrupts: u32) -> (r: Option<u8>)
        ensures
            r == old(self).activated(level_interrupts),
            final(self).enabled == old(self).enabled,
            match r {
                Some(n) => {
                    &&& n < 32
                    &&& final(self).pending == (old(self).pending | level_interrupts) & !(1u32 << n)
                    &&& final(self).active == old(self).active | (1u32 << n)
                },
                None => {
                    &&& final(self).pending == old(self).pending | level_interrupts
                    &&& final(self).active == old(self).active
                },
            },
    {
        self.pending = self.pending | level_interrupts;
        let activable = self.enabled & self.pending;
        if self.active == 0 && activable != 0 {
            let result = trailing_zeros(activable);
            self.pending = self.pending & !(1u32 << result);
            self.active = self.active | (1u32 << result);
            Some(result as u8)
        } else {
            None
        }
    }

    /// Deactivates the active interrupt, which becomes pending again if its level interrupt is
    /// still high.
    #[inline]
    pub fn deactivate_interrupt(&mut self, level_interrupts: u32)
        ensures
            final(self).enabled == old(self).enabled,
            final(self).active == 0,
            final(self).pending == (if level_interrupts & old(self).active == 0 {
                old(self).pending & !old(self).active
            } else {
                old(self).pending | old(self).active
            }),
    {
        if level_interrupts & self.active == 0 {
            self.pending = self.pending & !self.active;
        } else {
            self.pending = self.pending | self.active;
        }
        self.active = 0;
    }

    pub fn reset(&mut self)
        ensures
            final(self).enabled == 0 && final(self).pending == 0 && final(self).active == 0,
    {
        *self = Self::new();
    }
}

/// At most one interrupt is active at any time. If no interrupt is active, activating an
/// interrupt makes exactly one active (the bit of the returned interrupt number); if one is
/// active, no other interrupt is activated and the active bits are unchanged.
pub proof fn lemma_single_active_interrupt(
    before: NestedVectorInterruptController,
    level_interrupts: u32,
)
    ensures
        before.active != 0 ==> before.activated(level_interrupts) is None,
        before.active == 0 ==> match before.activated(level_interrupts) {
            Some(n) => n < 32 && (before.enabled & (before.pending | level_interrupts)) & (1u32
                << n) != 0,
            None => before.enabled & (before.pending | level_interrupts) == 0,
        },
{
    let x = before.enabled & (before.pending | level_interrupts);
    if before.active == 0 && x != 0 {
        lemma_lowest_set_bit_is_set(x);
        let n = lowest_set_bit(x);
        assert((x >> n) & 1 == 1 && n < 32 ==> x & (1u32 << n) != 0) by (bit_vector);
        assert((n as u8) as u32 == n);
    }
}

/// The lowest set bit of a non zero number is a set bit.
pub proof fn lemma_lowest_set_bit_is_set(x: u32)
    requires
        x != 0,
    ensures
        lowest_set_bit(x) < 32,
        (x >> lowest_set_bit(x)) & 1 == 1,
{
    assert(x >> 0u32 == x) by (bit_vector);
    lemma_lowest_set_bit_from(x, 0);
}

proof fn lemma_lowest_set_bit_from(x: u32, i: u32)
    requires
        i < 32,
        x >> i != 0,
    ensures
        lowest_set_bit_from(x, i) < 32,
        (x >> lowest_set_bit_from(x, i)) & 1 == 1,
    decreases 32 - i,
{
    if (x >> i) & 1 != 1 {
        assert(x >> (i + 1) != 0 && i + 1 < 32) by (bit_vector)
            requires
                i < 32,
                x >> i != 0,
                (x >> i) & 1 != 1,
        ;
        lemma_lowest_set_bit_from(x, (i + 1) as u32);
    }
}

} // verus!
