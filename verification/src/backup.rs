use vstd::prelude::*;

verus! {

pub const BACKUP_REGISTERS_BEGIN: u32 = 0x400E1A90;

pub const BACKUP_REGISTERS_END: u32 = 0x400E1AB0;

pub const BACKUP_REGISTERS_LAST: u32 = BACKUP_REGISTERS_END - 1;

/// The General Purpose Backup Registers (GPBR). See section 17, p289 of the Atmel SAM3X Datasheet.
pub struct BackupRegistersController {
    pub values: [u32; 8],
}

/// The index of the backup register at `address`.
pub open spec fn backup_register_index(address: u32) -> int {
    (address - BACKUP_REGISTERS_BEGIN) / 4
}

impl BackupRegistersController {
    /// The values of the registers after a reset.
    pub open spec fn initial_values() -> Seq<u32> {
        seq![1u32, 2, 3, 4, 5, 6, 7, 8]
    }

    pub fn new() -> (r: Self)
        ensures
            r.values@ == Self::initial_values(),
    {
        Self { values: [1, 2, 3, 4, 5, 6, 7, 8] }
    }

    pub fn get32_aligned(&mut self, address: u32) -> (r: u32)
        requires
            BACKUP_REGISTERS_BEGIN <= address <= BACKUP_REGISTERS_LAST,
            address % 4 == 0,
        ensures
            r == old(self).values@[backup_register_index(address)],
            *final(self) == *old(self),
    {
        self.values[((address - BACKUP_REGISTERS_BEGIN) / 4) as usize]
    }

    pub fn set32_aligned(&mut self, address: u32, value: u32)
        requires
            BACKUP_REGISTERS_BEGIN <= address <= BACKUP_REGISTERS_LAST,
            address % 4 == 0,
        ensures
            final(self).values@ == old(self).values@.update(backup_register_index(address), value),
    {
        self.values[((address - BACKUP_REGISTERS_BEGIN) / 4) as usize] = value;
    }

    pub fn reset(&mut self)
        ensures
            final(self).values@ == Self::initial_values(),
    {
        self.values = [1, 2, 3, 4, 5, 6, 7, 8];
    }
}

} // verus!
