use vstd::prelude::*;
use crate::fault::Fault;

verus! {

pub const SYSTEM_CONTROL_BLOCK_BEGIN: u32 = 0xE000ED00;

pub const SYSTEM_CONTROL_BLOCK_END: u32 = 0xE000ED3C;

pub const SYSTEM_CONTROL_BLOCK_LAST: u32 = SYSTEM_CONTROL_BLOCK_END - 1;

pub const VECTOR_TABLE_OFFSET_REGISTER: u32 = 0xE000ED08;

pub const SYSTEM_HANDLER_PRIORITY_REGISTER2: u32 = 0xE000ED1C;

/// The System Control Block. See section 10.21, p165 of the Atmel SAM3X Datasheet.
/// This implementation only supports the Vector Table Offset Register and the SVC
/// Handler Priority Register.
pub struct SystemControlBlock {
    pub vector_table_offset: u32,
    pub svc_priority: u8,
}

impl SystemControlBlock {
    pub fn new() -> (r: Self)
        ensures
            r.vector_table_offset == 0 && r.svc_priority == 0,
    {
        Self { vector_table_offset: 0, svc_priority: 0 }
    }

    /// The value read from the register at `address`.
    pub open spec fn read_value(self, address: u32) -> Result<u32, Fault> {
        if address == VECTOR_TABLE_OFFSET_REGISTER {
            Ok(self.vector_table_offset)
        } else if address == SYSTEM_HANDLER_PRIORITY_REGISTER2 {
            Ok(((self.svc_priority as u32) << 24u32) as u32)
        } else {
            Err(Fault::UnsupportedRegister(address))
        }
    }

    pub fn get32_aligned(&self, address: u32) -> (r: Result<u32, Fault>)
        requires
            self.read_value(address) is Ok,
        ensures
            r == self.read_value(address),
    {
        if address == VECTOR_TABLE_OFFSET_REGISTER {
            Ok(self.vector_table_offset)
        } else if address == SYSTEM_HANDLER_PRIORITY_REGISTER2 {
            Ok((self.svc_priority as u32) << 24u32)
        } else {
            Err(Fault::UnsupportedRegister(address))
        }
    }

    /// The state after writing `value` at `address` (only bits 7 to 29 of the vector table
    /// offset, and only the top byte of the priority register, are kept).
    pub open spec fn after_write(self, address: u32, value: u32) -> Self {
        if address == VECTOR_TABLE_OFFSET_REGISTER {
            Self { vector_table_offset: value & 0x3FFFFF80, ..self }
        } else if address == SYSTEM_HANDLER_PRIORITY_REGISTER2 {
            Self { svc_priority: (value >> 24u32) as u8, ..self }
        } else {
            self
        }
    }

    /// Whether `address` is a supported register: the vector table offset or the system
    /// handler priority register 2.
    pub fn supports(address: u32) -> (r: bool)
        ensures
            r == (address == VECTOR_TABLE_OFFSET_REGISTER || address
                == SYSTEM_HANDLER_PRIORITY_REGISTER2),
    {
        address == VECTOR_TABLE_OFFSET_REGISTER || address == SYSTEM_HANDLER_PRIORITY_REGISTER2
    }

    /// Writes `value` at the supported register `address` (see `supports`).
    pub fn set32_aligned(&mut self, address: u32, value: u32) -> (r: Result<(), Fault>)
        requires
            address == VECTOR_TABLE_OFFSET_REGISTER || address == SYSTEM_HANDLER_PRIORITY_REGISTER2,
        ensures
            r == (if address == VECTOR_TABLE_OFFSET_REGISTER || address
                == SYSTEM_HANDLER_PRIORITY_REGISTER2 {
                Ok(())
            } else {
                Err(Fault::UnsupportedRegister(address))
            }),
            *final(self) == old(self).after_write(address, value),
    {
        if address == VECTOR_TABLE_OFFSET_REGISTER {
            self.vector_table_offset = value & 0x3FFFFF80;
            Ok(())
        } else if address == SYSTEM_HANDLER_PRIORITY_REGISTER2 {
            self.svc_priority = (value >> 24u32) as u8;
            Ok(())
        } else {
            Err(Fault::UnsupportedRegister(address))
        }
    }

    pub fn reset(&mut self)
        ensures
            final(self).vector_table_offset == 0 && final(self).svc_priority == 0,
    {
        self.vector_table_offset = 0;
        self.svc_priority = 0;
    }
}

} // verus!
