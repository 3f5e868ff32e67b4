use vstd::prelude::*;

verus! {

/// A condition that the emulated hardware does not support, or a program error that the emulated
/// micro-controller cannot recover from. The emulation cannot continue after a fault.
#[derive(Clone, Copy, Debug, PartialEq, Eq, Structural)]
pub enum Fault {
    /// An access to an address which is not mapped to any memory or peripheral.
    UnsupportedAddress(u32),
    /// An access forbidden by the memory protection unit, or by the current privilege level.
    UnauthorizedAccess(u32),
    /// An access to a peripheral register which is not supported.
    UnsupportedRegister(u32),
    /// A write of an unsupported value (second field) into a peripheral register (first field).
    UnsupportedValue(u32, u32),
    /// An unsupported or invalid instruction, at the given program counter.
    UnsupportedInstruction(u32),
    /// A program error detected at the given program counter (bad interworking address, branch
    /// inside an IT block, unbalanced stack, etc).
    ProgramError(u32),
}

} // verus!
