use vstd::prelude::*;
use crate::arm::{is_32bit, Instruction};
use crate::bus::BusState;
use crate::mpu::MpuState;
use crate::fault::Fault;
use crate::pio::PioDevice;
use crate::spi::SpiDevice;

verus! {

pub const STACK_POINTER: usize = 13;

pub const LINK_REGISTER: usize = 14;

pub const MAIN_STACK_POINTER_SPECIAL_REGISTER: u8 = 8;

pub const PROCESS_STACK_POINTER_SPECIAL_REGISTER: u8 = 9;

pub const CONTROL_SPECIAL_REGISTER: u8 = 20;

// See section A7.3, Conditional execution.
pub const CONDITION_EQ: u8 = 0b0000;

pub const CONDITION_NE: u8 = 0b0001;

pub const CONDITION_GE: u8 = 0b0010;

pub const CONDITION_LT: u8 = 0b0011;

pub const CONDITION_GT: u8 = 0b1000;

pub const CONDITION_LE: u8 = 0b1001;

/// The exception number of the supervisor call.
pub const SVC_EXCEPTION_NUMBER: u8 = 11;

/// Special program counter value used to identify when a program run with the SAM-BA "G" command
/// returns in the SAM-BA monitor. This must be an even value of the form of an EXC_RETURN.
pub const BOOT_MONITOR_PROGRAM_COUNTER: u32 = 0xF0123456;

/// Initial value of the link register, after reset (Section 10.4.3.3 of SAM3X datasheet).
pub const INITIAL_LINK_REGISTER_VALUE: u32 = 0xFFFFFFFF;

/// The result of the last comparison, which replaces the condition flags.
#[derive(Clone, Copy, Debug, PartialEq, Eq, Structural)]
pub enum Comparison {
    Less,
    Equal,
    Greater,
}

/// The comparison of `a` with `b`.
pub open spec fn compare(a: u32, b: u32) -> Comparison {
    if a < b {
        Comparison::Less
    } else if a == b {
        Comparison::Equal
    } else {
        Comparison::Greater
    }
}

/// `x` as a 32 bit value, if it is one.
pub open spec fn checked(x: int) -> Option<u32> {
    if 0 <= x <= u32::MAX {
        Some(x as u32)
    } else {
        None
    }
}

/// Whether `value` is an EXC_RETURN value.
pub open spec fn is_exc_return(value: u32) -> bool {
    value & 0xF0000000 == 0xF0000000
}

/// The pseudo condition flags saved for `comparison` in the pseudo program status register.
pub open spec fn comparison_flags(comparison: Comparison) -> u32 {
    match comparison {
        Comparison::Equal => 0,
        Comparison::Greater => 1,
        Comparison::Less => 2,
    }
}

/// The comparison restored from the pseudo condition flags `flags`.
pub open spec fn flags_comparison(flags: u32) -> Comparison {
    if flags == 0 {
        Comparison::Equal
    } else if flags == 1 {
        Comparison::Greater
    } else {
        Comparison::Less
    }
}

/// The pseudo program status register saved on exception entry: the Thumb bit, the IT state, the
/// pseudo condition flags, the stack padding bit and the exception number.
pub open spec fn pseudo_status(
    if_then_state: u8,
    comparison: Comparison,
    padding: bool,
    interrupt_status: u8,
) -> u32 {
    (1u32 << 24u32) | ((if_then_state as u32) << 16u32) | (comparison_flags(comparison) << 10u32)
        | ((if padding {
        1u32
    } else {
        0u32
    }) << 9u32) | (interrupt_status as u32)
}

/// Whether the register fields of `insn` designate registers which it can use.
pub open spec fn registers_valid(insn: Instruction) -> bool {
    match insn {
        Instruction::AddRdnImm8 { rdn, .. } => rdn < 15,
        Instruction::AddRdRnRm { rd, rn, rm } => rd < 15 && rn < 15 && rm < 15,
        Instruction::AddRdSpImm8 { rd, .. } => rd < 15,
        Instruction::AdrRdMinusImm12 { rd, .. } => rd < 15,
        Instruction::AndRdnRm { rdn, rm } => rdn < 15 && rm < 15,
        Instruction::BlxRm { rm } => rm < 15,
        Instruction::BxRm { rm } => rm < 15,
        Instruction::CbzRnImm6 { rn, .. } => rn < 15,
        Instruction::CmpRnImm8 { rn, .. } => rn < 15,
        Instruction::CmpRnRm { rn, rm } => rn < 15 && rm < 15,
        Instruction::LdrbRtRnImm5 { rt, rn, .. } => rt < 15 && rn < 15,
        Instruction::LdrhRtRnImm5 { rt, rn, .. } => rt < 15 && rn < 15,
        Instruction::LdrRtPcImm8 { rt, .. } => rt < 15,
        Instruction::LdrRtRnImm5 { rt, rn, .. } => rt < 15 && rn < 15,
        Instruction::LdrRtSpImm8 { rt, .. } => rt < 15,
        Instruction::LslRdnRm { rdn, rm } => rdn < 15 && rm < 15,
        Instruction::LslRdRmImm5 { rd, rm, .. } => rd < 15 && rm < 15,
        Instruction::LsrRdnRm { rdn, rm } => rdn < 15 && rm < 15,
        Instruction::LsrRdRmImm5 { rd, rm, .. } => rd < 15 && rm < 15,
        Instruction::MovRdImm8 { rd, .. } => rd < 15,
        Instruction::MovRdRm { rd, rm } => rd <= 15 && rm < 15,
        Instruction::MovtRdImm16 { rd, .. } => rd < 15,
        Instruction::MovwRdImm16 { rd, .. } => rd < 15,
        Instruction::MrsRdReg { rd, .. } => rd < 15,
        Instruction::MsrRegRn { rn, .. } => rn < 15,
        Instruction::MulRdmRn { rdm, rn } => rdm < 15 && rn < 15,
        Instruction::OrrRdnRm { rdn, rm } => rdn < 15 && rm < 15,
        Instruction::StrbRtRnImm5 { rt, rn, .. } => rt < 15 && rn < 15,
        Instruction::StrhRtRnImm5 { rt, rn, .. } => rt < 15 && rn < 15,
        Instruction::StrRtRnImm5 { rt, rn, .. } => rt < 15 && rn < 15,
        Instruction::StrRtSpImm8 { rt, .. } => rt < 15,
        Instruction::SubRdnImm8 { rdn, .. } => rdn < 15,
        Instruction::SubRdRnRm { rd, rn, rm } => rd < 15 && rn < 15 && rm < 15,
        Instruction::TbbRnRm { rn, rm } => rn <= 15 && rm < 15,
        Instruction::UdivRdRnRm { rd, rn, rm } => rd < 15 && rn < 15 && rm < 15,
        _ => true,
    }
}

/// Whether the 16 bit instruction `insn` is a CMP instruction.
pub open spec fn is_compare_insn(insn: u32) -> bool {
    (insn & 0b1111100000000000 == 0b0010100000000000) || (insn & 0b1111111111000000
        == 0b0100001010000000)
}

/// The kinds of instructions, by the state they use.
pub enum InsnKind {
    Data,
    Branch,
    Memory,
    System,
    Other,
}

/// The kind of `insn`.
pub open spec fn insn_kind(insn: Instruction) -> InsnKind {
    match insn {
        Instruction::AddRdnImm8 { .. } | Instruction::AddRdRnRm { .. } | Instruction::AddRdSpImm8 {
            ..
        } | Instruction::AddSpSpImm7 { .. } | Instruction::AdrRdMinusImm12 { .. }
        | Instruction::AndRdnRm { .. } | Instruction::CmpRnImm8 { .. } | Instruction::CmpRnRm { .. }
        | Instruction::LslRdnRm { .. } | Instruction::LslRdRmImm5 { .. } | Instruction::LsrRdnRm {
            ..
        } | Instruction::LsrRdRmImm5 { .. } | Instruction::MovRdImm8 { .. }
        | Instruction::MovtRdImm16 { .. } | Instruction::MovwRdImm16 { .. } | Instruction::MulRdmRn {
            ..
        } | Instruction::OrrRdnRm { .. } | Instruction::SubRdnImm8 { .. } | Instruction::SubRdRnRm {
            ..
        } | Instruction::SubSpSpImm7 { .. } | Instruction::UdivRdRnRm { .. } => InsnKind::Data,
        Instruction::BImm11 { .. } | Instruction::BlPlusImm24 { .. } | Instruction::BlMinusImm24 {
            ..
        } | Instruction::BlxRm { .. } | Instruction::BxRm { .. } | Instruction::CbzRnImm6 { .. }
        | Instruction::It { .. } | Instruction::MovRdRm { .. } | Instruction::TbbRnRm { .. } => {
            InsnKind::Branch
        },
        Instruction::LdrbRtRnImm5 { .. } | Instruction::LdrhRtRnImm5 { .. }
        | Instruction::LdrRtPcImm8 { .. } | Instruction::LdrRtRnImm5 { .. }
        | Instruction::LdrRtSpImm8 { .. } | Instruction::StrbRtRnImm5 { .. }
        | Instruction::StrhRtRnImm5 { .. } | Instruction::StrRtRnImm5 { .. }
        | Instruction::StrRtSpImm8 { .. } | Instruction::Pop { .. } | Instruction::Push { .. } => {
            InsnKind::Memory
        },
        Instruction::MrsRdReg { .. } | Instruction::MsrRegRn { .. } | Instruction::SvcImm8 { .. } => {
            InsnKind::System
        },
        _ => InsnKind::Other,
    }
}

/// The state of the processor core and of the bus matrix.
#[verifier::ext_equal]
pub struct Cpu<S: SpiDevice, P: PioDevice> {
    pub registers: Seq<u32>,
    pub pc: u32,
    pub last_comparison: Comparison,
    pub if_then_state: u8,
    pub interrupt_status: u8,
    pub main_stack: bool,
    pub shadow_stack_pointer: u32,
    pub bus: BusState<S, P>,
}

impl<S: SpiDevice, P: PioDevice> Cpu<S, P> {
    pub open spec fn reg(self, r: int) -> u32 {
        self.registers[r]
    }

    pub open spec fn sp(self) -> u32 {
        self.registers[STACK_POINTER as int]
    }

    pub open spec fn set_reg(self, r: int, value: u32) -> Self {
        Cpu { registers: self.registers.update(r, value), ..self }
    }

    pub open spec fn set_pc(self, pc: u32) -> Self {
        Cpu { pc, ..self }
    }

    pub open spec fn set_bus(self, bus: BusState<S, P>) -> Self {
        Cpu { bus, ..self }
    }

    pub open spec fn in_it_block(self) -> bool {
        self.if_then_state & 0xF != 0
    }

    /// A program error at the current instruction.
    pub open spec fn program_error<T>(self) -> Result<T, Fault> {
        Err(Fault::ProgramError(self.pc))
    }

    /// The value of the stack pointer of the main (or process) stack.
    pub open spec fn stack_pointer(self, main_stack: bool) -> u32 {
        if main_stack == self.main_stack {
            self.sp()
        } else {
            self.shadow_stack_pointer
        }
    }

    pub open spec fn set_stack_pointer(self, value: u32, main_stack: bool) -> Self {
        if main_stack == self.main_stack {
            self.set_reg(STACK_POINTER as int, value)
        } else {
            Cpu { shadow_stack_pointer: value, ..self }
        }
    }

    /// Switches to the main (or process) stack.
    pub open spec fn set_main_stack(self, main_stack: bool) -> Self {
        if main_stack != self.main_stack {
            Cpu {
                registers: self.registers.update(STACK_POINTER as int, self.shadow_stack_pointer),
                shadow_stack_pointer: self.sp(),
                main_stack,
                ..self
            }
        } else {
            self
        }
    }

    /// Restores the IT state, the comparison and the exception number from the pseudo program
    /// status register `status`, and returns the stack padding bit.
    pub open spec fn set_pseudo_status(self, status: u32) -> Result<(Self, bool), Fault> {
        if status & (1u32 << 24u32) == 0 {
            self.program_error()
        } else {
            Ok(
                (
                    Cpu {
                        if_then_state: (status >> 16u32) as u8,
                        last_comparison: flags_comparison((status >> 10u32) & 3),
                        interrupt_status: status as u8,
                        ..self
                    },
                    (status >> 9u32) & 1 != 0,
                ),
            )
        }
    }

    /// Writes `words[i..]` at `address + 4 * i`, ..., on the bus.
    pub open spec fn store_words(self, address: u32, words: Seq<u32>, i: int) -> Result<Self, Fault>
        decreases words.len() - i,
    {
        if i >= words.len() || i < 0 {
            Ok(self)
        } else {
            let (bus, r) = self.bus.write32((address + 4 * i) as u32, words[i]);
            match r {
                Ok(_) => self.set_bus(bus).store_words(address, words, i + 1),
                Err(e) => Err(e),
            }
        }
    }

    /// Exception entry, see section B1.5.6 of the ARMv7-M Architecture Reference Manual: the
    /// caller saved registers are pushed on the stack (aligned on 8 bytes), and the handler found
    /// in the vector table is called, in handler mode, on the main stack.
    #[verifier::opaque]
    pub open spec fn enter_interrupt(self, exception_number: u8) -> Result<Self, Fault> {
        match checked(self.bus.system_control.vector_table_offset + 4 * exception_number) {
            None => self.program_error(),
            Some(handler_address) => self.enter_handler(exception_number, handler_address),
        }
    }

    /// Exception entry, with the handler at `handler_address` in the vector table.
    pub open spec fn enter_handler(self, exception_number: u8, handler_address: u32) -> Result<
        Self,
        Fault,
    > {
        let (c, r) = self.read_handler(handler_address);
        match r {
            Err(e) => Err(e),
            Ok(handler) => if handler & 1 != 1 {
                self.program_error()
            } else {
                match c.push_frame() {
                    Err(e) => Err(e),
                    Ok(c2) => c2.finish_entry(exception_number, handler),
                }
            },
        }
    }

    /// Reading the address of an exception handler in the vector table (this access is always
    /// permitted).
    pub open spec fn read_handler(self, handler_address: u32) -> (Self, Result<u32, Fault>) {
        let unprotected = BusState { mpu: MpuState { enable: false, ..self.bus.mpu }, ..self.bus };
        let (bus, r) = unprotected.read32(handler_address);
        (
            self.set_bus(
                BusState { mpu: MpuState { enable: self.bus.mpu.enable, ..bus.mpu }, ..bus },
            ),
            r,
        )
    }

    /// Pushing the caller saved registers on the stack, aligned on 8 bytes, on exception entry.
    pub open spec fn push_frame(self) -> Result<Self, Fault> {
        match checked(self.sp() - 8 * 4) {
            None => self.program_error(),
            Some(frame) => {
                let padding = frame % 8 != 0;
                match checked(if padding {
                    frame - 4
                } else {
                    frame as int
                }) {
                    None => self.program_error(),
                    Some(sp) => {
                        let words = seq![
                            self.reg(0),
                            self.reg(1),
                            self.reg(2),
                            self.reg(3),
                            self.reg(12),
                            self.reg(LINK_REGISTER as int),
                            self.pc,
                            pseudo_status(
                                self.if_then_state,
                                self.last_comparison,
                                padding,
                                self.interrupt_status,
                            ),
                        ];
                        match self.store_words(sp, words, 0) {
                            Err(e) => Err(e),
                            Ok(c) => Ok(c.set_reg(STACK_POINTER as int, sp)),
                        }
                    },
                }
            },
        }
    }

    /// Calling the exception handler `handler` on the main stack, in handler mode, after the
    /// frame is pushed.
    pub open spec fn finish_entry(self, exception_number: u8, handler: u32) -> Result<Self, Fault> {
        let c = self.set_main_stack(true);
        let lr = if self.bus.handler_mode {
            0xFFFFFFF1u32
        } else if self.main_stack {
            0xFFFFFFF9u32
        } else {
            0xFFFFFFFDu32
        };
        if self.bus.handler_mode && !self.main_stack {
            self.program_error()
        } else {
            Ok(
                Cpu {
                    pc: handler & !1u32,
                    last_comparison: Comparison::Equal,
                    if_then_state: 0,
                    interrupt_status: exception_number,
                    bus: BusState { handler_mode: true, ..c.bus },
                    ..c.set_reg(LINK_REGISTER as int, lr)
                },
            )
        }
    }

    /// Reads the `n` words at `address`, `address + 4`, ..., on the bus.
    pub open spec fn load_words(bus: BusState<S, P>, address: u32, n: nat) -> Result<
        (BusState<S, P>, Seq<u32>),
        Fault,
    >
        decreases n,
    {
        if n == 0 {
            Ok((bus, Seq::empty()))
        } else {
            match Self::load_words(bus, address, (n - 1) as nat) {
                Err(e) => Err(e),
                Ok((b, words)) => {
                    let (b2, r) = b.read32((address + 4 * (n - 1)) as u32);
                    match r {
                        Ok(w) => Ok((b2, words.push(w))),
                        Err(e) => Err(e),
                    }
                },
            }
        }
    }

    /// Exception return, see section B1.5.8 of the ARMv7-M Architecture Reference Manual: the
    /// registers saved on exception entry are restored, and the mode and the stack are selected
    /// according to `exc_return`.
    #[verifier::opaque]
    pub open spec fn exit_interrupt(self, exc_return: u32) -> Result<Self, Fault> {
        match self.exit_mode(exc_return) {
            Err(e) => Err(e),
            Ok(c) => c.pop_frame(),
        }
    }

    /// Leaving the handler mode (and the main stack) on exception return, and deactivating the
    /// interrupt, if it was one.
    pub open spec fn exit_mode(self, exc_return: u32) -> Result<Self, Fault> {
        if !self.bus.handler_mode || !self.main_stack {
            self.program_error()
        } else if exc_return != 0xFFFFFFF9 && exc_return != 0xFFFFFFFD && exc_return
            != 0xFFFFFFF1 {
            self.program_error()
        } else {
            let c1 = if exc_return == 0xFFFFFFF9 {
                self.set_bus(BusState { handler_mode: false, ..self.bus })
            } else if exc_return == 0xFFFFFFFD {
                let c = self.set_main_stack(false);
                c.set_bus(BusState { handler_mode: false, ..c.bus })
            } else {
                self
            };
            if c1.interrupt_status >= 16 {
                Ok(c1.set_bus(c1.bus.after_deactivation()))
            } else {
                Ok(c1)
            }
        }
    }

    /// Popping the registers saved on exception entry from the stack.
    pub open spec fn pop_frame(self) -> Result<Self, Fault> {
        let sp = self.sp();
        match Self::load_words(self.bus, sp, 8) {
            Err(e) => Err(e),
            Ok((bus, w)) => {
                let c = Cpu {
                    registers: self.registers.update(0, w[0]).update(1, w[1]).update(2, w[2]).update(
                        3,
                        w[3],
                    ).update(12, w[4]).update(STACK_POINTER as int, (sp + 32) as u32).update(
                        LINK_REGISTER as int,
                        w[5],
                    ),
                    pc: w[6],
                    bus,
                    ..self
                };
                match c.set_pseudo_status(w[7]) {
                    Err(e) => Err(e),
                    Ok((c2, padding)) => if padding {
                        Ok(c2.set_reg(STACK_POINTER as int, (sp + 36) as u32))
                    } else {
                        Ok(c2)
                    },
                }
            },
        }
    }

    /// Whether the condition `condition` holds for the last comparison (`None` for the
    /// unsupported conditions).
    pub open spec fn condition_passed(self, condition: u8) -> Option<bool> {
        let c = self.last_comparison;
        if condition == CONDITION_EQ {
            Some(c == Comparison::Equal)
        } else if condition == CONDITION_NE {
            Some(c != Comparison::Equal)
        } else if condition == CONDITION_GE {
            Some(c != Comparison::Less)
        } else if condition == CONDITION_LT {
            Some(c == Comparison::Less)
        } else if condition == CONDITION_GT {
            Some(c == Comparison::Greater)
        } else if condition == CONDITION_LE {
            Some(c != Comparison::Greater)
        } else {
            None
        }
    }

    /// Executing a data processing instruction (which does not access the memory).
    pub open spec fn execute_data(self, insn: Instruction) -> Result<Self, Fault> {
        let next = (self.pc + 2) as u32;
        let next32 = (self.pc + 4) as u32;
        match insn {
            Instruction::AddRdnImm8 { rdn, imm8 } => Ok(
                self.set_reg(rdn as int, vstd::wrapping::u32_specs::wrapping_add(self.reg(rdn as int), imm8 as u32)).set_pc(next),
            ),
            Instruction::AddRdRnRm { rd, rn, rm } => Ok(
                self.set_reg(rd as int, vstd::wrapping::u32_specs::wrapping_add(self.reg(rn as int), self.reg(rm as int))).set_pc(next),
            ),
            Instruction::AddRdSpImm8 { rd, imm } => match checked(self.sp() + imm) {
                Some(v) => Ok(self.set_reg(rd as int, v).set_pc(next)),
                None => self.program_error(),
            },
            Instruction::AddSpSpImm7 { imm } => match checked(self.sp() + imm) {
                Some(v) => Ok(self.set_reg(STACK_POINTER as int, v).set_pc(next)),
                None => self.program_error(),
            },
            Instruction::AdrRdMinusImm12 { rd, imm12 } => match checked(
                ((self.pc + 4) as u32 & 0xFFFFFFFCu32) - imm12,
            ) {
                Some(v) => Ok(self.set_reg(rd as int, v).set_pc(next32)),
                None => self.program_error(),
            },
            Instruction::AndRdnRm { rdn, rm } => Ok(
                self.set_reg(rdn as int, self.reg(rdn as int) & self.reg(rm as int)).set_pc(next),
            ),
            Instruction::CmpRnImm8 { rn, imm8 } => Ok(
                Cpu { last_comparison: compare(self.reg(rn as int), imm8 as u32), pc: next, ..self },
            ),
            Instruction::CmpRnRm { rn, rm } => Ok(
                Cpu {
                    last_comparison: compare(self.reg(rn as int), self.reg(rm as int)),
                    pc: next,
                    ..self
                },
            ),
            Instruction::LslRdnRm { rdn, rm } => {
                let shift = self.reg(rm as int) & 0xFF;
                if shift >= 32 {
                    self.program_error()
                } else {
                    Ok(self.set_reg(rdn as int, self.reg(rdn as int) << shift).set_pc(next))
                }
            },
            Instruction::LslRdRmImm5 { rd, rm, imm5 } => if imm5 >= 32 {
                self.program_error()
            } else {
                Ok(self.set_reg(rd as int, self.reg(rm as int) << (imm5 as u32)).set_pc(next))
            },
            Instruction::LsrRdnRm { rdn, rm } => {
                let shift = self.reg(rm as int) & 0xFF;
                if shift >= 32 {
                    self.program_error()
                } else {
                    Ok(self.set_reg(rdn as int, self.reg(rdn as int) >> shift).set_pc(next))
                }
            },
            Instruction::LsrRdRmImm5 { rd, rm, imm } => if imm == 32 {
                Ok(self.set_reg(rd as int, 0).set_pc(next))
            } else if imm > 32 {
                self.program_error()
            } else {
                Ok(self.set_reg(rd as int, self.reg(rm as int) >> (imm as u32)).set_pc(next))
            },
            Instruction::MovRdImm8 { rd, imm8 } => Ok(self.set_reg(rd as int, imm8 as u32).set_pc(next)),
            Instruction::MovtRdImm16 { rd, imm16 } => Ok(
                self.set_reg(
                    rd as int,
                    ((imm16 as u32) << 16u32) | (self.reg(rd as int) & 0xFFFF),
                ).set_pc(next32),
            ),
            Instruction::MovwRdImm16 { rd, imm16 } => Ok(
                self.set_reg(rd as int, imm16 as u32).set_pc(next32),
            ),
            Instruction::MulRdmRn { rdm, rn } => Ok(
                self.set_reg(rdm as int, vstd::wrapping::u32_specs::wrapping_mul(self.reg(rdm as int), self.reg(rn as int))).set_pc(next),
            ),
            Instruction::OrrRdnRm { rdn, rm } => Ok(
                self.set_reg(rdn as int, self.reg(rdn as int) | self.reg(rm as int)).set_pc(next),
            ),
            Instruction::SubRdnImm8 { rdn, imm8 } => Ok(
                self.set_reg(rdn as int, vstd::wrapping::u32_specs::wrapping_sub(self.reg(rdn as int), imm8 as u32)).set_pc(next),
            ),
            Instruction::SubRdRnRm { rd, rn, rm } => Ok(
                self.set_reg(rd as int, vstd::wrapping::u32_specs::wrapping_sub(self.reg(rn as int), self.reg(rm as int))).set_pc(next),
            ),
            Instruction::SubSpSpImm7 { imm } => match checked(self.sp() - imm) {
                Some(v) => Ok(self.set_reg(STACK_POINTER as int, v).set_pc(next)),
                None => self.program_error(),
            },
            Instruction::UdivRdRnRm { rd, rn, rm } => if self.reg(rm as int) == 0 {
                self.program_error()
            } else {
                Ok(self.set_reg(rd as int, self.reg(rn as int) / self.reg(rm as int)).set_pc(next32))
            },
            _ => Err(Fault::UnsupportedInstruction(self.pc)),
        }
    }

    /// Continues at the branch target `target` (an `EXC_RETURN` value ends the current exception
    /// handler).
    pub open spec fn branch_exchange(self, target: u32) -> Result<Self, Fault> {
        let pc = target & !1u32;
        if is_exc_return(pc) && pc != BOOT_MONITOR_PROGRAM_COUNTER {
            self.set_pc(pc).exit_interrupt(target)
        } else {
            Ok(self.set_pc(pc))
        }
    }

    /// Executing a branch instruction.
    pub open spec fn execute_branch(self, insn: Instruction) -> Result<Self, Fault> {
        let next = (self.pc + 2) as u32;
        match insn {
            Instruction::BImm11 { imm } => if self.in_it_block() {
                self.program_error()
            } else {
                Ok(self.set_pc((self.pc + 4 + imm) as u32))
            },
            Instruction::BlPlusImm24 { imm16, imm8 } => if self.in_it_block() {
                self.program_error()
            } else {
                let imm = ((imm8 as u32) << 16u32) | imm16 as u32;
                Ok(
                    self.set_reg(LINK_REGISTER as int, ((self.pc + 4) as u32) | 1).set_pc(
                        (self.pc + 4 + imm) as u32,
                    ),
                )
            },
            Instruction::BlMinusImm24 { imm16, imm8 } => if self.in_it_block() {
                self.program_error()
            } else {
                let imm = ((imm8 as u32) << 16u32) | imm16 as u32;
                match checked(self.pc + 3 - imm) {
                    Some(pc) => Ok(
                        self.set_reg(LINK_REGISTER as int, ((self.pc + 4) as u32) | 1).set_pc(pc),
                    ),
                    None => self.program_error(),
                }
            },
            Instruction::BlxRm { rm } => if self.in_it_block() || self.reg(rm as int) & 1 != 1 {
                self.program_error()
            } else {
                let c = self.set_reg(LINK_REGISTER as int, next | 1);
                Ok(c.set_pc(c.reg(rm as int) & !1u32))
            },
            Instruction::BxRm { rm } => if self.in_it_block() || self.reg(rm as int) & 1 != 1 {
                self.program_error()
            } else {
                self.branch_exchange(self.reg(rm as int))
            },
            Instruction::CbzRnImm6 { rn, imm } => if self.in_it_block() {
                self.program_error()
            } else if self.reg(rn as int) == 0 {
                Ok(self.set_pc((self.pc + imm + 4) as u32))
            } else {
                Ok(self.set_pc(next))
            },
            Instruction::It { first_cond_and_mask } => if self.pc < 2 {
                self.program_error()
            } else {
                let (bus, r) = self.bus.read16((self.pc - 2) as u32);
                match r {
                    Err(e) => Err(e),
                    Ok(previous) => if !is_compare_insn(previous) || self.in_it_block() {
                        self.program_error()
                    } else {
                        Ok(
                            Cpu {
                                if_then_state: first_cond_and_mask,
                                pc: next,
                                bus,
                                ..self
                            },
                        )
                    },
                }
            },
            Instruction::MovRdRm { rd, rm } => if rd == 15 {
                if self.in_it_block() {
                    self.program_error()
                } else {
                    Ok(self.set_pc(self.reg(rm as int) & !1u32))
                }
            } else {
                Ok(self.set_reg(rd as int, self.reg(rm as int)).set_pc(next))
            },
            Instruction::TbbRnRm { rn, rm } => if self.in_it_block() {
                self.program_error()
            } else {
                let base = if rn == 15 {
                    (self.pc + 4) as u32
                } else {
                    self.reg(rn as int)
                };
                match checked(base + self.reg(rm as int)) {
                    None => self.program_error(),
                    Some(address) => {
                        let (bus, r) = self.bus.read8(address);
                        match r {
                            Err(e) => Err(e),
                            Ok(offset) => Ok(
                                self.set_bus(bus).set_pc((self.pc + 2 * offset + 4) as u32),
                            ),
                        }
                    },
                }
            },
            _ => Err(Fault::UnsupportedInstruction(self.pc)),
        }
    }

    /// Loading the register `rt` from `address` with `read` (the bus state and the value read).
    pub open spec fn load(self, rt: u8, read: (BusState<S, P>, Result<u32, Fault>)) -> Result<
        Self,
        Fault,
    > {
        match read.1 {
            Ok(v) => Ok(self.set_reg(rt as int, v).set_bus(read.0).set_pc((self.pc + 2) as u32)),
            Err(e) => Err(e),
        }
    }

    /// Storing with `write` (the bus state and the result of the write).
    pub open spec fn store(self, write: (BusState<S, P>, Result<(), Fault>)) -> Result<Self, Fault> {
        match write.1 {
            Ok(_) => Ok(self.set_bus(write.0).set_pc((self.pc + 2) as u32)),
            Err(e) => Err(e),
        }
    }

    /// Popping the registers of `mask` from `i` to 7 from the stack.
    pub open spec fn pop_from(self, mask: u8, i: int) -> Result<Self, Fault>
        decreases 8 - i,
    {
        if i >= 8 || i < 0 {
            Ok(self)
        } else if mask & (1u8 << (i as u8)) != 0 {
            let (bus, r) = self.bus.read32(self.sp());
            match r {
                Err(e) => Err(e),
                Ok(v) => self.set_reg(i, v).set_reg(STACK_POINTER as int, (self.sp() + 4) as u32).set_bus(
                    bus,
                ).pop_from(mask, i + 1),
            }
        } else {
            self.pop_from(mask, i + 1)
        }
    }

    /// Pushing `value` on the stack.
    pub open spec fn push_word(self, value: u32) -> Result<Self, Fault> {
        match checked(self.sp() - 4) {
            None => self.program_error(),
            Some(sp) => {
                let (bus, r) = self.bus.write32(sp, value);
                match r {
                    Err(e) => Err(e),
                    Ok(_) => Ok(self.set_reg(STACK_POINTER as int, sp).set_bus(bus)),
                }
            },
        }
    }

    /// Pushing the registers of `mask` from `i - 1` down to 0 on the stack.
    pub open spec fn push_from(self, mask: u8, i: int) -> Result<Self, Fault>
        decreases i,
    {
        if i <= 0 || i > 8 {
            Ok(self)
        } else if mask & (1u8 << ((i - 1) as u8)) != 0 {
            match self.push_word(self.reg(i - 1)) {
                Err(e) => Err(e),
                Ok(c) => c.push_from(mask, i - 1),
            }
        } else {
            self.push_from(mask, i - 1)
        }
    }

    /// Executing a load, store, push or pop instruction.
    pub open spec fn execute_memory(self, insn: Instruction) -> Result<Self, Fault> {
        match insn {
            Instruction::LdrbRtRnImm5 { .. } | Instruction::LdrhRtRnImm5 { .. }
            | Instruction::LdrRtPcImm8 { .. } | Instruction::LdrRtRnImm5 { .. }
            | Instruction::LdrRtSpImm8 { .. } => self.execute_load(insn),
            Instruction::StrbRtRnImm5 { .. } | Instruction::StrhRtRnImm5 { .. }
            | Instruction::StrRtRnImm5 { .. } | Instruction::StrRtSpImm8 { .. } => self.execute_store(insn),
            _ => self.execute_stack(insn),
        }
    }

    /// Executing a load instruction.
    pub open spec fn execute_load(self, insn: Instruction) -> Result<Self, Fault> {
        match insn {
            Instruction::LdrbRtRnImm5 { rt, rn, imm5 } => match checked(self.reg(rn as int) + imm5) {
                Some(a) => self.load(rt, self.bus.read8(a)),
                None => self.program_error(),
            },
            Instruction::LdrhRtRnImm5 { rt, rn, imm } => match checked(self.reg(rn as int) + imm) {
                Some(a) => self.load(rt, self.bus.read16(a)),
                None => self.program_error(),
            },
            Instruction::LdrRtPcImm8 { rt, imm } => self.load(
                rt,
                self.bus.read32((((self.pc + 4) as u32 & 0xFFFFFFFCu32) + imm) as u32),
            ),
            Instruction::LdrRtRnImm5 { rt, rn, imm } => match checked(self.reg(rn as int) + imm) {
                Some(a) => self.load(rt, self.bus.read32(a)),
                None => self.program_error(),
            },
            Instruction::LdrRtSpImm8 { rt, imm } => match checked(self.sp() + imm) {
                Some(a) => self.load(rt, self.bus.read32(a)),
                None => self.program_error(),
            },
            _ => Err(Fault::UnsupportedInstruction(self.pc)),
        }
    }

    /// Executing a store instruction.
    pub open spec fn execute_store(self, insn: Instruction) -> Result<Self, Fault> {
        match insn {
            Instruction::StrbRtRnImm5 { rt, rn, imm5 } => match checked(self.reg(rn as int) + imm5) {
                Some(a) => self.store(self.bus.write8(a, self.reg(rt as int) as u8)),
                None => self.program_error(),
            },
            Instruction::StrhRtRnImm5 { rt, rn, imm } => match checked(self.reg(rn as int) + imm) {
                Some(a) => self.store(self.bus.write16(a, self.reg(rt as int) as u16)),
                None => self.program_error(),
            },
            Instruction::StrRtRnImm5 { rt, rn, imm } => match checked(self.reg(rn as int) + imm) {
                Some(a) => self.store(self.bus.write32(a, self.reg(rt as int))),
                None => self.program_error(),
            },
            Instruction::StrRtSpImm8 { rt, imm } => match checked(self.sp() + imm) {
                Some(a) => self.store(self.bus.write32(a, self.reg(rt as int))),
                None => self.program_error(),
            },
            _ => Err(Fault::UnsupportedInstruction(self.pc)),
        }
    }

    /// Executing a push or pop instruction.
    pub open spec fn execute_stack(self, insn: Instruction) -> Result<Self, Fault> {
        match insn {
            Instruction::Pop { registers, pc } => match self.pop_from(registers, 0) {
                Err(e) => Err(e),
                Ok(c) => if pc {
                    let (bus, r) = c.bus.read32(c.sp());
                    match r {
                        Err(e) => Err(e),
                        Ok(target) => {
                            let c2 = c.set_reg(STACK_POINTER as int, (c.sp() + 4) as u32).set_bus(bus);
                            if c2.in_it_block() || target & 1 != 1 {
                                c2.program_error()
                            } else {
                                c2.branch_exchange(target)
                            }
                        },
                    }
                } else {
                    Ok(c.set_pc((self.pc + 2) as u32))
                },
            },
            Instruction::Push { registers, lr } => {
                let pushed_lr = if lr {
                    self.push_word(self.reg(LINK_REGISTER as int))
                } else {
                    Ok(self)
                };
                match pushed_lr {
                    Err(e) => Err(e),
                    Ok(c) => match c.push_from(registers, 8) {
                        Err(e) => Err(e),
                        Ok(c2) => Ok(c2.set_pc((self.pc + 2) as u32)),
                    },
                }
            },
            _ => Err(Fault::UnsupportedInstruction(self.pc)),
        }
    }

    /// Executing a special register or supervisor call instruction.
    pub open spec fn execute_system(self, insn: Instruction) -> Result<Self, Fault> {
        let privileged = self.bus.is_privileged();
        match insn {
            Instruction::MrsRdReg { rd, reg } => {
                let c = self.set_reg(rd as int, 0);
                let c2 = if reg == MAIN_STACK_POINTER_SPECIAL_REGISTER {
                    if privileged {
                        Ok(c.set_reg(rd as int, c.stack_pointer(true)))
                    } else {
                        Ok(c)
                    }
                } else if reg == PROCESS_STACK_POINTER_SPECIAL_REGISTER {
                    if privileged {
                        Ok(c.set_reg(rd as int, c.stack_pointer(false)))
                    } else {
                        Ok(c)
                    }
                } else if reg == CONTROL_SPECIAL_REGISTER {
                    Ok(c.set_reg(rd as int, if c.bus.privilege_mode { 0u32 } else { 1u32 }))
                } else if privileged {
                    c.program_error()
                } else {
                    Ok(c)
                };
                match c2 {
                    Ok(c3) => Ok(c3.set_pc((c3.pc + 4) as u32)),
                    Err(e) => Err(e),
                }
            },
            Instruction::MsrRegRn { rn, reg } => {
                let value = self.reg(rn as int);
                let c2 = if !privileged {
                    Ok(self)
                } else if reg == MAIN_STACK_POINTER_SPECIAL_REGISTER {
                    Ok(self.set_stack_pointer(value, true))
                } else if reg == PROCESS_STACK_POINTER_SPECIAL_REGISTER {
                    Ok(self.set_stack_pointer(value, false))
                } else if reg == CONTROL_SPECIAL_REGISTER {
                    if value & 2 != 0 {
                        self.program_error()
                    } else {
                        Ok(self.set_bus(BusState { privilege_mode: value & 1 == 0, ..self.bus }))
                    }
                } else {
                    self.program_error()
                };
                match c2 {
                    Ok(c3) => Ok(c3.set_pc((c3.pc + 4) as u32)),
                    Err(e) => Err(e),
                }
            },
            Instruction::SvcImm8 { .. } => {
                let c = self.set_pc((self.pc + 2) as u32);
                if c.interrupt_status != 0 {
                    c.program_error()
                } else {
                    c.enter_interrupt(SVC_EXCEPTION_NUMBER)
                }
            },
            _ => Err(Fault::UnsupportedInstruction(self.pc)),
        }
    }

    /// Executing the instruction `insn`.
    #[verifier::opaque]
    pub open spec fn execute(self, insn: Instruction) -> Result<Self, Fault> {
        match insn_kind(insn) {
            InsnKind::Data => self.execute_data(insn),
            InsnKind::Branch => self.execute_branch(insn),
            InsnKind::Memory => self.execute_memory(insn),
            InsnKind::System => self.execute_system(insn),
            InsnKind::Other => Err(Fault::UnsupportedInstruction(self.pc)),
        }
    }

    /// Fetching and executing the instruction at the program counter.
    #[verifier::opaque]
    pub open spec fn fetch_and_execute(self) -> Result<(Self, Instruction), Fault> {
        let (bus, r) = self.bus.fetch(self.pc);
        if self.pc % 2 != 0 {
            self.program_error()
        } else {
            match r {
            Err(e) => Err(e),
            Ok(insn) => if !registers_valid(insn) {
                Err(Fault::UnsupportedInstruction(self.pc))
            } else {
                match self.set_bus(bus).execute(insn) {
                    Ok(c) => Ok((c, insn)),
                    Err(e) => Err(e),
                }
            },
            }
        }
    }

    /// Emulating the next instruction, after the interrupts have been handled: an instruction
    /// of an IT block whose condition does not hold is skipped (the result is then `Unknown`).
    #[verifier::opaque]
    pub open spec fn step_instruction(self) -> Result<(Self, Instruction), Fault> {
        if self.in_it_block() {
            match self.condition_passed(self.if_then_state >> 4u8) {
                None => self.program_error(),
                Some(passed) => {
                    // See section A7.3.3, ITSTATE, including table A7-2 and ITAdvance() pseudocode.
                    let c = Cpu {
                        if_then_state: (self.if_then_state & 0xE0) | ((self.if_then_state & 0xF)
                            << 1u8),
                        ..self
                    };
                    if passed {
                        c.fetch_and_execute()
                    } else {
                        let (bus, r) = c.bus.read16(c.pc);
                        match r {
                            Err(e) => Err(e),
                            Ok(insn) => Ok(
                                (
                                    c.set_bus(bus).set_pc(
                                        (c.pc + if is_32bit(insn) {
                                            4int
                                        } else {
                                            2int
                                        }) as u32,
                                    ),
                                    Instruction::Unknown,
                                ),
                            ),
                        }
                    }
                },
            }
        } else {
            self.fetch_and_execute()
        }
    }

    /// Emulating one instruction: the system timer is updated, an interrupt is entered if one
    /// is activated, and the next instruction is emulated.
    pub open spec fn step(self) -> Result<(Self, Instruction), Fault> {
        if !self.bus.system_timer.update_supported() {
            Err(
                Fault::UnsupportedValue(
                    crate::time::RELOAD_VALUE_REGISTER,
                    self.bus.system_timer.reload_value,
                ),
            )
        } else {
            self.step_updated()
        }
    }

    /// Updating the peripherals, entering the interrupt handler of the activated interrupt if
    /// any, and emulating the next instruction, once the system timer can be updated.
    pub open spec fn step_updated(self) -> Result<(Self, Instruction), Fault> {
        let (bus, interrupt) = self.bus.after_update();
        let c = self.set_bus(bus);
        let entered = match interrupt {
            Some(n) => c.enter_interrupt((n + 16) as u8),
            None => Ok(c),
        };
        match entered {
            Err(e) => Err(e),
            Ok(c2) => c2.step_instruction(),
        }
    }

    /// Once reading a word failed, reading more words fails in the same way.
    pub proof fn lemma_load_words_failure(bus: BusState<S, P>, address: u32, n: nat, m: nat)
        requires
            n <= m,
            Self::load_words(bus, address, n) is Err,
        ensures
            Self::load_words(bus, address, m) == Self::load_words(bus, address, n),
        decreases m - n,
    {
        if n < m {
            Self::lemma_load_words_failure(bus, address, n, (m - 1) as nat);
        }
    }

    /// When reading words succeeds, reading the first one succeeds.
    pub proof fn lemma_load_words_first(bus: BusState<S, P>, address: u32, n: nat)
        requires
            n >= 1,
            Self::load_words(bus, address, n) is Ok,
        ensures
            bus.read32(address).1 is Ok,
        decreases n,
    {
        if n > 1 {
            Self::lemma_load_words_first(bus, address, (n - 1) as nat);
        } else {
            reveal_with_fuel(Cpu::load_words, 2);
            assert((address + 4 * (n - 1)) as u32 == address);
        }
    }

    /// Reading `n` words gives `n` words.
    pub proof fn lemma_load_words_len(bus: BusState<S, P>, address: u32, n: nat)
        requires
            Self::load_words(bus, address, n) is Ok,
        ensures
            Self::load_words(bus, address, n)->Ok_0.1.len() == n,
        decreases n,
    {
        if n > 0 {
            Self::lemma_load_words_len(bus, address, (n - 1) as nat);
        }
    }

    /// The state after a reset: the bus is reset, and the stack pointer and the program
    /// counter are read from the first two words of the boot memory.
    pub open spec fn after_reset(bus: BusState<S, P>) -> Self {
        let b = bus.after_reset();
        Cpu {
            registers: Seq::new(15, |i: int| 0u32).update(
                LINK_REGISTER as int,
                INITIAL_LINK_REGISTER_VALUE,
            ).update(STACK_POINTER as int, b.memory_word(0)),
            pc: b.memory_word(4) & !1u32,
            last_comparison: Comparison::Equal,
            if_then_state: 0,
            interrupt_status: 0,
            main_stack: true,
            shadow_stack_pointer: 0,
            bus: b,
        }
    }
}

impl<S: SpiDevice, P: PioDevice> Cpu<S, P> {
    /// Whether exception entry pads the stack, to align the frame that it pushes on 8 bytes.
    pub open spec fn frame_padding(self) -> bool {
        ((self.sp() - 32) as u32) % 8 != 0
    }

    /// The address of the frame that exception entry pushes.
    pub open spec fn frame_address(self) -> u32 {
        if self.frame_padding() {
            (self.sp() - 36) as u32
        } else {
            (self.sp() - 32) as u32
        }
    }

    /// The frame that exception entry pushes: R0 to R3, R12, LR, the return address, and the
    /// pseudo status register.
    pub open spec fn exception_frame(self) -> Seq<u32> {
        seq![
            self.reg(0),
            self.reg(1),
            self.reg(2),
            self.reg(3),
            self.reg(12),
            self.reg(LINK_REGISTER as int),
            self.pc,
            pseudo_status(
                self.if_then_state,
                self.last_comparison,
                self.frame_padding(),
                self.interrupt_status,
            ),
        ]
    }
}

/// Exception entry stores `exception_frame` at `frame_address`, and points the stack pointer to
/// it (when the stack pointer leaves room for the frame).
pub proof fn lemma_entry_pushes_frame<S: SpiDevice, P: PioDevice>(cpu: Cpu<S, P>)
    requires
        cpu.sp() >= 36,
    ensures
        cpu.push_frame() == (match cpu.store_words(cpu.frame_address(), cpu.exception_frame(), 0) {
            Ok(c) => Ok::<Cpu<S, P>, Fault>(c.set_reg(STACK_POINTER as int, cpu.frame_address())),
            Err(e) => Err(e),
        }),
{
}

/// Exception return restores what exception entry saved: when the stack pointer of `at_return`
/// is the address of the frame that entry pushed from `before`, and this frame is still on the
/// stack, popping it restores R0 to R3, R12, LR, the stack pointer, the program counter, the IT
/// state, the comparison and the exception number of `before`, and leaves the other registers.
pub proof fn lemma_exit_restores_entry<S: SpiDevice, P: PioDevice>(
    before: Cpu<S, P>,
    at_return: Cpu<S, P>,
    bus: BusState<S, P>,
)
    requires
        before.sp() >= 36,
        at_return.registers.len() == 15,
        at_return.sp() == before.frame_address(),
        Cpu::<S, P>::load_words(at_return.bus, at_return.sp(), 8) == Ok::<
            (BusState<S, P>, Seq<u32>),
            Fault,
        >((bus, before.exception_frame())),
    ensures
        at_return.pop_frame() is Ok,
        ({
            let after = at_return.pop_frame()->Ok_0;
            &&& after.reg(0) == before.reg(0)
            &&& after.reg(1) == before.reg(1)
            &&& after.reg(2) == before.reg(2)
            &&& after.reg(3) == before.reg(3)
            &&& after.reg(12) == before.reg(12)
            &&& after.reg(LINK_REGISTER as int) == before.reg(LINK_REGISTER as int)
            &&& after.sp() == before.sp()
            &&& forall|i: int| 4 <= i < 12 ==> after.reg(i) == at_return.reg(i)
            &&& after.pc == before.pc
            &&& after.if_then_state == before.if_then_state
            &&& after.last_comparison == before.last_comparison
            &&& after.interrupt_status == before.interrupt_status
            &&& after.bus == bus
        }),
{
    let w = before.exception_frame();
    let sp = at_return.sp();
    let c = Cpu {
        registers: at_return.registers.update(0, w[0]).update(1, w[1]).update(2, w[2]).update(
            3,
            w[3],
        ).update(12, w[4]).update(STACK_POINTER as int, (sp + 32) as u32).update(
            LINK_REGISTER as int,
            w[5],
        ),
        pc: w[6],
        bus,
        ..at_return
    };
    lemma_pseudo_status_round_trip(
        c,
        before.if_then_state,
        before.last_comparison,
        before.frame_padding(),
        before.interrupt_status,
    );
}

/// CMP Rn, #imm8 compares the value of register Rn (and no other) with the 8 bit immediate:
/// the comparison is Equal when they are equal, Less when the register is below the immediate
/// (unsigned), and Greater otherwise; the registers and the bus are unchanged, and the program
/// counter moves to the next half word.
pub proof fn lemma_compare_immediate<S: SpiDevice, P: PioDevice>(cpu: Cpu<S, P>, rn: u8, imm8: u8)
    requires
        rn < 15,
        cpu.pc + 2 <= u32::MAX,
    ensures
        cpu.execute(Instruction::CmpRnImm8 { rn, imm8 }) is Ok,
        ({
            let after = cpu.execute(Instruction::CmpRnImm8 { rn, imm8 })->Ok_0;
            &&& cpu.registers[rn as int] == imm8 ==> after.last_comparison == Comparison::Equal
            &&& cpu.registers[rn as int] < imm8 ==> after.last_comparison == Comparison::Less
            &&& cpu.registers[rn as int] > imm8 ==> after.last_comparison == Comparison::Greater
            &&& after.registers == cpu.registers
            &&& after.bus == cpu.bus
            &&& after.pc == cpu.pc + 2
            &&& after.if_then_state == cpu.if_then_state
        }),
{
    reveal(Cpu::execute);
}

/// A branch (B, BL, BLX, BX or CBZ) executed inside an IT block, other than as its last
/// instruction, is a program error: it gives `Err(Fault::ProgramError(pc))`, where `pc` is its
/// address, and the emulation does not go on.
pub proof fn lemma_branch_in_it_block<S: SpiDevice, P: PioDevice>(cpu: Cpu<S, P>, insn: Instruction)
    requires
        cpu.in_it_block(),
        insn is BImm11 || insn is BlPlusImm24 || insn is BlMinusImm24 || insn is BlxRm
            || insn is BxRm || insn is CbzRnImm6,
    ensures
        cpu.execute_branch(insn) == Err::<Cpu<S, P>, Fault>(Fault::ProgramError(cpu.pc)),
{
}

/// Exception entry saves the IT state, the comparison, the stack padding bit and the exception
/// number in the pseudo program status register, and exception return restores exactly them from
/// it.
pub proof fn lemma_pseudo_status_round_trip<S: SpiDevice, P: PioDevice>(
    cpu: Cpu<S, P>,
    if_then_state: u8,
    comparison: Comparison,
    padding: bool,
    interrupt_status: u8,
)
    ensures
        cpu.set_pseudo_status(pseudo_status(if_then_state, comparison, padding, interrupt_status))
            == Ok::<(Cpu<S, P>, bool), Fault>(
            (
                Cpu { if_then_state, last_comparison: comparison, interrupt_status, ..cpu },
                padding,
            ),
        ),
{
    let flags = comparison_flags(comparison);
    let pad: u32 = if padding {
        1
    } else {
        0
    };
    let status = pseudo_status(if_then_state, comparison, padding, interrupt_status);
    assert(status == (1u32 << 24u32) | ((if_then_state as u32) << 16u32) | (flags << 10u32) | (pad
        << 9u32) | (interrupt_status as u32));
    assert({
        &&& status & (1u32 << 24u32) != 0
        &&& (status >> 16u32) as u8 == if_then_state
        &&& (status >> 10u32) & 3 == flags
        &&& status as u8 == interrupt_status
        &&& ((status >> 9u32) & 1 != 0) == (pad == 1)
    }) by (bit_vector)
        requires
            status == (1u32 << 24u32) | ((if_then_state as u32) << 16u32) | (flags << 10u32) | (pad
                << 9u32) | (interrupt_status as u32),
            flags <= 2,
            pad <= 1,
    ;
}

} // verus!
