use vstd::prelude::*;
use crate::arm::{decode_insn, is32bit_insn, Instruction};
use crate::boot::{parse_from, prompt, BootMonitor, Command, MonitorState};
use crate::bus::{lemma_fetch_bound, lemma_read16_ok, lemma_read32_ok_bound, lemma_read8_ok, region, BusMatrix, BusState, RAM1_LAST};
use crate::memory::split_insn;
use crate::cpu::{
    checked, compare, insn_kind, is_compare_insn, pseudo_status, registers_valid, Comparison, Cpu, InsnKind,
    BOOT_MONITOR_PROGRAM_COUNTER, CONDITION_EQ, CONDITION_GE, CONDITION_GT, CONDITION_LE,
    CONDITION_LT, CONDITION_NE, CONTROL_SPECIAL_REGISTER, INITIAL_LINK_REGISTER_VALUE,
    LINK_REGISTER, MAIN_STACK_POINTER_SPECIAL_REGISTER, PROCESS_STACK_POINTER_SPECIAL_REGISTER,
    STACK_POINTER, SVC_EXCEPTION_NUMBER,
};
use crate::fault::Fault;
use crate::pio::{Controller, EmptyPioDevice, PioDevice};
use crate::spi::{EmptySpiDevice, SpiDevice};

verus! {

/// Whether the outcome of an operation, which left the processor in the state `c` and returned
/// `r`, is the `expected` one: the expected state and value, or the expected fault.
pub open spec fn follows<C, T>(c: C, r: Result<T, Fault>, expected: Result<(C, T), Fault>) -> bool {
    match expected {
        Ok((c2, v)) => r == Ok::<T, Fault>(v) && c == c2,
        Err(e) => r == Err::<T, Fault>(e),
    }
}

/// Whether executing `insn` may write to the memory (the stores, PUSH, and SVC, whose exception
/// entry pushes a frame).
pub open spec fn writes_memory(insn: Instruction) -> bool {
    ||| insn is StrbRtRnImm5
    ||| insn is StrhRtRnImm5
    ||| insn is StrRtRnImm5
    ||| insn is StrRtSpImm8
    ||| insn is Push
    ||| insn is SvcImm8
}

/// Whether the instruction at `address` can stay in the decoded instruction cache of `bus`: it
/// is in an executable memory, and is not a 32 bit instruction cut by the end of its bank.
pub open spec fn cacheable<S: SpiDevice, P: PioDevice>(bus: BusState<S, P>, address: u32) -> bool {
    &&& bus.executable(region(address))
    &&& !split_insn(bus.bank(region(address)), BusState::<S, P>::halfword_index(address))
}

/// Whether the outcome of an operation which returns nothing is the `expected` one.
pub open spec fn follows_unit<S: SpiDevice, P: PioDevice>(
    c: Cpu<S, P>,
    r: Result<(), Fault>,
    expected: Result<Cpu<S, P>, Fault>,
) -> bool {
    match expected {
        Ok(c2) => r == Ok::<(), Fault>(()) && c == c2,
        Err(e) => r == Err::<(), Fault>(e),
    }
}

/// The state of a micro-controller which is on: its processor and bus, its boot program, and
/// whether it runs the program of its flash memory.
#[verifier::ext_equal]
pub struct ChipState<S: SpiDevice, P: PioDevice> {
    pub cpu: Cpu<S, P>,
    pub monitor: MonitorState,
    pub monitor_input: Seq<char>,
    pub run_from_flash: bool,
}

impl<S: SpiDevice, P: PioDevice> ChipState<S, P> {
    /// The state after a reset.
    #[verifier::opaque]
    pub open spec fn after_reset(self) -> Self {
        ChipState {
            cpu: Cpu::after_reset(self.cpu.bus),
            monitor: MonitorState {
                command: Command::Idle,
                address: 0,
                value: 0,
                output: Seq::empty(),
            },
            monitor_input: Seq::empty(),
            run_from_flash: self.cpu.bus.flash_controller.boot_from_flash,
        }
    }

    /// Emulating one instruction, after a reset if one was requested.
    #[verifier::opaque]
    pub open spec fn emulate(self) -> Result<(Self, Instruction), Fault> {
        let s = if self.cpu.bus.reset_requested {
            self.after_reset()
        } else {
            self
        };
        match s.cpu.step() {
            Ok((c, insn)) => Ok((ChipState { cpu: c, ..s }, insn)),
            Err(e) => Err(e),
        }
    }

    /// Emulating instructions until the program returns to the boot program, at most `count`
    /// times: the state, and the number of instructions which could still have been emulated.
    pub open spec fn run_program(self, count: u32) -> Result<(Self, u32), Fault>
        decreases count,
    {
        if self.cpu.pc == BOOT_MONITOR_PROGRAM_COUNTER || count == 0 {
            Ok((self, count))
        } else {
            match self.emulate() {
                Ok((s, _)) => s.run_program((count - 1) as u32),
                Err(e) => Err(e),
            }
        }
    }

    /// The state after a reset if one was requested.
    pub open spec fn maybe_reset(self) -> Self {
        if self.cpu.bus.reset_requested {
            self.after_reset()
        } else {
            self
        }
    }

    /// Running the program at `address`, received with a Go command by the boot program,
    /// during at most `max_cycles` instructions: the state, and whether the program returned
    /// to the boot program.
    pub open spec fn go(self, address: u32, max_cycles: u32) -> Result<(Self, bool), Fault> {
        match checked(address + 4) {
            None => Err(Fault::ProgramError(address)),
            Some(entry_address) => {
                let (bus, r) = self.cpu.bus.read32(entry_address);
                match r {
                    Err(e) => Err(e),
                    Ok(entry) => if entry & 1 != 1 {
                        Err(Fault::ProgramError(entry_address))
                    } else {
                        let (bus2, r2) = bus.read32(entry_address);
                        match r2 {
                            Err(e) => Err(e),
                            Ok(entry2) => {
                                let s = ChipState {
                                    cpu: Cpu {
                                        registers: self.cpu.registers.update(
                                            STACK_POINTER as int,
                                            INITIAL_STACK_POINTER,
                                        ).update(
                                            LINK_REGISTER as int,
                                            BOOT_MONITOR_PROGRAM_COUNTER | 1,
                                        ),
                                        pc: entry2 & !1u32,
                                        bus: bus2,
                                        ..self.cpu
                                    },
                                    ..self
                                };
                                match s.run_program(max_cycles) {
                                    Err(e) => Err(e),
                                    Ok((s2, left)) => if left == 0 {
                                        Ok((s2, false))
                                    } else if s2.cpu.sp() != INITIAL_STACK_POINTER {
                                        Err(Fault::ProgramError(s2.cpu.pc))
                                    } else {
                                        Ok(
                                            (
                                                ChipState {
                                                    monitor: MonitorState {
                                                        output: s2.monitor.output + prompt(),
                                                        ..s2.monitor
                                                    },
                                                    ..s2
                                                },
                                                true,
                                            ),
                                        )
                                    },
                                }
                            },
                        }
                    },
                }
            },
        }
    }

    /// Sending `data` to the boot program (unless the program of the flash memory is running):
    /// the state, and whether the boot program processed it and is ready for more input.
    pub open spec fn serial_input(self, data: Seq<char>, max_cycles: u32) -> Result<
        (Self, bool),
        Fault,
    > {
        if self.run_from_flash {
            Ok((self, false))
        } else {
            let all = self.monitor_input + data;
            let (m, bus, count, r) = parse_from(self.monitor, self.cpu.bus, all, 0);
            let s = ChipState {
                cpu: Cpu { bus, ..self.cpu },
                monitor: m,
                monitor_input: all.subrange(count, all.len() as int),
                ..self
            };
            match r {
                Err(e) => Err(e),
                Ok(None) => Ok((s.maybe_reset(), true)),
                Ok(Some(address)) => match s.go(address, max_cycles) {
                    Err(e) => Err(e),
                    Ok((s2, false)) => Ok((s2, false)),
                    Ok((s2, true)) => Ok((s2.maybe_reset(), true)),
                },
            }
        }
    }

    /// Emulating `count` instructions.
    pub open spec fn run(self, count: nat) -> Result<Self, Fault>
        decreases count,
    {
        if count == 0 {
            Ok(self)
        } else {
            match self.emulate() {
                Ok((s, _)) => s.run((count - 1) as nat),
                Err(e) => Err(e),
            }
        }
    }
}

/// The stack pointer of a program run with the SAM-BA "G" command.
pub const INITIAL_STACK_POINTER: u32 = 0x20001000;

/// Whether the outcome of an operation on the micro-controller which returns nothing is the
/// `expected` one.
pub open spec fn follows_unit_state<S: SpiDevice, P: PioDevice>(
    s: ChipState<S, P>,
    r: Result<(), Fault>,
    expected: Result<ChipState<S, P>, Fault>,
) -> bool {
    match expected {
        Ok(s2) => r == Ok::<(), Fault>(()) && s == s2,
        Err(e) => r == Err::<(), Fault>(e),
    }
}

/// An emulated SAM3X8E micro-controller (an ARM Cortex-M3 core, its memories and some of its
/// peripherals), running either the SAM-BA boot program or a program from its flash memory.
pub struct MicroController<S: SpiDevice, P: PioDevice> {
    pub on: bool,
    pub boot_monitor: BootMonitor,
    pub bus_matrix: BusMatrix<S, P>,
    pub registers: [u32; 15],
    pub program_counter: u32,
    pub last_comparison: Comparison,
    pub if_then_state: u8,
    pub interrupt_status: u8,
    pub main_stack: bool,
    pub shadow_stack_pointer: u32,
    pub run_from_flash: bool,
    pub max_boot_program_go_cycles: u32,
}

impl<S: SpiDevice, P: PioDevice> MicroController<S, P> {
    /// The state of the processor and of the bus.
    pub open spec fn cpu(self) -> Cpu<S, P> {
        Cpu {
            registers: self.registers@,
            pc: self.program_counter,
            last_comparison: self.last_comparison,
            if_then_state: self.if_then_state,
            interrupt_status: self.interrupt_status,
            main_stack: self.main_stack,
            shadow_stack_pointer: self.shadow_stack_pointer,
            bus: self.bus_matrix@,
        }
    }

    pub open spec fn inv(self) -> bool {
        self.bus_matrix.inv()
    }

    /// The state of the micro-controller.
    pub open spec fn state(self) -> ChipState<S, P> {
        ChipState {
            cpu: self.cpu(),
            monitor: self.boot_monitor.state(),
            monitor_input: self.boot_monitor.input@,
            run_from_flash: self.run_from_flash,
        }
    }

    /// The other parts of the micro-controller are unchanged.
    pub open spec fn same_outside_cpu(self, other: Self) -> bool {
        &&& self.on == other.on
        &&& self.boot_monitor == other.boot_monitor
        &&& self.run_from_flash == other.run_from_flash
        &&& self.max_boot_program_go_cycles == other.max_boot_program_go_cycles
    }

    fn set_reg(&mut self, r: u8, value: u32)
        requires
            r < 15,
        ensures
            final(self).cpu() == old(self).cpu().set_reg(r as int, value),
            final(self).bus_matrix == old(self).bus_matrix,
            final(self).same_outside_cpu(*old(self)),
    {
        self.registers[r as usize] = value;
    }

    /// Executes a data processing instruction.
    fn execute_data(&mut self, insn: Instruction) -> (r: Result<(), Fault>)
        requires
            old(self).inv(),
            registers_valid(insn),
            old(self).program_counter <= RAM1_LAST,
        ensures
            final(self).bus_matrix == old(self).bus_matrix,
            final(self).inv(),
            final(self).same_outside_cpu(*old(self)),
            follows_unit(final(self).cpu(), r, old(self).cpu().execute_data(insn)),
    {
        let pc = self.program_counter;
        let next = pc + 2;
        let next32 = pc + 4;
        match insn {
            Instruction::AddRdnImm8 { rdn, imm8 } => {
                let v = self.registers[rdn as usize].wrapping_add(imm8 as u32);
                self.set_reg(rdn, v);
            },
            Instruction::AddRdRnRm { rd, rn, rm } => {
                let v = self.registers[rn as usize].wrapping_add(self.registers[rm as usize]);
                self.set_reg(rd, v);
            },
            Instruction::AddRdSpImm8 { rd, imm } => {
                match self.registers[STACK_POINTER].checked_add(imm as u32) {
                    Some(v) => self.set_reg(rd, v),
                    None => return Err(Fault::ProgramError(pc)),
                }
            },
            Instruction::AddSpSpImm7 { imm } => {
                match self.registers[STACK_POINTER].checked_add(imm as u32) {
                    Some(v) => self.set_reg(13, v),
                    None => return Err(Fault::ProgramError(pc)),
                }
            },
            Instruction::AdrRdMinusImm12 { rd, imm12 } => {
                match (next32 & 0xFFFFFFFC).checked_sub(imm12 as u32) {
                    Some(v) => self.set_reg(rd, v),
                    None => return Err(Fault::ProgramError(pc)),
                }
                self.program_counter = next32;
                return Ok(());
            },
            Instruction::AndRdnRm { rdn, rm } => {
                let v = self.registers[rdn as usize] & self.registers[rm as usize];
                self.set_reg(rdn, v);
            },
            Instruction::CmpRnImm8 { rn, imm8 } => {
                self.last_comparison = compare_values(self.registers[rn as usize], imm8 as u32);
            },
            Instruction::CmpRnRm { rn, rm } => {
                self.last_comparison = compare_values(
                    self.registers[rn as usize],
                    self.registers[rm as usize],
                );
            },
            Instruction::LslRdnRm { rdn, rm } => {
                let shift = self.registers[rm as usize] & 0xFF;
                if shift >= 32 {
                    return Err(Fault::ProgramError(pc));
                }
                let v = self.registers[rdn as usize] << shift;
                self.set_reg(rdn, v);
            },
            Instruction::LslRdRmImm5 { rd, rm, imm5 } => {
                if imm5 >= 32 {
                    return Err(Fault::ProgramError(pc));
                }
                let v = self.registers[rm as usize] << (imm5 as u32);
                self.set_reg(rd, v);
            },
            Instruction::LsrRdnRm { rdn, rm } => {
                let shift = self.registers[rm as usize] & 0xFF;
                if shift >= 32 {
                    return Err(Fault::ProgramError(pc));
                }
                let v = self.registers[rdn as usize] >> shift;
                self.set_reg(rdn, v);
            },
            Instruction::LsrRdRmImm5 { rd, rm, imm } => {
                if imm == 32 {
                    self.set_reg(rd, 0);
                } else if imm > 32 {
                    return Err(Fault::ProgramError(pc));
                } else {
                    let v = self.registers[rm as usize] >> (imm as u32);
                    self.set_reg(rd, v);
                }
            },
            Instruction::MovRdImm8 { rd, imm8 } => {
                self.set_reg(rd, imm8 as u32);
            },
            Instruction::MovtRdImm16 { rd, imm16 } => {
                let v = ((imm16 as u32) << 16u32) | (self.registers[rd as usize] & 0xFFFF);
                self.set_reg(rd, v);
                self.program_counter = next32;
                return Ok(());
            },
            Instruction::MovwRdImm16 { rd, imm16 } => {
                self.set_reg(rd, imm16 as u32);
                self.program_counter = next32;
                return Ok(());
            },
            Instruction::MulRdmRn { rdm, rn } => {
                let v = self.registers[rdm as usize].wrapping_mul(self.registers[rn as usize]);
                self.set_reg(rdm, v);
            },
            Instruction::OrrRdnRm { rdn, rm } => {
                let v = self.registers[rdn as usize] | self.registers[rm as usize];
                self.set_reg(rdn, v);
            },
            Instruction::SubRdnImm8 { rdn, imm8 } => {
                let v = self.registers[rdn as usize].wrapping_sub(imm8 as u32);
                self.set_reg(rdn, v);
            },
            Instruction::SubRdRnRm { rd, rn, rm } => {
                let v = self.registers[rn as usize].wrapping_sub(self.registers[rm as usize]);
                self.set_reg(rd, v);
            },
            Instruction::SubSpSpImm7 { imm } => {
                match self.registers[STACK_POINTER].checked_sub(imm as u32) {
                    Some(v) => self.set_reg(13, v),
                    None => return Err(Fault::ProgramError(pc)),
                }
            },
            Instruction::UdivRdRnRm { rd, rn, rm } => {
                let divisor = self.registers[rm as usize];
                if divisor == 0 {
                    return Err(Fault::ProgramError(pc));
                }
                let v = self.registers[rn as usize] / divisor;
                self.set_reg(rd, v);
                self.program_counter = next32;
                return Ok(());
            },
            _ => return Err(Fault::UnsupportedInstruction(pc)),
        }
        self.program_counter = next;
        Ok(())
    }

    fn set_main_stack(&mut self, main_stack: bool)
        ensures
            final(self).bus_matrix.same_code(old(self).bus_matrix),
            final(self).cpu() == old(self).cpu().set_main_stack(main_stack),
            final(self).bus_matrix == old(self).bus_matrix,
            final(self).same_outside_cpu(*old(self)),
    {
        if main_stack != self.main_stack {
            let sp = self.registers[STACK_POINTER];
            self.registers[STACK_POINTER] = self.shadow_stack_pointer;
            self.shadow_stack_pointer = sp;
        }
        self.main_stack = main_stack;
    }

    pub fn get_stack_pointer(&self, main_stack: bool) -> (r: u32)
        ensures
            r == self.cpu().stack_pointer(main_stack),
    {
        if main_stack == self.main_stack {
            self.registers[STACK_POINTER]
        } else {
            self.shadow_stack_pointer
        }
    }

    fn set_stack_pointer(&mut self, value: u32, main_stack: bool)
        ensures
            final(self).bus_matrix.same_code(old(self).bus_matrix),
            final(self).cpu() == old(self).cpu().set_stack_pointer(value, main_stack),
            final(self).bus_matrix == old(self).bus_matrix,
            final(self).same_outside_cpu(*old(self)),
    {
        if main_stack == self.main_stack {
            self.registers[STACK_POINTER] = value;
        } else {
            self.shadow_stack_pointer = value;
        }
    }

    /// The pseudo program status register saved on exception entry.
    pub fn get_pseudo_program_status_register(&self, stack_padding: bool) -> (r: u32)
        ensures
            r == pseudo_status(
                self.if_then_state,
                self.last_comparison,
                stack_padding,
                self.interrupt_status,
            ),
    {
        let pseudo_condition_flags: u32 = match self.last_comparison {
            Comparison::Equal => 0,
            Comparison::Greater => 1,
            Comparison::Less => 2,
        };
        let padding: u32 = if stack_padding {
            1
        } else {
            0
        };
        (1u32 << 24u32) | ((self.if_then_state as u32) << 16u32) | (pseudo_condition_flags << 10u32)
            | (padding << 9u32) | (self.interrupt_status as u32)
    }

    /// Restores the state saved in a pseudo program status register, and returns its stack
    /// padding bit.
    pub fn set_pseudo_program_status_register(&mut self, pseudo_program_status: u32) -> (r: Result<
        bool,
        Fault,
    >)
        ensures
            final(self).bus_matrix.same_code(old(self).bus_matrix),
            final(self).bus_matrix == old(self).bus_matrix,
            final(self).same_outside_cpu(*old(self)),
            follows(final(self).cpu(), r, old(self).cpu().set_pseudo_status(pseudo_program_status)),
    {
        if pseudo_program_status & (1u32 << 24u32) == 0 {
            return Err(Fault::ProgramError(self.program_counter));
        }
        self.if_then_state = (pseudo_program_status >> 16u32) as u8;
        let flags = (pseudo_program_status >> 10u32) & 3;
        self.last_comparison = if flags == 0 {
            Comparison::Equal
        } else if flags == 1 {
            Comparison::Greater
        } else {
            Comparison::Less
        };
        self.interrupt_status = pseudo_program_status as u8;
        Ok((pseudo_program_status >> 9u32) & 1 != 0)
    }

    /// Writes `words` at `address`, `address + 4`, ..., on the bus.
    fn store_words(&mut self, address: u32, words: &Vec<u32>) -> (r: Result<(), Fault>)
        requires
            old(self).inv(),
            words@.len() == 8,
            address + 28 <= u32::MAX,
        ensures
            final(self).inv(),
            final(self).same_outside_cpu(*old(self)),
            follows_unit(final(self).cpu(), r, old(self).cpu().store_words(address, words@, 0)),
    {
        let mut i: usize = 0;
        while i < 8
            invariant
                self.inv(),
                self.same_outside_cpu(*old(self)),
                words@.len() == 8,
                address + 28 <= u32::MAX,
                i <= 8,
                old(self).cpu().store_words(address, words@, 0) == self.cpu().store_words(
                    address,
                    words@,
                    i as int,
                ),
            decreases 8 - i,
        {
            self.bus_matrix.set32(address + 4 * (i as u32), words[i])?;
            i = i + 1;
        }
        Ok(())
    }

    /// Reads the 8 words at `address`, `address + 4`, ..., on the bus.
    fn load_words(&mut self, address: u32) -> (r: Result<Vec<u32>, Fault>)
        requires
            old(self).inv(),
        ensures
            final(self).bus_matrix.same_code(old(self).bus_matrix),
            final(self).inv(),
            final(self).same_outside_cpu(*old(self)),
            final(self).cpu() == old(self).cpu().set_bus(final(self).bus_matrix@),
            match Cpu::<S, P>::load_words(old(self).bus_matrix@, address, 8) {
                Ok((bus, words)) => r is Ok && r->Ok_0@ == words && final(self).bus_matrix@
                    == bus,
                Err(e) => r == Err::<Vec<u32>, Fault>(e),
            },
    {
        let mut words: Vec<u32> = Vec::new();
        let ghost bus0 = self.bus_matrix@;
        let first = self.bus_matrix.get32(address);
        proof {
            reveal_with_fuel(Cpu::load_words, 2);
        }
        let first = match first {
            Ok(w) => w,
            Err(e) => {
                proof {
                    Cpu::<S, P>::lemma_load_words_failure(bus0, address, 1, 8);
                }
                return Err(e);
            },
        };
        proof {
            lemma_read32_ok_bound(bus0, address);
        }
        words.push(first);
        let mut i: u32 = 1;
        while i < 8
            invariant
                self.inv(),
                self.same_outside_cpu(*old(self)),
                self.bus_matrix.same_code(old(self).bus_matrix),
                self.cpu() == old(self).cpu().set_bus(self.bus_matrix@),
                bus0 == old(self).bus_matrix@,
                1 <= i <= 8,
                address <= 0xFFFFFF00,
                Cpu::<S, P>::load_words(bus0, address, i as nat) == Ok::<
                    (BusState<S, P>, Seq<u32>),
                    Fault,
                >((self.bus_matrix@, words@)),
            decreases 8 - i,
        {
            let w = self.bus_matrix.get32(address + 4 * i);
            match w {
                Ok(w) => words.push(w),
                Err(e) => {
                    proof {
                        Cpu::<S, P>::lemma_load_words_failure(bus0, address, (i + 1) as nat, 8);
                    }
                    return Err(e);
                },
            }
            i = i + 1;
        }
        Ok(words)
    }

    /// Enters the handler of the exception `exception_number`.
    fn enter_interrupt(&mut self, exception_number: u8) -> (r: Result<(), Fault>)
        requires
            old(self).inv(),
        ensures
            final(self).inv(),
            final(self).same_outside_cpu(*old(self)),
            follows_unit(final(self).cpu(), r, old(self).cpu().enter_interrupt(exception_number)),
    {
        reveal(Cpu::enter_interrupt);
        let vector_table = self.bus_matrix.system_controller.vector_table_offset;
        match vector_table.checked_add(4 * (exception_number as u32)) {
            Some(handler_address) => self.enter_handler(exception_number, handler_address),
            None => Err(Fault::ProgramError(self.program_counter)),
        }
    }

    /// Enters the exception handler whose address is at `handler_address`.
    fn enter_handler(&mut self, exception_number: u8, handler_address: u32) -> (r: Result<
        (),
        Fault,
    >)
        requires
            old(self).inv(),
        ensures
            final(self).inv(),
            final(self).same_outside_cpu(*old(self)),
            follows_unit(
                final(self).cpu(),
                r,
                old(self).cpu().enter_handler(exception_number, handler_address),
            ),
    {
        let pc = self.program_counter;
        let handler = self.read_handler(handler_address)?;
        if handler & 1 != 1 {
            return Err(Fault::ProgramError(pc));
        }
        self.push_frame()?;
        self.finish_entry(exception_number, handler)
    }

    /// Reads the address of an exception handler in the vector table.
    fn read_handler(&mut self, handler_address: u32) -> (r: Result<u32, Fault>)
        requires
            old(self).inv(),
        ensures
            final(self).inv(),
            final(self).same_outside_cpu(*old(self)),
            (final(self).cpu(), r) == old(self).cpu().read_handler(handler_address),
    {
        let mpu_enable = self.bus_matrix.memory_protection_unit.enable;
        // Accesses to the vector table for exception entry are always permitted. We ensure this by
        // temporarily disabling the MPU.
        self.bus_matrix.memory_protection_unit.enable = false;
        let handler = self.bus_matrix.get32(handler_address);
        self.bus_matrix.memory_protection_unit.enable = mpu_enable;
        handler
    }

    /// Pushes the caller saved registers on the stack, on exception entry.
    fn push_frame(&mut self) -> (r: Result<(), Fault>)
        requires
            old(self).inv(),
        ensures
            final(self).inv(),
            final(self).same_outside_cpu(*old(self)),
            follows_unit(final(self).cpu(), r, old(self).cpu().push_frame()),
    {
        let pc = self.program_counter;
        let frame = match self.registers[STACK_POINTER].checked_sub(8 * 4) {
            Some(frame) => frame,
            None => return Err(Fault::ProgramError(pc)),
        };
        let padding = frame % 8 != 0;
        let stack_pointer = if padding {
            match frame.checked_sub(4) {
                Some(sp) => sp,
                None => return Err(Fault::ProgramError(pc)),
            }
        } else {
            frame
        };
        let status = self.get_pseudo_program_status_register(padding);
        let words = vec![
            self.registers[0],
            self.registers[1],
            self.registers[2],
            self.registers[3],
            self.registers[12],
            self.registers[LINK_REGISTER],
            self.program_counter,
            status,
        ];
        proof {
            assert(words@ =~= seq![
                self.registers@[0],
                self.registers@[1],
                self.registers@[2],
                self.registers@[3],
                self.registers@[12],
                self.registers@[LINK_REGISTER as int],
                self.program_counter,
                status,
            ]);
        }
        self.store_words(stack_pointer, &words)?;
        self.registers[STACK_POINTER] = stack_pointer;
        Ok(())
    }

    /// Calls the exception handler `handler`, after the frame is pushed.
    fn finish_entry(&mut self, exception_number: u8, handler: u32) -> (r: Result<(), Fault>)
        requires
            old(self).inv(),
        ensures
            final(self).inv(),
            final(self).same_outside_cpu(*old(self)),
            follows_unit(final(self).cpu(), r, old(self).cpu().finish_entry(exception_number, handler)),
    {
        let pc = self.program_counter;
        let main_stack = self.main_stack;
        let handler_mode = self.bus_matrix.handler_mode;
        if handler_mode && !main_stack {
            return Err(Fault::ProgramError(pc));
        }
        self.set_main_stack(true);
        let lr = if handler_mode {
            0xFFFFFFF1
        } else if main_stack {
            0xFFFFFFF9
        } else {
            0xFFFFFFFD
        };
        self.registers[LINK_REGISTER] = lr;
        self.program_counter = handler & !1u32;
        self.last_comparison = Comparison::Equal;
        self.if_then_state = 0;
        self.interrupt_status = exception_number;
        self.bus_matrix.handler_mode = true;
        Ok(())
    }

    /// Returns from the current exception handler.
    fn exit_interrupt(&mut self, exc_return: u32) -> (r: Result<(), Fault>)
        requires
            old(self).inv(),
        ensures
            final(self).bus_matrix.same_code(old(self).bus_matrix),
            final(self).inv(),
            final(self).same_outside_cpu(*old(self)),
            follows_unit(final(self).cpu(), r, old(self).cpu().exit_interrupt(exc_return)),
    {
        reveal(Cpu::exit_interrupt);
        self.exit_mode(exc_return)?;
        self.pop_frame()
    }

    /// Leaves the handler mode on exception return.
    fn exit_mode(&mut self, exc_return: u32) -> (r: Result<(), Fault>)
        requires
            old(self).inv(),
        ensures
            final(self).bus_matrix.same_code(old(self).bus_matrix),
            final(self).inv(),
            final(self).same_outside_cpu(*old(self)),
            follows_unit(final(self).cpu(), r, old(self).cpu().exit_mode(exc_return)),
    {
        let pc = self.program_counter;
        if !self.bus_matrix.handler_mode || !self.main_stack {
            return Err(Fault::ProgramError(pc));
        }
        if exc_return == 0xFFFFFFF9 {
            self.bus_matrix.handler_mode = false;
        } else if exc_return == 0xFFFFFFFD {
            self.set_main_stack(false);
            self.bus_matrix.handler_mode = false;
        } else if exc_return != 0xFFFFFFF1 {
            return Err(Fault::ProgramError(pc));
        }
        if self.interrupt_status >= 16 {
            self.bus_matrix.deactivate_interrupt();
        }
        Ok(())
    }

    /// Pops the registers saved on exception entry.
    fn pop_frame(&mut self) -> (r: Result<(), Fault>)
        requires
            old(self).inv(),
        ensures
            final(self).bus_matrix.same_code(old(self).bus_matrix),
            final(self).inv(),
            final(self).same_outside_cpu(*old(self)),
            follows_unit(final(self).cpu(), r, old(self).cpu().pop_frame()),
    {
        let stack_pointer = self.registers[STACK_POINTER];
        let ghost bus = self.bus_matrix@;
        let words = self.load_words(stack_pointer)?;
        proof {
            Cpu::<S, P>::lemma_load_words_first(bus, stack_pointer, 8);
            Cpu::<S, P>::lemma_load_words_len(bus, stack_pointer, 8);
            lemma_read32_ok_bound(bus, stack_pointer);
        }
        self.registers[0] = words[0];
        self.registers[1] = words[1];
        self.registers[2] = words[2];
        self.registers[3] = words[3];
        self.registers[12] = words[4];
        self.registers[STACK_POINTER] = stack_pointer + 8 * 4;
        self.registers[LINK_REGISTER] = words[5];
        self.program_counter = words[6];
        let padding = self.set_pseudo_program_status_register(words[7])?;
        if padding {
            self.registers[STACK_POINTER] = stack_pointer + 9 * 4;
        }
        Ok(())
    }

    /// Continues at the branch target `target`.
    fn branch_exchange(&mut self, target: u32) -> (r: Result<(), Fault>)
        requires
            old(self).inv(),
        ensures
            final(self).bus_matrix.same_code(old(self).bus_matrix),
            final(self).inv(),
            final(self).same_outside_cpu(*old(self)),
            follows_unit(final(self).cpu(), r, old(self).cpu().branch_exchange(target)),
    {
        let pc = target & !1u32;
        self.program_counter = pc;
        if pc & 0xF0000000 == 0xF0000000 && pc != BOOT_MONITOR_PROGRAM_COUNTER {
            self.exit_interrupt(target)
        } else {
            Ok(())
        }
    }

    fn in_if_then_block(&self) -> (r: bool)
        ensures
            r == self.cpu().in_it_block(),
    {
        self.if_then_state & 0xF != 0
    }

    /// Executes a branch instruction.
    fn execute_branch(&mut self, insn: Instruction) -> (r: Result<(), Fault>)
        requires
            old(self).inv(),
            registers_valid(insn),
            old(self).program_counter <= RAM1_LAST,
        ensures
            !writes_memory(insn) ==> final(self).bus_matrix.same_code(old(self).bus_matrix),
            final(self).inv(),
            final(self).same_outside_cpu(*old(self)),
            follows_unit(final(self).cpu(), r, old(self).cpu().execute_branch(insn)),
    {
        let pc = self.program_counter;
        let next = pc + 2;
        match insn {
            Instruction::BImm11 { imm } => {
                if self.in_if_then_block() {
                    return Err(Fault::ProgramError(pc));
                }
                let target: i64 = pc as i64 + 4 + imm as i64;
                self.program_counter = target as u32;
                Ok(())
            },
            Instruction::BlPlusImm24 { imm16, imm8 } => {
                if self.in_if_then_block() {
                    return Err(Fault::ProgramError(pc));
                }
                let imm = ((imm8 as u32) << 16u32) | imm16 as u32;
                assert(((imm8 as u32) << 16u32) | imm16 as u32 <= 0xFFFFFF) by (bit_vector)
                    requires
                        imm8 < 256,
                ;
                self.registers[LINK_REGISTER] = (pc + 4) | 1;
                self.program_counter = pc + 4 + imm;
                Ok(())
            },
            Instruction::BlMinusImm24 { imm16, imm8 } => {
                if self.in_if_then_block() {
                    return Err(Fault::ProgramError(pc));
                }
                let imm = ((imm8 as u32) << 16u32) | imm16 as u32;
                match (pc + 3).checked_sub(imm) {
                    Some(target) => {
                        self.registers[LINK_REGISTER] = (pc + 4) | 1;
                        self.program_counter = target;
                        Ok(())
                    },
                    None => Err(Fault::ProgramError(pc)),
                }
            },
            Instruction::BlxRm { rm } => {
                if self.in_if_then_block() || self.registers[rm as usize] & 1 != 1 {
                    return Err(Fault::ProgramError(pc));
                }
                self.registers[LINK_REGISTER] = next | 1;
                self.program_counter = self.registers[rm as usize] & !1u32;
                Ok(())
            },
            Instruction::BxRm { rm } => {
                if self.in_if_then_block() || self.registers[rm as usize] & 1 != 1 {
                    return Err(Fault::ProgramError(pc));
                }
                let target = self.registers[rm as usize];
                self.branch_exchange(target)
            },
            Instruction::CbzRnImm6 { rn, imm } => {
                if self.in_if_then_block() {
                    return Err(Fault::ProgramError(pc));
                }
                if self.registers[rn as usize] == 0 {
                    self.program_counter = pc + imm as u32 + 4;
                } else {
                    self.program_counter = next;
                }
                Ok(())
            },
            Instruction::It { first_cond_and_mask } => {
                if pc < 2 {
                    return Err(Fault::ProgramError(pc));
                }
                let previous = self.bus_matrix.get16(pc - 2)?;
                if !is_compare(previous) || self.in_if_then_block() {
                    return Err(Fault::ProgramError(pc));
                }
                self.if_then_state = first_cond_and_mask;
                self.program_counter = next;
                Ok(())
            },
            Instruction::MovRdRm { rd, rm } => {
                if rd == 15 {
                    if self.in_if_then_block() {
                        return Err(Fault::ProgramError(pc));
                    }
                    self.program_counter = self.registers[rm as usize] & !1u32;
                } else {
                    self.registers[rd as usize] = self.registers[rm as usize];
                    self.program_counter = next;
                }
                Ok(())
            },
            Instruction::TbbRnRm { rn, rm } => {
                if self.in_if_then_block() {
                    return Err(Fault::ProgramError(pc));
                }
                let base = if rn == 15 {
                    pc + 4
                } else {
                    self.registers[rn as usize]
                };
                let index = self.registers[rm as usize];
                let address = match base.checked_add(index) {
                    Some(address) => address,
                    None => return Err(Fault::ProgramError(pc)),
                };
                let ghost bus = self.bus_matrix@;
                let offset = self.bus_matrix.get8(address)?;
                proof {
                    lemma_read8_ok(bus, address);
                }
                self.program_counter = pc + 2 * offset + 4;
                Ok(())
            },
            _ => Err(Fault::UnsupportedInstruction(pc)),
        }
    }

    /// Pops the registers of `mask` from the stack.
    fn pop_registers(&mut self, mask: u8) -> (r: Result<(), Fault>)
        requires
            old(self).inv(),
        ensures
            final(self).bus_matrix.same_code(old(self).bus_matrix),
            final(self).inv(),
            final(self).same_outside_cpu(*old(self)),
            follows_unit(final(self).cpu(), r, old(self).cpu().pop_from(mask, 0)),
    {
        let mut i: u8 = 0;
        while i < 8
            invariant
                self.inv(),
                self.bus_matrix.same_code(old(self).bus_matrix),
                self.same_outside_cpu(*old(self)),
                i <= 8,
                old(self).cpu().pop_from(mask, 0) == self.cpu().pop_from(mask, i as int),
            decreases 8 - i,
        {
            if mask & (1u8 << i) != 0 {
                let sp = self.registers[STACK_POINTER];
                let ghost bus = self.bus_matrix@;
                let value = self.bus_matrix.get32(sp)?;
                proof {
                    lemma_read32_ok_bound(bus, sp);
                }
                self.registers[i as usize] = value;
                self.registers[STACK_POINTER] = sp + 4;
            }
            i = i + 1;
        }
        Ok(())
    }

    /// Pushes `value` on the stack.
    fn push_word(&mut self, value: u32) -> (r: Result<(), Fault>)
        requires
            old(self).inv(),
        ensures
            final(self).inv(),
            final(self).same_outside_cpu(*old(self)),
            follows_unit(final(self).cpu(), r, old(self).cpu().push_word(value)),
    {
        let sp = match self.registers[STACK_POINTER].checked_sub(4) {
            Some(sp) => sp,
            None => return Err(Fault::ProgramError(self.program_counter)),
        };
        self.bus_matrix.set32(sp, value)?;
        self.registers[STACK_POINTER] = sp;
        Ok(())
    }

    /// Pushes the registers of `mask` on the stack, from the highest one.
    fn push_registers(&mut self, mask: u8) -> (r: Result<(), Fault>)
        requires
            old(self).inv(),
        ensures
            final(self).inv(),
            final(self).same_outside_cpu(*old(self)),
            follows_unit(final(self).cpu(), r, old(self).cpu().push_from(mask, 8)),
    {
        let mut i: u8 = 8;
        while i > 0
            invariant
                self.inv(),
                self.same_outside_cpu(*old(self)),
                i <= 8,
                old(self).cpu().push_from(mask, 8) == self.cpu().push_from(mask, i as int),
            decreases i,
        {
            if mask & (1u8 << (i - 1)) != 0 {
                let value = self.registers[(i - 1) as usize];
                self.push_word(value)?;
            }
            i = i - 1;
        }
        Ok(())
    }

    /// Executes a load, store, push or pop instruction.
    fn execute_memory(&mut self, insn: Instruction) -> (r: Result<(), Fault>)
        requires
            old(self).inv(),
            registers_valid(insn),
            old(self).program_counter <= RAM1_LAST,
        ensures
            !writes_memory(insn) ==> final(self).bus_matrix.same_code(old(self).bus_matrix),
            final(self).inv(),
            final(self).same_outside_cpu(*old(self)),
            follows_unit(final(self).cpu(), r, old(self).cpu().execute_memory(insn)),
    {
        match insn {
            Instruction::LdrbRtRnImm5 { .. } | Instruction::LdrhRtRnImm5 { .. }
            | Instruction::LdrRtPcImm8 { .. } | Instruction::LdrRtRnImm5 { .. }
            | Instruction::LdrRtSpImm8 { .. } => self.execute_load(insn),
            Instruction::StrbRtRnImm5 { .. } | Instruction::StrhRtRnImm5 { .. }
            | Instruction::StrRtRnImm5 { .. } | Instruction::StrRtSpImm8 { .. } => {
                self.execute_store(insn)
            },
            _ => self.execute_stack(insn),
        }
    }

    /// Executes a push or pop instruction.
    fn execute_stack(&mut self, insn: Instruction) -> (r: Result<(), Fault>)
        requires
            old(self).inv(),
            registers_valid(insn),
            old(self).program_counter <= RAM1_LAST,
        ensures
            !writes_memory(insn) ==> final(self).bus_matrix.same_code(old(self).bus_matrix),
            final(self).inv(),
            final(self).same_outside_cpu(*old(self)),
            follows_unit(final(self).cpu(), r, old(self).cpu().execute_stack(insn)),
    {
        let pc = self.program_counter;
        let next = pc + 2;
        match insn {
            Instruction::Pop { registers, pc: pop_pc } => {
                self.pop_registers(registers)?;
                if pop_pc {
                    return self.pop_program_counter();
                }
                self.program_counter = next;
                return Ok(());
            },
            Instruction::Push { registers, lr } => {
                if lr {
                    let value = self.registers[LINK_REGISTER];
                    self.push_word(value)?;
                }
                self.push_registers(registers)?;
                self.program_counter = next;
                return Ok(());
            },
            _ => Err(Fault::UnsupportedInstruction(pc)),
        }
    }

    /// Executes a load instruction.
    fn execute_load(&mut self, insn: Instruction) -> (r: Result<(), Fault>)
        requires
            old(self).inv(),
            registers_valid(insn),
            old(self).program_counter <= RAM1_LAST,
            insn is LdrbRtRnImm5 || insn is LdrhRtRnImm5 || insn is LdrRtPcImm8 || insn is LdrRtRnImm5
                || insn is LdrRtSpImm8,
        ensures
            final(self).bus_matrix.same_code(old(self).bus_matrix),
            final(self).inv(),
            final(self).same_outside_cpu(*old(self)),
            follows_unit(final(self).cpu(), r, old(self).cpu().execute_load(insn)),
    {
        let pc = self.program_counter;
        let next = pc + 2;
        match insn {
            Instruction::LdrbRtRnImm5 { rt, rn, imm5 } => {
                let address = match self.registers[rn as usize].checked_add(imm5 as u32) {
                    Some(a) => a,
                    None => return Err(Fault::ProgramError(pc)),
                };
                let value = self.bus_matrix.get8(address)?;
                self.registers[rt as usize] = value;
            },
            Instruction::LdrhRtRnImm5 { rt, rn, imm } => {
                let address = match self.registers[rn as usize].checked_add(imm as u32) {
                    Some(a) => a,
                    None => return Err(Fault::ProgramError(pc)),
                };
                let value = self.bus_matrix.get16(address)?;
                self.registers[rt as usize] = value;
            },
            Instruction::LdrRtPcImm8 { rt, imm } => {
                let base = pc + 4;
                assert(base & 0xFFFFFFFC <= base) by (bit_vector);
                let value = self.bus_matrix.get32((base & 0xFFFFFFFC) + imm as u32)?;
                self.registers[rt as usize] = value;
            },
            Instruction::LdrRtRnImm5 { rt, rn, imm } => {
                let address = match self.registers[rn as usize].checked_add(imm as u32) {
                    Some(a) => a,
                    None => return Err(Fault::ProgramError(pc)),
                };
                let value = self.bus_matrix.get32(address)?;
                self.registers[rt as usize] = value;
            },
            Instruction::LdrRtSpImm8 { rt, imm } => {
                let address = match self.registers[STACK_POINTER].checked_add(imm as u32) {
                    Some(a) => a,
                    None => return Err(Fault::ProgramError(pc)),
                };
                let value = self.bus_matrix.get32(address)?;
                self.registers[rt as usize] = value;
            },
            _ => return Err(Fault::UnsupportedInstruction(pc)),
        }
        self.program_counter = next;
        Ok(())
    }

    /// Executes a store instruction.
    fn execute_store(&mut self, insn: Instruction) -> (r: Result<(), Fault>)
        requires
            old(self).inv(),
            registers_valid(insn),
            old(self).program_counter <= RAM1_LAST,
            insn is StrbRtRnImm5 || insn is StrhRtRnImm5 || insn is StrRtRnImm5 || insn is StrRtSpImm8,
        ensures
            final(self).inv(),
            final(self).same_outside_cpu(*old(self)),
            follows_unit(final(self).cpu(), r, old(self).cpu().execute_store(insn)),
    {
        let pc = self.program_counter;
        let next = pc + 2;
        match insn {
            Instruction::StrbRtRnImm5 { rt, rn, imm5 } => {
                let address = match self.registers[rn as usize].checked_add(imm5 as u32) {
                    Some(a) => a,
                    None => return Err(Fault::ProgramError(pc)),
                };
                self.bus_matrix.set8(address, self.registers[rt as usize] as u8)?;
            },
            Instruction::StrhRtRnImm5 { rt, rn, imm } => {
                let address = match self.registers[rn as usize].checked_add(imm as u32) {
                    Some(a) => a,
                    None => return Err(Fault::ProgramError(pc)),
                };
                self.bus_matrix.set16(address, self.registers[rt as usize] as u16)?;
            },
            Instruction::StrRtRnImm5 { rt, rn, imm } => {
                let address = match self.registers[rn as usize].checked_add(imm as u32) {
                    Some(a) => a,
                    None => return Err(Fault::ProgramError(pc)),
                };
                self.bus_matrix.set32(address, self.registers[rt as usize])?;
            },
            Instruction::StrRtSpImm8 { rt, imm } => {
                let address = match self.registers[STACK_POINTER].checked_add(imm as u32) {
                    Some(a) => a,
                    None => return Err(Fault::ProgramError(pc)),
                };
                self.bus_matrix.set32(address, self.registers[rt as usize])?;
            },
            _ => return Err(Fault::UnsupportedInstruction(pc)),
        }
        self.program_counter = next;
        Ok(())
    }

    /// Pops the program counter from the stack, at the end of a POP instruction.
    fn pop_program_counter(&mut self) -> (r: Result<(), Fault>)
        requires
            old(self).inv(),
        ensures
            final(self).bus_matrix.same_code(old(self).bus_matrix),
            final(self).inv(),
            final(self).same_outside_cpu(*old(self)),
            follows_unit(
                final(self).cpu(),
                r,
                ({
                    let c = old(self).cpu();
                    let (bus, r) = c.bus.read32(c.sp());
                    match r {
                        Err(e) => Err(e),
                        Ok(target) => {
                            let c2 = c.set_reg(STACK_POINTER as int, (c.sp() + 4) as u32).set_bus(
                                bus,
                            );
                            if c2.in_it_block() || target & 1 != 1 {
                                c2.program_error()
                            } else {
                                c2.branch_exchange(target)
                            }
                        },
                    }
                }),
            ),
    {
        let sp = self.registers[STACK_POINTER];
        let ghost bus = self.bus_matrix@;
        let target = self.bus_matrix.get32(sp)?;
        proof {
            lemma_read32_ok_bound(bus, sp);
        }
        self.registers[STACK_POINTER] = sp + 4;
        if self.in_if_then_block() || target & 1 != 1 {
            return Err(Fault::ProgramError(self.program_counter));
        }
        self.branch_exchange(target)
    }

    /// Executes a special register or supervisor call instruction.
    fn execute_system(&mut self, insn: Instruction) -> (r: Result<(), Fault>)
        requires
            old(self).inv(),
            registers_valid(insn),
            old(self).program_counter <= RAM1_LAST,
        ensures
            !writes_memory(insn) ==> final(self).bus_matrix.same_code(old(self).bus_matrix),
            final(self).inv(),
            final(self).same_outside_cpu(*old(self)),
            follows_unit(final(self).cpu(), r, old(self).cpu().execute_system(insn)),
    {
        let pc = self.program_counter;
        let privileged = self.bus_matrix.is_privileged();
        match insn {
            Instruction::MrsRdReg { rd, reg } => {
                self.registers[rd as usize] = 0;
                if reg == MAIN_STACK_POINTER_SPECIAL_REGISTER {
                    if privileged {
                        self.registers[rd as usize] = self.get_stack_pointer(true);
                    }
                } else if reg == PROCESS_STACK_POINTER_SPECIAL_REGISTER {
                    if privileged {
                        self.registers[rd as usize] = self.get_stack_pointer(false);
                    }
                } else if reg == CONTROL_SPECIAL_REGISTER {
                    self.registers[rd as usize] = if self.bus_matrix.privilege_mode {
                        0
                    } else {
                        1
                    };
                } else if privileged {
                    return Err(Fault::ProgramError(pc));
                }
                self.program_counter = pc + 4;
                Ok(())
            },
            Instruction::MsrRegRn { rn, reg } => {
                let value = self.registers[rn as usize];
                if privileged {
                    if reg == MAIN_STACK_POINTER_SPECIAL_REGISTER {
                        self.set_stack_pointer(value, true);
                    } else if reg == PROCESS_STACK_POINTER_SPECIAL_REGISTER {
                        self.set_stack_pointer(value, false);
                    } else if reg == CONTROL_SPECIAL_REGISTER {
                        if value & 2 != 0 {
                            return Err(Fault::ProgramError(pc));
                        }
                        self.bus_matrix.privilege_mode = value & 1 == 0;
                    } else {
                        return Err(Fault::ProgramError(pc));
                    }
                }
                self.program_counter = pc + 4;
                Ok(())
            },
            Instruction::SvcImm8 { .. } => {
                self.program_counter = pc + 2;
                if self.interrupt_status != 0 {
                    return Err(Fault::ProgramError(pc + 2));
                }
                self.enter_interrupt(SVC_EXCEPTION_NUMBER)
            },
            _ => Err(Fault::UnsupportedInstruction(pc)),
        }
    }

    /// Executes the instruction `insn`.
    fn execute(&mut self, insn: Instruction) -> (r: Result<(), Fault>)
        requires
            old(self).inv(),
            registers_valid(insn),
            old(self).program_counter <= RAM1_LAST,
        ensures
            !writes_memory(insn) ==> final(self).bus_matrix.same_code(old(self).bus_matrix),
            final(self).inv(),
            final(self).same_outside_cpu(*old(self)),
            follows_unit(final(self).cpu(), r, old(self).cpu().execute(insn)),
    {
        reveal(Cpu::execute);
        match insn {
            Instruction::AddRdnImm8 { .. } | Instruction::AddRdRnRm { .. } | Instruction::AddRdSpImm8 {
                ..
            } | Instruction::AddSpSpImm7 { .. } | Instruction::AdrRdMinusImm12 { .. }
            | Instruction::AndRdnRm { .. } | Instruction::CmpRnImm8 { .. } | Instruction::CmpRnRm {
                ..
            } | Instruction::LslRdnRm { .. } | Instruction::LslRdRmImm5 { .. }
            | Instruction::LsrRdnRm { .. } | Instruction::LsrRdRmImm5 { .. }
            | Instruction::MovRdImm8 { .. } | Instruction::MovtRdImm16 { .. }
            | Instruction::MovwRdImm16 { .. } | Instruction::MulRdmRn { .. }
            | Instruction::OrrRdnRm { .. } | Instruction::SubRdnImm8 { .. }
            | Instruction::SubRdRnRm { .. } | Instruction::SubSpSpImm7 { .. }
            | Instruction::UdivRdRnRm { .. } => self.execute_data(insn),
            Instruction::BImm11 { .. } | Instruction::BlPlusImm24 { .. }
            | Instruction::BlMinusImm24 { .. } | Instruction::BlxRm { .. } | Instruction::BxRm {
                ..
            } | Instruction::CbzRnImm6 { .. } | Instruction::It { .. } | Instruction::MovRdRm { .. }
            | Instruction::TbbRnRm { .. } => self.execute_branch(insn),
            Instruction::LdrbRtRnImm5 { .. } | Instruction::LdrhRtRnImm5 { .. }
            | Instruction::LdrRtPcImm8 { .. } | Instruction::LdrRtRnImm5 { .. }
            | Instruction::LdrRtSpImm8 { .. } | Instruction::StrbRtRnImm5 { .. }
            | Instruction::StrhRtRnImm5 { .. } | Instruction::StrRtRnImm5 { .. }
            | Instruction::StrRtSpImm8 { .. } | Instruction::Pop { .. } | Instruction::Push { .. } => {
                self.execute_memory(insn)
            },
            Instruction::MrsRdReg { .. } | Instruction::MsrRegRn { .. } | Instruction::SvcImm8 {
                ..
            } => self.execute_system(insn),
            _ => Err(Fault::UnsupportedInstruction(self.program_counter)),
        }
    }

    /// Fetches and executes the instruction at the program counter.
    fn fetch_and_execute(&mut self) -> (r: Result<Instruction, Fault>)
        requires
            old(self).inv(),
        ensures
            r is Ok && !writes_memory(r->Ok_0) && cacheable(
                old(self).bus_matrix@,
                old(self).program_counter,
            ) ==> final(self).bus_matrix.cached_insn(old(self).program_counter) == r->Ok_0,
            final(self).inv(),
            final(self).same_outside_cpu(*old(self)),
            follows(final(self).cpu(), r, old(self).cpu().fetch_and_execute()),
    {
        reveal(Cpu::fetch_and_execute);
        let pc = self.program_counter;
        if pc % 2 != 0 {
            return Err(Fault::ProgramError(pc));
        }
        let ghost bus = self.bus_matrix@;
        let instruction = self.bus_matrix.fetch_insn(pc)?;
        if !registers_valid_of(instruction) {
            return Err(Fault::UnsupportedInstruction(pc));
        }
        match instruction {
            Instruction::Unknown | Instruction::Unsupported | Instruction::Invalid => {
                proof {
                    reveal(Cpu::execute);
                }
                return Err(Fault::UnsupportedInstruction(pc));
            },
            _ => {},
        }
        proof {
            lemma_fetch_bound(bus, pc);
        }
        self.execute(instruction)?;
        Ok(instruction)
    }

    /// Whether the condition `condition` of an IT block holds.
    fn condition_passed(&self, condition: u8) -> (r: Option<bool>)
        ensures
            r == self.cpu().condition_passed(condition),
    {
        let c = self.last_comparison;
        if condition == CONDITION_EQ {
            Some(c == Comparison::Equal)
        } else if condition == CONDITION_NE {
            Some(c != Comparison::Equal)
        } else if condition == CONDITION_GE {
            Some(c != Comparison::Less)
        } else if condition == CONDITION_LT {
            Some(c == Comparison::Less)
        } else if condition == CONDITION_GT {
            Some(c == Comparison::Greater)
        } else if condition == CONDITION_LE {
            Some(c != Comparison::Greater)
        } else {
            None
        }
    }

    /// Emulates the next instruction, skipping it if it is in an IT block and its condition does
    /// not hold.
    fn step_instruction(&mut self) -> (r: Result<Instruction, Fault>)
        requires
            old(self).inv(),
        ensures
            r is Ok && r->Ok_0 != Instruction::Unknown && !writes_memory(r->Ok_0) && cacheable(
                old(self).bus_matrix@,
                old(self).program_counter,
            ) ==> final(self).bus_matrix.cached_insn(old(self).program_counter) == r->Ok_0,
            final(self).inv(),
            final(self).same_outside_cpu(*old(self)),
            follows(final(self).cpu(), r, old(self).cpu().step_instruction()),
    {
        reveal(Cpu::step_instruction);
        if self.in_if_then_block() {
            // See section A7.3, Conditional execution.
            let condition = self.if_then_state >> 4u8;
            let passed = match self.condition_passed(condition) {
                Some(passed) => passed,
                None => return Err(Fault::ProgramError(self.program_counter)),
            };
            // See section A7.3.3, ITSTATE, including table A7-2 and ITAdvance() pseudocode.
            self.if_then_state = (self.if_then_state & 0xE0) | ((self.if_then_state & 0xF) << 1u8);
            if !passed {
                let pc = self.program_counter;
                let ghost bus = self.bus_matrix@;
                let insn = self.bus_matrix.get16(pc)?;
                proof {
                    lemma_read16_ok(bus, pc);
                }
                self.program_counter = pc + if is32bit_insn(insn) {
                    4
                } else {
                    2
                };
                return Ok(Instruction::Unknown);
            }
        }
        self.fetch_and_execute()
    }

    /// Updates the peripherals, enters the interrupt handler of the activated interrupt if any,
    /// and emulates the next instruction.
    fn step(&mut self) -> (r: Result<Instruction, Fault>)
        requires
            old(self).inv(),
        ensures
            r is Ok && r->Ok_0 != Instruction::Unknown && !writes_memory(r->Ok_0)
                && old(self).bus_matrix@.after_update().1 is None && cacheable(
                old(self).bus_matrix@,
                old(self).program_counter,
            ) ==> final(self).bus_matrix.cached_insn(old(self).program_counter) == r->Ok_0,
            final(self).inv(),
            final(self).same_outside_cpu(*old(self)),
            follows(final(self).cpu(), r, old(self).cpu().step()),
    {
        let ghost bus = self.bus_matrix@;
        if !self.bus_matrix.system_timer.can_update() {
            return Err(
                Fault::UnsupportedValue(
                    crate::time::RELOAD_VALUE_REGISTER,
                    self.bus_matrix.system_timer.reload_value,
                ),
            );
        }
        if let Some(interrupt) = self.bus_matrix.update() {
            proof {
                let nvic = bus.nvic;
                crate::interrupt::lemma_lowest_set_bit_is_set(
                    nvic.enabled & (nvic.pending | bus.usart.level_interrupts_value()),
                );
            }
            self.enter_interrupt(interrupt + 16)?;
        }
        self.step_instruction()
    }

    pub fn reset_requested(&self) -> (r: bool)
        ensures
            r == self.bus_matrix@.reset_requested,
    {
        self.bus_matrix.get_reset_controler().reset_requested()
    }

    /// Resets the micro-controller.
    pub fn reset(&mut self)
        requires
            old(self).on,
            old(self).bus_matrix.layout(),
            old(self).bus_matrix@.flash.len() == crate::bus::FLASH_WORDS,
        ensures
            final(self).inv(),
            final(self).state() == old(self).state().after_reset(),
            final(self).on == old(self).on,
            final(self).max_boot_program_go_cycles == old(self).max_boot_program_go_cycles,
            final(self).bus_matrix.flash == old(self).bus_matrix.flash,
    {
        reveal(ChipState::after_reset);
        let ghost bus = self.bus_matrix@;
        self.boot_monitor = BootMonitor::new();
        self.bus_matrix.reset();
        self.registers = [0; 15];
        self.registers[LINK_REGISTER] = INITIAL_LINK_REGISTER_VALUE;
        self.registers[STACK_POINTER] = self.bus_matrix.boot_word(0);
        self.program_counter = self.bus_matrix.boot_word(4) & !1u32;
        self.last_comparison = Comparison::Equal;
        self.interrupt_status = 0;
        self.if_then_state = 0;
        self.main_stack = true;
        self.shadow_stack_pointer = 0;
        self.run_from_flash = self.bus_matrix.boot_from_flash();
        proof {
            assert(self.registers@ =~= Seq::new(15, |i: int| 0u32).update(
                LINK_REGISTER as int,
                INITIAL_LINK_REGISTER_VALUE,
            ).update(STACK_POINTER as int, bus.after_reset().memory_word(0)));
        }
    }

    /// Emulates one instruction (after a reset, if one was requested), and returns it
    /// (`Unknown` if it was skipped because it is in an IT block whose condition does not hold).
    /// An error of the emulated program or an unsupported feature gives `Err(Fault)`, as
    /// `ChipState::emulate` states: for instance a branch inside an IT block (other than its last
    /// instruction) gives `Err(Fault::ProgramError(pc))` (see `lemma_branch_in_it_block`), an
    /// unsupported instruction `Err(Fault::UnsupportedInstruction(pc))`, a store that the
    /// emulated hardware does not support the fault of `BusState::write_refusal`, and an enabled
    /// system timer which must reload with a reload value below `INCREMENT`
    /// `Err(Fault::UnsupportedValue(RELOAD_VALUE_REGISTER, reload_value))`.
    pub fn emulate_one_insn(&mut self) -> (r: Result<Instruction, Fault>)
        requires
            old(self).inv(),
            old(self).on,
        ensures
            r is Ok && r->Ok_0 != Instruction::Unknown && !writes_memory(r->Ok_0)
                && !old(self).bus_matrix@.reset_requested
                && old(self).bus_matrix@.after_update().1 is None && cacheable(
                old(self).bus_matrix@,
                old(self).program_counter,
            ) ==> final(self).bus_matrix.cached_insn(old(self).program_counter) == r->Ok_0,
            final(self).inv(),
            final(self).on == old(self).on,
            final(self).max_boot_program_go_cycles == old(self).max_boot_program_go_cycles,
            follows(final(self).state(), r, old(self).state().emulate()),
    {
        reveal(ChipState::emulate);
        reveal(ChipState::after_reset);
        if self.reset_requested() {
            self.reset();
        }
        let ghost before = *self;
        let r = self.step();
        assert(self.boot_monitor == before.boot_monitor);
        r
    }

    /// A new micro-controller, with an erased flash memory, and with the given devices.
    #[verifier::spinoff_prover]
    #[verifier::rlimit(100)]
    pub fn with_devices(seed: u32, wait_enabled: bool, spi_device: S, pio_device: P) -> (r: Self)
        requires
            spi_device.spi_inv(),
            pio_device.pio_inv(),
        ensures
            r.inv(),
            r.on,
            r.bus_matrix.flash.cache_empty(),
            r.cpu().registers == Seq::new(15, |i: int| 0u32).update(
                LINK_REGISTER as int,
                INITIAL_LINK_REGISTER_VALUE,
            ).update(STACK_POINTER as int, r.cpu().bus.memory_word(0)),
            r.cpu().pc == r.cpu().bus.memory_word(4) & !1u32,
            r.cpu().last_comparison == Comparison::Equal,
            r.cpu().if_then_state == 0,
            r.cpu().interrupt_status == 0,
            r.cpu().main_stack,
            r.cpu().shadow_stack_pointer == 0,
            r.cpu().bus.rom == crate::bus::rom_content(),
            r.cpu().bus.ram0 == Seq::new(
                crate::bus::RAM0_WORDS as nat,
                |i: int| crate::bus::lcg(seed, (i + 1) as nat),
            ),
            !r.cpu().bus.handler_mode,
            r.cpu().bus.privilege_mode,
            !r.cpu().bus.mpu.enable,
            !r.cpu().bus.reset_requested,
            r.state().monitor == (MonitorState {
                command: Command::Idle,
                address: 0,
                value: 0,
                output: Seq::empty(),
            }),
            r.state().monitor_input == Seq::<char>::empty(),
            !r.run_from_flash,
            r.cpu().bus.flash == Seq::new(crate::bus::FLASH_WORDS as nat, |i: int| 0xFFFFFFFFu32),
            !r.cpu().bus.flash_controller.boot_from_flash,
            r.cpu().bus.spi.spi_device == spi_device,
            r.cpu().bus.pio_device == pio_device,
            r.cpu().bus.system_timer.wait_enabled == wait_enabled,
            r.cpu().bus == BusState::initial(seed, wait_enabled, spi_device, pio_device),
            r.max_boot_program_go_cycles == 10000000,
    {
        let mut result = Self {
            on: true,
            boot_monitor: BootMonitor::new(),
            bus_matrix: BusMatrix::uninitialized(seed, wait_enabled, spi_device, pio_device),
            registers: [0; 15],
            program_counter: 0,
            last_comparison: Comparison::Equal,
            if_then_state: 0,
            interrupt_status: 0,
            main_stack: true,
            shadow_stack_pointer: 0,
            run_from_flash: false,
            max_boot_program_go_cycles: 10000000,
        };
        result.erase();
        let ghost erased = result.state();
        result.reset();
        proof {
            lemma_after_reset(erased);
        }
        assert(result.cpu().bus =~= BusState::initial(seed, wait_enabled, spi_device, pio_device));
        result
    }

    pub fn set_max_boot_program_go_cycles(&mut self, max_boot_program_go_cycles: u32)
        ensures
            *final(self) == (Self { max_boot_program_go_cycles, ..*old(self) }),
    {
        self.max_boot_program_go_cycles = max_boot_program_go_cycles;
    }

    /// Returns the output of the boot program since the last call (nothing when the program of
    /// the flash memory runs).
    pub fn get_serial_output(&mut self) -> (r: String)
        requires
            old(self).on,
        ensures
            r@ == (if old(self).run_from_flash {
                Seq::<char>::empty()
            } else {
                old(self).boot_monitor.output@
            }),
            final(self).cpu() == old(self).cpu(),
            final(self).on == old(self).on,
            final(self).run_from_flash == old(self).run_from_flash,
            final(self).max_boot_program_go_cycles == old(self).max_boot_program_go_cycles,
            final(self).state().monitor == (if old(self).run_from_flash {
                old(self).state().monitor
            } else {
                MonitorState { output: Seq::empty(), ..old(self).state().monitor }
            }),
            final(self).state().monitor_input == old(self).state().monitor_input,
            final(self).bus_matrix == old(self).bus_matrix,
    {
        if self.run_from_flash {
            String::new()
        } else {
            self.boot_monitor.get_output()
        }
    }

    /// Sends `data` to the boot program (unless the program of the flash memory runs). Returns
    /// whether the boot program processed it, and is ready for more input.
    pub fn set_serial_input(&mut self, data: &str) -> (r: Result<bool, Fault>)
        requires
            old(self).inv(),
            old(self).on,
            old(self).boot_monitor.input@.len() + data@.len() <= usize::MAX,
        ensures
            final(self).inv(),
            final(self).on == old(self).on,
            final(self).max_boot_program_go_cycles == old(self).max_boot_program_go_cycles,
            follows(
                final(self).state(),
                r,
                old(self).state().serial_input(data@, old(self).max_boot_program_go_cycles),
            ),
    {
        if self.run_from_flash {
            return Ok(false);
        }
        let go_address = self.boot_monitor.parse_input(data, &mut self.bus_matrix)?;
        if let Some(address) = go_address {
            let returned = self.go(address)?;
            if !returned {
                return Ok(false);
            }
        }
        if self.reset_requested() {
            self.reset();
        }
        Ok(true)
    }

    /// Runs the program at `address`, received with a Go command, until it returns to the boot
    /// program. Returns whether it did, in at most `max_boot_program_go_cycles` instructions.
    fn go(&mut self, address: u32) -> (r: Result<bool, Fault>)
        requires
            old(self).inv(),
            old(self).on,
        ensures
            final(self).inv(),
            final(self).on == old(self).on,
            final(self).max_boot_program_go_cycles == old(self).max_boot_program_go_cycles,
            follows(
                final(self).state(),
                r,
                old(self).state().go(address, old(self).max_boot_program_go_cycles),
            ),
    {
        let entry_address = match address.checked_add(4) {
            Some(a) => a,
            None => return Err(Fault::ProgramError(address)),
        };
        let entry = self.bus_matrix.get32(entry_address)?;
        if entry & 1 != 1 {
            return Err(Fault::ProgramError(entry_address));
        }
        let entry = self.bus_matrix.get32(entry_address)?;
        self.registers[STACK_POINTER] = INITIAL_STACK_POINTER;
        self.registers[LINK_REGISTER] = BOOT_MONITOR_PROGRAM_COUNTER | 1;
        self.program_counter = entry & !1u32;
        let ghost start = self.state();
        let mut counter = self.max_boot_program_go_cycles;
        while self.program_counter != BOOT_MONITOR_PROGRAM_COUNTER && counter > 0
            invariant
                self.inv(),
                self.on,
                self.on == old(self).on,
                self.max_boot_program_go_cycles == old(self).max_boot_program_go_cycles,
                start.run_program(self.max_boot_program_go_cycles) == self.state().run_program(
                    counter,
                ),
                start.run_program(self.max_boot_program_go_cycles) is Err ==> old(self).state().go(
                    address,
                    self.max_boot_program_go_cycles,
                ) == Err::<(ChipState<S, P>, bool), Fault>(
                    start.run_program(self.max_boot_program_go_cycles)->Err_0,
                ),
            decreases counter,
        {
            let ghost before = self.state();
            match self.emulate_one_insn() {
                Ok(_) => {},
                Err(e) => {
                    assert(before.run_program(counter) == Err::<(ChipState<S, P>, u32), Fault>(e));
                    return Err(e);
                },
            }
            counter = counter - 1;
        }
        if counter == 0 {
            return Ok(false);
        }
        if self.registers[STACK_POINTER] != INITIAL_STACK_POINTER {
            return Err(Fault::ProgramError(self.program_counter));
        }
        self.boot_monitor.write_prompt();
        Ok(true)
    }

    pub fn get_spi_device(&self) -> (r: &S)
        ensures
            *r == self.bus_matrix.spi_controller.spi_device,
    {
        self.bus_matrix.get_spi_controller().get_spi_device()
    }

    pub fn set_spi_device(&mut self, spi_device: S)
        requires
            spi_device.spi_inv(),
        ensures
            final(self).state() == (ChipState {
                cpu: Cpu {
                    bus: BusState {
                        spi: crate::spi::SerialPeripheralInterfaceController {
                            spi_device,
                            ..old(self).cpu().bus.spi
                        },
                        ..old(self).cpu().bus
                    },
                    ..old(self).cpu()
                },
                ..old(self).state()
            }),
            old(self).inv() ==> final(self).inv(),
            final(self).on == old(self).on,
            final(self).max_boot_program_go_cycles == old(self).max_boot_program_go_cycles,
    {
        self.bus_matrix.get_spi_controller_mut().set_spi_device(spi_device);
    }

    /// Sends a character to the USART (if its clock and its input pins are enabled). PS/2
    /// requires the USART configured in normal mode (0), external clock (3), 8 bit characters (3),
    /// synchronous mode (1), ODD parity (1), 1 stop bit (0), normal channel (0), least significant
    /// bit first (0), non inverted data (0) and no Manchester encoder (0):
    /// required_mask 0b00100000_10000001_11111111_11111111 and
    /// required mode 0b00000000_00000000_00000011_11110000.
    pub fn set_usart_input(&mut self, character: u32, required_mode_mask: u32, required_mode: u32)
        requires
            old(self).inv(),
            old(self).on,
        ensures
            final(self).state() == (ChipState {
                cpu: Cpu {
                    bus: BusState {
                        usart: if old(self).cpu().bus.power.clock_enabled(crate::power::USART0_ID)
                            && crate::pio::usart_pins_enabled(old(self).cpu().bus.pio) {
                            old(self).cpu().bus.usart.after_data_received(
                                character,
                                required_mode_mask,
                                required_mode,
                            )
                        } else {
                            old(self).cpu().bus.usart
                        },
                        ..old(self).cpu().bus
                    },
                    ..old(self).cpu()
                },
                ..old(self).state()
            }),
            final(self).inv(),
            final(self).on == old(self).on,
            final(self).max_boot_program_go_cycles == old(self).max_boot_program_go_cycles,
    {
        let clock_enabled = self.bus_matrix.get_power_management_controller().usart_clock_enabled();
        let input_pins_enabled = self.bus_matrix.get_pio_controller().usart_input_pins_enabled();
        if clock_enabled && input_pins_enabled {
            self.bus_matrix.get_usart_controller_mut().data_received(
                character,
                required_mode_mask,
                required_mode,
            );
        }
    }

    pub fn get_pio_device(&self) -> (r: &P)
        ensures
            *r == self.bus_matrix.pio_controller.pio_device,
    {
        self.bus_matrix.get_pio_controller().get_pio_device()
    }

    pub fn set_pio_device(&mut self, pio_device: P)
        requires
            pio_device.pio_inv(),
        ensures
            final(self).state() == (ChipState {
                cpu: Cpu { bus: BusState { pio_device, ..old(self).cpu().bus }, ..old(self).cpu() },
                ..old(self).state()
            }),
            old(self).inv() ==> final(self).inv(),
            final(self).on == old(self).on,
            final(self).max_boot_program_go_cycles == old(self).max_boot_program_go_cycles,
    {
        self.bus_matrix.get_pio_controller_mut().set_pio_device(pio_device)
    }

    /// The state of the output pin `pin` of the PIO controller `controller`.
    pub fn get_pin_output(&self, controller: Controller, pin: u32) -> (r: bool)
        requires
            self.inv(),
            self.on,
            pin < 32,
        ensures
            r == (crate::pio::controller_outputs(
                self.cpu().bus.pio,
                crate::pio::controller_index(controller) as int,
            ) & (1u32 << pin) != 0),
    {
        self.bus_matrix.get_pio_controller().get_pin_output(controller, pin)
    }

    pub fn debug_get_flash_content(&self) -> (r: &Vec<u32>)
        ensures
            r@ == self.cpu().bus.flash,
    {
        self.bus_matrix.get_flash_content()
    }

    /// Reads the word at `address`, as the processor would do with its memory protection unit
    /// disabled.
    pub fn debug_get32(&mut self, address: u32) -> (r: Result<u32, Fault>)
        requires
            old(self).inv(),
        ensures
            final(self).inv(),
            ({
                let bus = old(self).cpu().bus;
                let (bus2, r2) = BusState {
                    mpu: crate::mpu::MpuState { enable: false, ..bus.mpu },
                    ..bus
                }.read32(address);
                &&& r == r2
                &&& final(self).state() == (ChipState {
                    cpu: Cpu {
                        bus: BusState {
                            mpu: crate::mpu::MpuState { enable: bus.mpu.enable, ..bus2.mpu },
                            ..bus2
                        },
                        ..old(self).cpu()
                    },
                    ..old(self).state()
                })
            }),
            final(self).on == old(self).on,
            final(self).max_boot_program_go_cycles == old(self).max_boot_program_go_cycles,
    {
        let mpu_enable = self.bus_matrix.get_memory_protection_unit().enable;
        self.bus_matrix.get_memory_protection_unit().enable = false;
        let result = self.bus_matrix.get32(address);
        self.bus_matrix.get_memory_protection_unit().enable = mpu_enable;
        result
    }

    /// Writes the word `value` at `address`, as the processor would do.
    pub fn debug_set32(&mut self, address: u32, value: u32) -> (r: Result<(), Fault>)
        requires
            old(self).inv(),
        ensures
            final(self).inv(),
            ({
                let (bus, r2) = old(self).cpu().bus.write32(address, value);
                &&& r == r2
                &&& final(self).state() == (ChipState {
                    cpu: Cpu { bus, ..old(self).cpu() },
                    ..old(self).state()
                })
            }),
            final(self).on == old(self).on,
            final(self).max_boot_program_go_cycles == old(self).max_boot_program_go_cycles,
    {
        self.bus_matrix.set32(address, value)
    }

    pub fn run_from_flash(&self) -> (r: bool)
        ensures
            r == self.run_from_flash,
    {
        self.run_from_flash
    }

    /// Emulates `instruction_count` instructions of the program of the flash memory.
    pub fn run(&mut self, instruction_count: u32) -> (r: Result<(), Fault>)
        requires
            old(self).inv(),
            old(self).on,
            old(self).run_from_flash,
        ensures
            final(self).inv(),
            final(self).on == old(self).on,
            final(self).max_boot_program_go_cycles == old(self).max_boot_program_go_cycles,
            follows_unit_state(
                final(self).state(),
                r,
                old(self).state().run(instruction_count as nat),
            ),
    {
        let ghost start = self.state();
        let mut i: u32 = 0;
        while i < instruction_count
            invariant
                self.inv(),
                self.on,
                self.on == old(self).on,
                self.max_boot_program_go_cycles == old(self).max_boot_program_go_cycles,
                i <= instruction_count,
                start.run(instruction_count as nat) == self.state().run(
                    (instruction_count - i) as nat,
                ),
                start == old(self).state(),
            decreases instruction_count - i,
        {
            let ghost before = self.state();
            match self.emulate_one_insn() {
                Ok(_) => {},
                Err(e) => {
                    assert(before.run((instruction_count - i) as nat) == Err::<ChipState<S, P>, Fault>(e));
                    return Err(e);
                },
            }
            i = i + 1;
        }
        Ok(())
    }

    pub fn is_on(&self) -> (r: bool)
        ensures
            r == self.on,
    {
        self.on
    }

    /// Turns the micro-controller on, and resets it.
    pub fn turn_on(&mut self)
        requires
            !old(self).on,
            old(self).inv(),
        ensures
            final(self).inv(),
            final(self).on,
            final(self).state() == old(self).state().after_reset(),
            final(self).max_boot_program_go_cycles == old(self).max_boot_program_go_cycles,
    {
        self.on = true;
        self.reset();
    }

    /// Resets the micro-controller, and turns it off.
    pub fn turn_off(&mut self)
        requires
            old(self).on,
            old(self).inv(),
        ensures
            final(self).inv(),
            !final(self).on,
            final(self).state() == old(self).state().after_reset(),
            final(self).max_boot_program_go_cycles == old(self).max_boot_program_go_cycles,
    {
        self.reset();
        self.on = false;
    }

    /// Erases the flash memory.
    pub fn erase(&mut self)
        requires
            old(self).on,
            old(self).bus_matrix.layout(),
        ensures
            final(self).bus_matrix.layout(),
            old(self).inv() ==> final(self).inv(),
            final(self).bus_matrix.flash.cache_empty(),
            final(self).state() == (ChipState {
                cpu: Cpu { bus: old(self).cpu().bus.after_erase(), ..old(self).cpu() },
                ..old(self).state()
            }),
            final(self).on == old(self).on,
            final(self).max_boot_program_go_cycles == old(self).max_boot_program_go_cycles,
    {
        self.bus_matrix.erase();
    }

    /// The content of the flash memory, and whether the processor boots from it.
    pub fn serialize(&self) -> (r: Vec<u32>)
        requires
            !self.on,
        ensures
            r@ == serialized(self.cpu()),
    {
        let mut output = Vec::new();
        self.bus_matrix.serialize(&mut output);
        assert(output@ =~= serialized(self.cpu()));
        output
    }
}

/// What `serialize` writes for a micro-controller in the state `cpu`: the content of its flash
/// memory, then 1 if the processor boots from it, else 0.
pub open spec fn serialized<S: SpiDevice, P: PioDevice>(cpu: Cpu<S, P>) -> Seq<u32> {
    cpu.bus.flash + seq![
        if cpu.bus.flash_controller.boot_from_flash {
            1u32
        } else {
            0u32
        },
    ]
}

/// Deserializing what was serialized gives back the content of the flash memory and whether the
/// processor boots from it, and consumes exactly what `serialize` wrote: `saved` is a
/// micro-controller, `before` what precedes its serialization in the input, and `restored` and
/// `after` what `deserialize` returns and leaves in the input.
pub proof fn lemma_serialization_round_trip<S: SpiDevice, P: PioDevice, T: SpiDevice, Q: PioDevice>(
    saved: MicroController<S, P>,
    before: Seq<u32>,
    restored: MicroController<T, Q>,
    after: Seq<u32>,
)
    requires
        saved.inv(),
        restored.inv(),
        before + serialized(saved.cpu()) == after + restored.cpu().bus.flash + seq![
            (before + serialized(saved.cpu())).last(),
        ],
        restored.cpu().bus.flash_controller.boot_from_flash == ((before + serialized(
            saved.cpu(),
        )).last() == 1),
    ensures
        after == before,
        restored.cpu().bus.flash == saved.cpu().bus.flash,
        restored.cpu().bus.flash_controller.boot_from_flash
            == saved.cpu().bus.flash_controller.boot_from_flash,
{
    let input = before + serialized(saved.cpu());
    let n = before.len();
    let f = saved.cpu().bus.flash.len();
    assert(restored.cpu().bus.flash.len() == f);
    assert(after.len() == n);
    assert forall|i: int| 0 <= i < n implies after[i] == before[i] by {
        assert(input[i] == before[i]);
        assert((after + restored.cpu().bus.flash + seq![input.last()])[i] == after[i]);
    }
    assert(after =~= before);
    assert forall|i: int| 0 <= i < f implies restored.cpu().bus.flash[i] == saved.cpu().bus.flash[i] by {
        assert(input[n + i] == saved.cpu().bus.flash[i]);
        assert((after + restored.cpu().bus.flash + seq![input.last()])[n + i]
            == restored.cpu().bus.flash[i]);
    }
    assert(restored.cpu().bus.flash =~= saved.cpu().bus.flash);
}

/// A decision, after each emulated instruction, on whether to stop running the program.
pub trait StopCondition: Sized {
    /// Whether to stop after `instruction`, which was executed with the values `r0` and `r1` in
    /// the registers R0 and R1.
    spec fn stops(&self, instruction: Instruction, r0: u32, r1: u32) -> bool;

    /// The state of the condition after it decided on `instruction`, `r0` and `r1`.
    spec fn next(&self, instruction: Instruction, r0: u32, r1: u32) -> Self;

    /// Decides whether to stop after `instruction`, which was executed with the values `r0` and
    /// `r1` in the registers R0 and R1.
    fn is_done(&mut self, instruction: Instruction, r0: u32, r1: u32) -> (r: bool)
        ensures
            r == old(self).stops(instruction, r0, r1),
            *final(self) == old(self).next(instruction, r0, r1),
    ;
}

impl<S: SpiDevice, P: PioDevice> ChipState<S, P> {
    /// Emulating instructions until `condition` decides to stop after one of them (given the
    /// instruction, and the values of R0 and R1 before it), at most `limit` times: the state, the
    /// condition, and the number of emulated instructions.
    pub open spec fn run_until<F: StopCondition>(self, condition: F, limit: nat) -> Result<
        (Self, F, nat),
        Fault,
    >
        decreases limit,
    {
        if limit == 0 {
            Ok((self, condition, 0))
        } else {
            match self.emulate() {
                Err(e) => Err(e),
                Ok((s, insn)) => {
                    let r0 = self.cpu.registers[0];
                    let r1 = self.cpu.registers[1];
                    let c = condition.next(insn, r0, r1);
                    if condition.stops(insn, r0, r1) || limit == 1 {
                        Ok((s, c, 1))
                    } else {
                        match s.run_until(c, (limit - 1) as nat) {
                            Ok((t, d, n)) => Ok((t, d, n + 1)),
                            Err(e) => Err(e),
                        }
                    }
                },
            }
        }
    }

    /// Emulating instructions until one requests a reset (which is then done, without asking
    /// `condition`), or until `condition` decides to stop after one of them (given the
    /// instruction, and the values of R0 and R1 before it), at most `limit` times: the state, the
    /// condition, and the number of emulated instructions.
    pub open spec fn run_until_reset_or<F: StopCondition>(self, condition: F, limit: nat) -> Result<
        (Self, F, nat),
        Fault,
    >
        decreases limit,
    {
        if limit == 0 {
            Ok((self, condition, 0))
        } else {
            match self.emulate() {
                Err(e) => Err(e),
                Ok((s, insn)) => {
                    let r0 = self.cpu.registers[0];
                    let r1 = self.cpu.registers[1];
                    let c = condition.next(insn, r0, r1);
                    if s.cpu.bus.reset_requested {
                        Ok((s.after_reset(), condition, 1))
                    } else if condition.stops(insn, r0, r1) || limit == 1 {
                        Ok((s, c, 1))
                    } else {
                        match s.run_until_reset_or(c, (limit - 1) as nat) {
                            Ok((t, d, n)) => Ok((t, d, n + 1)),
                            Err(e) => Err(e),
                        }
                    }
                },
            }
        }
    }
}

impl<S: SpiDevice, P: PioDevice> MicroController<S, P> {
    /// Runs the program of the flash memory until `is_done` decides to stop after an
    /// instruction (or until the instruction count reaches `u32::MAX`), as
    /// `ChipState::run_until` states: `is_done` is asked after each instruction, with the
    /// instruction and the values of R0 and R1 before it. Returns the number of executed
    /// instructions.
    pub fn run_until<F: StopCondition>(&mut self, is_done: &mut F) -> (r: Result<u32, Fault>)
        requires
            old(self).inv(),
            old(self).on,
            old(self).run_from_flash,
        ensures
            final(self).inv(),
            final(self).on == old(self).on,
            final(self).max_boot_program_go_cycles == old(self).max_boot_program_go_cycles,
            match old(self).state().run_until(*old(is_done), u32::MAX as nat) {
                Ok((t, c, n)) => r == Ok::<u32, Fault>(n as u32) && final(self).state() == t
                    && *final(is_done) == c,
                Err(e) => r == Err::<u32, Fault>(e),
            },
    {
        let ghost start = self.state();
        let ghost start_condition = *is_done;
        let mut instruction_count: u32 = 0;
        loop
            invariant
                self.inv(),
                self.on,
                self.on == old(self).on,
                self.max_boot_program_go_cycles == old(self).max_boot_program_go_cycles,
                start == old(self).state(),
                start_condition == *old(is_done),
                instruction_count < u32::MAX,
                match self.state().run_until(*is_done, (u32::MAX - instruction_count) as nat) {
                    Ok((t, c, n)) => start.run_until(start_condition, u32::MAX as nat) == Ok::<
                        (ChipState<S, P>, F, nat),
                        Fault,
                    >((t, c, n + instruction_count as nat)),
                    Err(e) => start.run_until(start_condition, u32::MAX as nat) == Err::<
                        (ChipState<S, P>, F, nat),
                        Fault,
                    >(e),
                },
            decreases u32::MAX - instruction_count,
        {
            let r0 = self.registers[0];
            let r1 = self.registers[1];
            let ghost before = self.state();
            let ghost condition = *is_done;
            let instruction = match self.emulate_one_insn() {
                Ok(instruction) => instruction,
                Err(e) => {
                    return Err(e);
                },
            };
            instruction_count = instruction_count + 1;
            if is_done.is_done(instruction, r0, r1) || instruction_count == u32::MAX {
                return Ok(instruction_count);
            }
        }
    }

    /// Runs the program of the flash memory until it requests a reset (which is then done), or
    /// until `is_done` decides to stop after an instruction (or until the instruction count
    /// reaches `u32::MAX`), as `ChipState::run_until_reset_or` states: `is_done` is asked after
    /// each instruction which requests no reset, with the instruction and the values of R0 and R1
    /// before it. Returns the number of executed instructions.
    pub fn run_until_reset_or<F: StopCondition>(&mut self, is_done: &mut F) -> (r: Result<u32, Fault>)
        requires
            old(self).inv(),
            old(self).on,
            old(self).run_from_flash,
        ensures
            final(self).inv(),
            final(self).on == old(self).on,
            final(self).max_boot_program_go_cycles == old(self).max_boot_program_go_cycles,
            match old(self).state().run_until_reset_or(*old(is_done), u32::MAX as nat) {
                Ok((t, c, n)) => r == Ok::<u32, Fault>(n as u32) && final(self).state() == t
                    && *final(is_done) == c,
                Err(e) => r == Err::<u32, Fault>(e),
            },
    {
        let ghost start = self.state();
        let ghost start_condition = *is_done;
        let mut instruction_count: u32 = 0;
        loop
            invariant
                self.inv(),
                self.on,
                self.on == old(self).on,
                self.max_boot_program_go_cycles == old(self).max_boot_program_go_cycles,
                start == old(self).state(),
                start_condition == *old(is_done),
                instruction_count < u32::MAX,
                match self.state().run_until_reset_or(
                    *is_done,
                    (u32::MAX - instruction_count) as nat,
                ) {
                    Ok((t, c, n)) => start.run_until_reset_or(start_condition, u32::MAX as nat)
                        == Ok::<(ChipState<S, P>, F, nat), Fault>((t, c, n + instruction_count as nat)),
                    Err(e) => start.run_until_reset_or(start_condition, u32::MAX as nat) == Err::<
                        (ChipState<S, P>, F, nat),
                        Fault,
                    >(e),
                },
            decreases u32::MAX - instruction_count,
        {
            let r0 = self.registers[0];
            let r1 = self.registers[1];
            let ghost before = self.state();
            let ghost condition = *is_done;
            let instruction = match self.emulate_one_insn() {
                Ok(instruction) => instruction,
                Err(e) => {
                    return Err(e);
                },
            };
            instruction_count = instruction_count + 1;
            if self.reset_requested() {
                self.reset();
                return Ok(instruction_count);
            }
            if is_done.is_done(instruction, r0, r1) || instruction_count == u32::MAX {
                return Ok(instruction_count);
            }
        }
    }
}

impl MicroController<EmptySpiDevice, EmptyPioDevice> {
    /// A new micro-controller, with an erased flash memory, without external devices. When
    /// `wait_enabled`, the busy wait loops on the system timer are replaced with requests to wait
    /// for real time (see `SystemTimer`).
    pub fn new(seed: u32, wait_enabled: bool) -> (r: Self)
        ensures
            r.inv(),
            r.on,
            r.bus_matrix.flash.cache_empty(),
            r.cpu().registers == Seq::new(15, |i: int| 0u32).update(
                LINK_REGISTER as int,
                INITIAL_LINK_REGISTER_VALUE,
            ).update(STACK_POINTER as int, r.cpu().bus.memory_word(0)),
            r.cpu().pc == r.cpu().bus.memory_word(4) & !1u32,
            r.cpu().bus.rom == crate::bus::rom_content(),
            !r.run_from_flash,
            r.cpu().bus.flash == Seq::new(crate::bus::FLASH_WORDS as nat, |i: int| 0xFFFFFFFFu32),
            !r.cpu().bus.flash_controller.boot_from_flash,
            r.cpu().bus.system_timer.wait_enabled == wait_enabled,
            r.cpu().last_comparison == Comparison::Equal,
            r.cpu().if_then_state == 0,
            r.cpu().interrupt_status == 0,
            r.cpu().main_stack,
            r.cpu().shadow_stack_pointer == 0,
            r.state().monitor == (MonitorState {
                command: Command::Idle,
                address: 0,
                value: 0,
                output: Seq::empty(),
            }),
            r.state().monitor_input == Seq::<char>::empty(),
            r.cpu().bus == BusState::initial(seed, wait_enabled, EmptySpiDevice {}, EmptyPioDevice {}),
            r.max_boot_program_go_cycles == 10000000,
    {
        Self::with_devices(seed, wait_enabled, EmptySpiDevice::new(), EmptyPioDevice::new())
    }

    /// A new micro-controller with the seed 1, which does not wait for real time.
    pub fn default() -> (r: Self)
        ensures
            r.inv(),
            r.on,
            r.bus_matrix.flash.cache_empty(),
            r.cpu().bus.rom == crate::bus::rom_content(),
            !r.run_from_flash,
            r.cpu().bus.flash == Seq::new(crate::bus::FLASH_WORDS as nat, |i: int| 0xFFFFFFFFu32),
            !r.cpu().bus.system_timer.wait_enabled,
            r.cpu().registers == Seq::new(15, |i: int| 0u32).update(
                LINK_REGISTER as int,
                INITIAL_LINK_REGISTER_VALUE,
            ).update(STACK_POINTER as int, r.cpu().bus.memory_word(0)),
            r.cpu().pc == r.cpu().bus.memory_word(4) & !1u32,
            r.cpu().last_comparison == Comparison::Equal,
            r.cpu().if_then_state == 0,
            r.cpu().interrupt_status == 0,
            r.cpu().main_stack,
            r.cpu().shadow_stack_pointer == 0,
            r.state().monitor == (MonitorState {
                command: Command::Idle,
                address: 0,
                value: 0,
                output: Seq::empty(),
            }),
            r.state().monitor_input == Seq::<char>::empty(),
            r.cpu().bus == BusState::initial(1, false, EmptySpiDevice {}, EmptyPioDevice {}),
            r.max_boot_program_go_cycles == 10000000,
    {
        Self::new(1, false)
    }

    /// A micro-controller which is off, whose flash memory content (and whether it boots from it)
    /// is read from the end of `input` (see `serialize`).
    pub fn deserialize(input: &mut Vec<u32>) -> (r: Self)
        requires
            old(input)@.len() >= crate::bus::FLASH_WORDS + 1,
        ensures
            r.inv(),
            !r.on,
            old(input)@ == final(input)@ + r.cpu().bus.flash + seq![old(input)@.last()],
            r.cpu().bus.flash_controller.boot_from_flash == (old(input)@.last() == 1),
    {
        let mut result = Self::default();
        result.on = false;
        result.bus_matrix.deserialize(input);
        result
    }
}

/// Computes `compare(a, b)`.
fn compare_values(a: u32, b: u32) -> (r: Comparison)
    ensures
        r == compare(a, b),
{
    if a < b {
        Comparison::Less
    } else if a == b {
        Comparison::Equal
    } else {
        Comparison::Greater
    }
}

/// Computes `is_compare_insn(insn)`.
fn is_compare(insn: u32) -> (r: bool)
    ensures
        r == is_compare_insn(insn),
{
    (insn & 0b1111100000000000 == 0b0010100000000000) || (insn & 0b1111111111000000
        == 0b0100001010000000)
}

/// Computes `registers_valid(insn)`.
fn registers_valid_of(insn: Instruction) -> (r: bool)
    ensures
        r == registers_valid(insn),
{
    match insn {
        Instruction::AddRdnImm8 { rdn, .. } => rdn < 15,
        Instruction::AddRdRnRm { rd, rn, rm } => rd < 15 && rn < 15 && rm < 15,
        Instruction::AddRdSpImm8 { rd, .. } => rd < 15,
        Instruction::AdrRdMinusImm12 { rd, .. } => rd < 15,
        Instruction::AndRdnRm { rdn, rm } => rdn < 15 && rm < 15,
        Instruction::BlxRm { rm } => rm < 15,
        Instruction::BxRm { rm } => rm < 15,
        Instruction::CbzRnImm6 { rn, .. } => rn < 15,
        Instruction::CmpRnImm8 { rn, .. } => rn < 15,
        Instruction::CmpRnRm { rn, rm } => rn < 15 && rm < 15,
        Instruction::LdrbRtRnImm5 { rt, rn, .. } => rt < 15 && rn < 15,
        Instruction::LdrhRtRnImm5 { rt, rn, .. } => rt < 15 && rn < 15,
        Instruction::LdrRtPcImm8 { rt, .. } => rt < 15,
        Instruction::LdrRtRnImm5 { rt, rn, .. } => rt < 15 && rn < 15,
        Instruction::LdrRtSpImm8 { rt, .. } => rt < 15,
        Instruction::LslRdnRm { rdn, rm } => rdn < 15 && rm < 15,
        Instruction::LslRdRmImm5 { rd, rm, .. } => rd < 15 && rm < 15,
        Instruction::LsrRdnRm { rdn, rm } => rdn < 15 && rm < 15,
        Instruction::LsrRdRmImm5 { rd, rm, .. } => rd < 15 && rm < 15,
        Instruction::MovRdImm8 { rd, .. } => rd < 15,
        Instruction::MovRdRm { rd, rm } => rd <= 15 && rm < 15,
        Instruction::MovtRdImm16 { rd, .. } => rd < 15,
        Instruction::MovwRdImm16 { rd, .. } => rd < 15,
        Instruction::MrsRdReg { rd, .. } => rd < 15,
        Instruction::MsrRegRn { rn, .. } => rn < 15,
        Instruction::MulRdmRn { rdm, rn } => rdm < 15 && rn < 15,
        Instruction::OrrRdnRm { rdn, rm } => rdn < 15 && rm < 15,
        Instruction::StrbRtRnImm5 { rt, rn, .. } => rt < 15 && rn < 15,
        Instruction::StrhRtRnImm5 { rt, rn, .. } => rt < 15 && rn < 15,
        Instruction::StrRtRnImm5 { rt, rn, .. } => rt < 15 && rn < 15,
        Instruction::StrRtSpImm8 { rt, .. } => rt < 15,
        Instruction::SubRdnImm8 { rdn, .. } => rdn < 15,
        Instruction::SubRdRnRm { rd, rn, rm } => rd < 15 && rn < 15 && rm < 15,
        Instruction::TbbRnRm { rn, rm } => rn <= 15 && rm < 15,
        Instruction::UdivRdRnRm { rd, rn, rm } => rd < 15 && rn < 15 && rm < 15,
        _ => true,
    }
}

/// The state of the processor and of the boot program after a reset.
proof fn lemma_after_reset<S: SpiDevice, P: PioDevice>(s: ChipState<S, P>)
    ensures
        ({
            let r = s.after_reset();
            let bus = r.cpu.bus;
            &&& bus == s.cpu.bus.after_reset()
            &&& r.cpu.registers == Seq::new(15, |i: int| 0u32).update(
                LINK_REGISTER as int,
                INITIAL_LINK_REGISTER_VALUE,
            ).update(STACK_POINTER as int, bus.memory_word(0))
            &&& r.cpu.pc == bus.memory_word(4) & !1u32
            &&& r.cpu.last_comparison == Comparison::Equal
            &&& r.cpu.if_then_state == 0
            &&& r.cpu.interrupt_status == 0
            &&& r.cpu.main_stack
            &&& r.cpu.shadow_stack_pointer == 0
            &&& r.monitor == (MonitorState {
                command: Command::Idle,
                address: 0,
                value: 0,
                output: Seq::empty(),
            })
            &&& r.monitor_input == Seq::<char>::empty()
            &&& r.run_from_flash == s.cpu.bus.flash_controller.boot_from_flash
        }),
{
    reveal(ChipState::after_reset);
}

} // verus!
