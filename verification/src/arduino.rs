use vstd::prelude::*;
use crate::arm::Instruction;
use crate::chip::StopCondition;
use crate::gpu::Color;
use crate::text::{chars_of, string_of};

verus! {

/// The control and status register of the system timer, which a program polls while it waits.
pub const SYSTEM_TIMER_CONTROL_AND_STATUS_REGISTER: u32 = 0xE000E010;

/// The variable of the keyboard handler that a program polls while it waits for a key.
pub const KEYBOARD_HANDLER_CHAR: u32 = 0x400E1A98;

/// The receive holding register of the USART0, which a program reads to get a scan code.
pub const USART0_RECEIVE_HOLDING_REGISTER: u32 = 0x40098018;

/// The bits of the USART0 mode register that must match `USART_REQUIRED_MODE` for the keyboard
/// to send it scan codes.
pub const USART_REQUIRED_MASK: u32 = 0b00100000_10000001_11111111_11111111;

/// The mode that the USART0 must have for the keyboard to send it scan codes.
pub const USART_REQUIRED_MODE: u32 = 0b00000000_00000000_00000011_11110000;

/// The maximum number of instructions emulated in one time slice of the running program.
pub const RUN_SLICE_LENGTH: u32 = 1000000;

/// The maximum number of instructions emulated to let the program read a scan code.
pub const SCANCODE_SLICE_LENGTH: u32 = 1000;

/// The address read by `instruction` when it is `ldr rt, [r0]` or `ldr rt, [r1]`, given the
/// values `r0` and `r1` of these registers.
pub open spec fn polled_address(instruction: Instruction, r0: u32, r1: u32) -> Option<u32> {
    match instruction {
        Instruction::LdrRtRnImm5 { rt: _, rn, imm } => {
            if imm == 0 && rn == 0 {
                Some(r0)
            } else if imm == 0 && rn == 1 {
                Some(r1)
            } else {
                None
            }
        },
        _ => None,
    }
}

fn get_polled_address(instruction: Instruction, r0: u32, r1: u32) -> (r: Option<u32>)
    ensures
        r == polled_address(instruction, r0, r1),
{
    match instruction {
        Instruction::LdrRtRnImm5 { rt: _, rn: 0, imm: 0 } => Some(r0),
        Instruction::LdrRtRnImm5 { rt: _, rn: 1, imm: 0 } => Some(r1),
        _ => None,
    }
}

/// The number of instructions counted after one more, up to `limit`.
pub open spec fn count_one_more(counter: u32, limit: u32) -> u32 {
    if counter < limit {
        (counter + 1) as u32
    } else {
        counter
    }
}

/// The decision to end a time slice of the running program: after `RUN_SLICE_LENGTH`
/// instructions, or when the program polls the system timer (it waits) or the keyboard handler
/// (it waits for a key).
pub struct RunSlice {
    /// The number of instructions emulated so far (up to `RUN_SLICE_LENGTH`).
    pub counter: u32,
    /// Whether the last polling instruction read the system timer.
    pub in_delay: bool,
    /// Whether the last polling instruction read the keyboard handler.
    pub in_get_char: bool,
}

impl RunSlice {
    /// The state after `instruction`, executed with the values `r0` and `r1` of R0 and R1, and
    /// whether the time slice ends there.
    pub open spec fn after(self, instruction: Instruction, r0: u32, r1: u32) -> (Self, bool) {
        let counter = count_one_more(self.counter, RUN_SLICE_LENGTH);
        if counter >= RUN_SLICE_LENGTH {
            (RunSlice { counter, ..self }, true)
        } else {
            match polled_address(instruction, r0, r1) {
                Some(address) => {
                    let in_delay = address == SYSTEM_TIMER_CONTROL_AND_STATUS_REGISTER;
                    let in_get_char = address == KEYBOARD_HANDLER_CHAR;
                    (RunSlice { counter, in_delay, in_get_char }, in_delay || in_get_char)
                },
                None => (RunSlice { counter, ..self }, false),
            }
        }
    }

    /// A time slice that has not started yet.
    pub fn new() -> (r: Self)
        ensures
            r == (RunSlice { counter: 0, in_delay: false, in_get_char: false }),
    {
        RunSlice { counter: 0, in_delay: false, in_get_char: false }
    }

    /// The code that the front end reports after the time slice: -1 when the program polled the
    /// system timer last, 10 when it waited for a key in this slice and in the previous one
    /// (`previous_in_get_char`), and 0 otherwise.
    pub fn pause(&self, previous_in_get_char: bool) -> (r: i32)
        ensures
            r == (if self.in_delay {
                -1
            } else if self.in_get_char && previous_in_get_char {
                10
            } else {
                0
            }),
    {
        if self.in_delay {
            -1
        } else if self.in_get_char && previous_in_get_char {
            10
        } else {
            0
        }
    }
}

impl StopCondition for RunSlice {
    open spec fn stops(&self, instruction: Instruction, r0: u32, r1: u32) -> bool {
        self.after(instruction, r0, r1).1
    }

    open spec fn next(&self, instruction: Instruction, r0: u32, r1: u32) -> Self {
        self.after(instruction, r0, r1).0
    }

    fn is_done(&mut self, instruction: Instruction, r0: u32, r1: u32) -> (r: bool)
        ensures
            (*final(self), r) == old(self).after(instruction, r0, r1),
    {
        if self.counter < RUN_SLICE_LENGTH {
            self.counter = self.counter + 1;
        }
        if self.counter >= RUN_SLICE_LENGTH {
            return true;
        }
        match get_polled_address(instruction, r0, r1) {
            Some(address) => {
                self.in_delay = address == SYSTEM_TIMER_CONTROL_AND_STATUS_REGISTER;
                self.in_get_char = address == KEYBOARD_HANDLER_CHAR;
                self.in_delay || self.in_get_char
            },
            None => false,
        }
    }
}

/// The decision to stop running the program after a scan code was sent to it: after
/// `SCANCODE_SLICE_LENGTH` instructions, or when the program reads the USART0 receive holding
/// register.
pub struct ScancodeSlice {
    /// The number of instructions emulated so far (up to `SCANCODE_SLICE_LENGTH`).
    pub counter: u32,
}

impl ScancodeSlice {
    /// The state after `instruction`, executed with the values `r0` and `r1` of R0 and R1, and
    /// whether to stop there.
    pub open spec fn after(self, instruction: Instruction, r0: u32, r1: u32) -> (Self, bool) {
        let counter = count_one_more(self.counter, SCANCODE_SLICE_LENGTH);
        (
            ScancodeSlice { counter },
            counter >= SCANCODE_SLICE_LENGTH || polled_address(instruction, r0, r1) == Some(
                USART0_RECEIVE_HOLDING_REGISTER,
            ),
        )
    }

    /// A slice that has not started yet.
    pub fn new() -> (r: Self)
        ensures
            r == (ScancodeSlice { counter: 0 }),
    {
        ScancodeSlice { counter: 0 }
    }
}

impl StopCondition for ScancodeSlice {
    open spec fn stops(&self, instruction: Instruction, r0: u32, r1: u32) -> bool {
        self.after(instruction, r0, r1).1
    }

    open spec fn next(&self, instruction: Instruction, r0: u32, r1: u32) -> Self {
        self.after(instruction, r0, r1).0
    }

    fn is_done(&mut self, instruction: Instruction, r0: u32, r1: u32) -> (r: bool)
        ensures
            (*final(self), r) == old(self).after(instruction, r0, r1),
    {
        if self.counter < SCANCODE_SLICE_LENGTH {
            self.counter = self.counter + 1;
        }
        if self.counter >= SCANCODE_SLICE_LENGTH {
            return true;
        }
        match get_polled_address(instruction, r0, r1) {
            Some(address) => address == USART0_RECEIVE_HOLDING_REGISTER,
            None => false,
        }
    }
}

/// The color `color` as the number 0xRRGGBB.
pub fn color_code(color: Color) -> (r: u32)
    ensures
        r == color.r * 0x10000 + color.g * 0x100 + color.b,
{
    (color.r as u32) * 0x10000 + (color.g as u32) * 0x100 + (color.b as u32)
}

/// Whether the LED of the board (pin PB27) is on, given the output levels of the four PIO
/// controllers.
pub fn led_on(pins: &[u32; 4]) -> (r: bool)
    ensures
        r == (pins[1] & 0x0800_0000 != 0),
{
    pins[1] & 0x0800_0000 != 0
}

/// The index of the last `c` in `s`, if any.
pub open spec fn last_index_of(s: Seq<char>, c: char) -> Option<int>
    decreases s.len(),
{
    if s.len() == 0 {
        None
    } else if s.last() == c {
        Some(s.len() - 1)
    } else {
        last_index_of(s.drop_last(), c)
    }
}

/// The complete commands received on the serial port (`input` up to its last '#', included), and
/// the rest of `input`, or `None` if `input` holds no '#'.
pub fn complete_commands(input: &str) -> (r: Option<(String, String)>)
    ensures
        match last_index_of(input@, '#') {
            None => r is None,
            Some(i) => r matches Some((commands, rest)) && commands@ == input@.take(i + 1)
                && rest@ == input@.skip(i + 1),
        },
{
    let chars = chars_of(input);
    let n = chars.len();
    let mut i = n;
    assert(chars@.take(n as int) =~= chars@);
    while i > 0
        invariant
            i <= n,
            n == chars@.len(),
            chars@ == input@,
            last_index_of(input@, '#') == last_index_of(chars@.take(i as int), '#'),
        decreases i,
    {
        if chars[i - 1] == '#' {
            let commands = string_of(&chars, 0, i);
            let rest = string_of(&chars, i, n);
            assert(chars@.subrange(0, i as int) =~= input@.take(i as int));
            assert(chars@.subrange(i as int, n as int) =~= input@.skip(i as int));
            return Some((commands, rest));
        }
        assert(chars@.take(i as int).drop_last() =~= chars@.take(i - 1));
        i = i - 1;
    }
    None
}

} // verus!
