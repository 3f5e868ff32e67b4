use vstd::prelude::*;
use vstd::string::StrSliceExecFns;
use crate::boot::{push_char, MonitorState};
use crate::chip::{ChipState, MicroController};
use crate::pio::PioDevice;
use crate::spi::SpiDevice;
use crate::text::{
    chars_of, find_piece_end, lemma_piece_end, piece_end, push_str, string_of, trim, trim_start,
    trimmed_equals,
};

verus! {

/// The command line shown before the commands sent to the boot program.
pub open spec fn command_line() -> Seq<char> {
    "user@host:~$ python3 boot_helper.py\n>"@
}

/// The error reported when the boot program does not process a command.
pub open spec fn no_response() -> Seq<char> {
    "ERROR: no response from device.\n"@
}

/// The error reported when the emulation of the device fails.
pub open spec fn device_failure() -> Seq<char> {
    "ERROR: device failure.\n"@
}

/// The error reported when the answer of the boot program does not end with its prompt.
pub open spec fn no_prompt() -> Seq<char> {
    "ERROR: no prompt from device.\n"@
}

/// The answer of the boot program in `output`: without its leading white space and without its
/// final prompt (if it has one).
pub open spec fn answer(output: Seq<char>) -> Option<Seq<char>> {
    let t = trim_start(output);
    if t.len() > 0 && t.last() == '>' {
        Some(t.drop_last())
    } else {
        None
    }
}

/// The outcome of sending `command` to the boot program of a micro-controller in the state `s`:
/// its new state (unknown after a failure of the emulation), and its answer when the command
/// ends with '#', or the error.
#[verifier::opaque]
pub open spec fn run_outcome<S: SpiDevice, P: PioDevice>(
    s: ChipState<S, P>,
    max_cycles: u32,
    command: Seq<char>,
) -> (Option<ChipState<S, P>>, Result<Option<Seq<char>>, Seq<char>>) {
    if s.monitor_input.len() + command.len() > usize::MAX {
        (Some(s), Err(no_response()))
    } else {
        match s.serial_input(command, max_cycles) {
            Err(_) => (None, Err(device_failure())),
            Ok((s2, false)) => (Some(s2), Err(no_response())),
            Ok((s2, true)) => {
                if command.len() > 0 && command.last() == '#' {
                    let output = if s2.run_from_flash {
                        Seq::empty()
                    } else {
                        s2.monitor.output
                    };
                    let s3 = if s2.run_from_flash {
                        s2
                    } else {
                        ChipState { monitor: MonitorState { output: Seq::empty(), ..s2.monitor }, ..s2 }
                    };
                    match answer(output) {
                        Some(text) => (Some(s3), Ok(Some(text))),
                        None => (Some(s3), Err(no_prompt())),
                    }
                } else {
                    (Some(s2), Ok(None))
                }
            },
        }
    }
}

/// Sends `command` to the boot program of `serial_port`, and returns its answer when the command
/// ends with '#' (see `run_outcome`).
pub fn run<S: SpiDevice, P: PioDevice>(serial_port: &mut MicroController<S, P>, command: &str) -> (r:
    Result<Option<String>, String>)
    requires
        old(serial_port).inv(),
        old(serial_port).on,
    ensures
        final(serial_port).inv(),
        final(serial_port).on,
        final(serial_port).max_boot_program_go_cycles == old(serial_port).max_boot_program_go_cycles,
        ({
            let (s, outcome) = run_outcome(
                old(serial_port).state(),
                old(serial_port).max_boot_program_go_cycles,
                command@,
            );
            &&& s is Some ==> final(serial_port).state() == s->Some_0
            &&& outcome is Ok ==> s is Some
            &&& match outcome {
                Ok(Some(text)) => r is Ok && r->Ok_0 is Some && r->Ok_0->Some_0@ == text,
                Ok(None) => r == Ok::<Option<String>, String>(None),
                Err(e) => r is Err && r->Err_0@ == e,
            }
        }),
{
    reveal(run_outcome);
    let n = command.unicode_len();
    if serial_port.boot_monitor.input.len() > usize::MAX - n {
        return Err(String::from_str("ERROR: no response from device.\n"));
    }
    match serial_port.set_serial_input(command) {
        Err(_) => {
            return Err(String::from_str("ERROR: device failure.\n"));
        },
        Ok(false) => {
            return Err(String::from_str("ERROR: no response from device.\n"));
        },
        Ok(true) => {},
    }
    let chars = chars_of(command);
    if n > 0 && chars[n - 1] == '#' {
        let output = serial_port.get_serial_output();
        let output_chars = chars_of(output.as_str());
        let mut start: usize = 0;
        assert(output_chars@.subrange(0, output_chars@.len() as int) =~= output_chars@);
        while start < output_chars.len() && crate::text::is_white_space_char(output_chars[start])
            invariant
                start <= output_chars@.len(),
                trim_start(output_chars@) == trim_start(output_chars@.subrange(start as int, output_chars@.len() as int)),
            decreases output_chars@.len() - start,
        {
            assert(output_chars@.subrange(start + 1, output_chars@.len() as int) =~= output_chars@.subrange(start as int, output_chars@.len() as int).drop_first());
            start = start + 1;
        }
        let len = output_chars.len();
        if start < len && output_chars[len - 1] == '>' {
            Ok(Some(string_of(&output_chars, start, len - 1)))
        } else {
            Err(String::from_str("ERROR: no prompt from device.\n"))
        }
    } else {
        Ok(None)
    }
}

/// The outcome of sending the commands of `commands` which start at `start` (each ending with
/// '#', except maybe the last one) to the boot program of a micro-controller in the state `s`:
/// its new state (unknown after a failure of the emulation), the output with the answers to the
/// commands, each followed by a prompt, and whether the user can send more commands. Sending
/// stops at an "exit#" command, or after an error (which is added to the output).
#[verifier::opaque]
pub open spec fn write_outcome<S: SpiDevice, P: PioDevice>(
    s: ChipState<S, P>,
    max_cycles: u32,
    output: Seq<char>,
    commands: Seq<char>,
    start: int,
) -> (Option<ChipState<S, P>>, Seq<char>, bool)
    decreases commands.len() - start,
{
    if start < 0 || start >= commands.len() {
        (Some(s), output, true)
    } else {
        let end = piece_end(commands, '#', start);
        proof {
            lemma_piece_end(commands, '#', start);
        }
        let command = commands.subrange(start, end);
        if trim(command) == "exit#"@ {
            (Some(s), output, false)
        } else {
            match run_outcome(s, max_cycles, command) {
                (Some(s2), Ok(Some(text))) => write_outcome(
                    s2,
                    max_cycles,
                    output + text + seq!['>'],
                    commands,
                    end,
                ),
                (Some(s2), Ok(None)) => write_outcome(s2, max_cycles, output, commands, end),
                (s2, Err(e)) => (s2, output + e, false),
                (None, Ok(_)) => (None, output, false),
            }
        }
    }
}

/// The output left after a read, and the output read: the whole output in a terminal, otherwise
/// the output without its last line feed, or without its last prompt line (which stays).
pub open spec fn read_outcome(output: Seq<char>, terminal: bool) -> (Seq<char>, Seq<char>) {
    let n = output.len() as int;
    if terminal {
        (Seq::empty(), output)
    } else if n >= 2 && output[n - 2] == '\n' && output[n - 1] == '>' {
        (seq!['>'], output.subrange(0, n - 2))
    } else if n >= 1 && output[n - 1] == '\n' {
        (Seq::empty(), output.subrange(0, n - 1))
    } else {
        (Seq::empty(), output)
    }
}

/// A helper to send commands to the boot program of a micro-controller through its serial port,
/// which records the commands and the answers, like in a terminal session.
pub struct BootHelper<S: SpiDevice, P: PioDevice> {
    pub serial_port: MicroController<S, P>,
    pub terminal: bool,
    pub output: String,
}

impl<S: SpiDevice, P: PioDevice> BootHelper<S, P> {
    /// The micro-controller can run.
    pub open spec fn wf(self) -> bool {
        self.serial_port.inv() && self.serial_port.on
    }

    /// A helper which records the commands after a command line.
    pub fn new(serial_port: MicroController<S, P>) -> (r: Self)
        ensures
            r.serial_port == serial_port,
            !r.terminal,
            r.output@ == command_line(),
    {
        Self::create(serial_port, false)
    }

    /// A helper which records the commands after a command line, unless it is used in a
    /// terminal (which shows the commands itself).
    pub fn create(serial_port: MicroController<S, P>, terminal: bool) -> (r: Self)
        ensures
            r.serial_port == serial_port,
            r.terminal == terminal,
            r.output@ == (if terminal {
                Seq::<char>::empty()
            } else {
                command_line()
            }),
    {
        Self {
            serial_port,
            terminal,
            output: if terminal {
                String::new()
            } else {
                String::from_str("user@host:~$ python3 boot_helper.py\n>")
            },
        }
    }

    /// Sends the commands of `commands` to the boot program (see `write_outcome`). Returns
    /// whether more commands can be sent.
    pub fn write(&mut self, commands: &str) -> (r: bool)
        requires
            old(self).wf(),
        ensures
            final(self).wf(),
            final(self).terminal == old(self).terminal,
            final(self).serial_port.max_boot_program_go_cycles
                == old(self).serial_port.max_boot_program_go_cycles,
            ({
                let output = if old(self).terminal {
                    old(self).output@
                } else {
                    old(self).output@ + commands@ + seq!['\n']
                };
                let (s, out, more) = write_outcome(
                    old(self).serial_port.state(),
                    old(self).serial_port.max_boot_program_go_cycles,
                    output,
                    commands@,
                    0,
                );
                &&& r == more
                &&& final(self).output@ == out
                &&& s is Some ==> final(self).serial_port.state() == s->Some_0
            }),
    {
        if !self.terminal {
            push_str(&mut self.output, commands);
            push_char(&mut self.output, '\n');
        }
        let ghost max_cycles = self.serial_port.max_boot_program_go_cycles;
        proof {
            if !old(self).terminal {
                assert(self.output@ =~= old(self).output@ + commands@ + seq!['\n']);
            }
        }
        let ghost expected = write_outcome(
            self.serial_port.state(),
            max_cycles,
            self.output@,
            commands@,
            0,
        );
        let chars = chars_of(commands);
        let mut start: usize = 0;
        while start < chars.len()
            invariant
                self.wf(),
                chars@ == commands@,
                start <= chars@.len(),
                self.terminal == old(self).terminal,
                self.serial_port.max_boot_program_go_cycles == max_cycles,
                max_cycles == old(self).serial_port.max_boot_program_go_cycles,
                expected == write_outcome(
                    old(self).serial_port.state(),
                    max_cycles,
                    if old(self).terminal {
                        old(self).output@
                    } else {
                        old(self).output@ + commands@ + seq!['\n']
                    },
                    commands@,
                    0,
                ),
                expected == write_outcome(
                    self.serial_port.state(),
                    max_cycles,
                    self.output@,
                    commands@,
                    start as int,
                ),
            decreases chars@.len() - start,
        {
            let end = find_piece_end(&chars, '#', start);
            proof {
                lemma_piece_end(chars@, '#', start as int);
                reveal(write_outcome);
            }
            if trimmed_equals(&chars, start, end, "exit#") {
                return false;
            }
            let command = string_of(&chars, start, end);
            let ghost before = self.output@;
            match run(&mut self.serial_port, command.as_str()) {
                Ok(Some(result)) => {
                    push_str(&mut self.output, result.as_str());
                    push_char(&mut self.output, '>');
                    assert(self.output@ =~= before + result@ + seq!['>']);
                },
                Ok(None) => {},
                Err(error) => {
                    push_str(&mut self.output, error.as_str());
                    return false;
                },
            }
            start = end;
        }
        proof {
            reveal(write_outcome);
        }
        true
    }

    /// Returns the recorded commands and answers since the last call (see `read_outcome`).
    pub fn read(&mut self) -> (r: String)
        ensures
            (final(self).output@, r@) == read_outcome(old(self).output@, old(self).terminal),
            final(self).serial_port == old(self).serial_port,
            final(self).terminal == old(self).terminal,
    {
        Self::read_output(&mut self.output, self.terminal)
    }

    /// Returns the recorded output, and keeps its last prompt line if any (see `read_outcome`).
    pub fn read_output(output: &mut String, terminal: bool) -> (r: String)
        ensures
            (final(output)@, r@) == read_outcome(old(output)@, terminal),
    {
        let chars = chars_of(output.as_str());
        let n = chars.len();
        let mut result = String::new();
        if terminal {
            std::mem::swap(output, &mut result);
        } else if n >= 2 && chars[n - 2] == '\n' && chars[n - 1] == '>' {
            result = string_of(&chars, 0, n - 2);
            *output = String::new();
            push_char(output, '>');
        } else if n >= 1 && chars[n - 1] == '\n' {
            result = string_of(&chars, 0, n - 1);
            *output = String::new();
        } else {
            std::mem::swap(output, &mut result);
        }
        result
    }
}

} // verus!
