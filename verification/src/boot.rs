use vstd::prelude::*;
use vstd::string::StrSliceExecFns;
use vstd::string::StringExecFns;
use crate::bus::{BusMatrix, BusState};
use crate::fault::Fault;
use crate::pio::PioDevice;
use crate::spi::SpiDevice;

verus! {

/// The commands of the boot program.
#[derive(Clone, Copy, PartialEq, Eq, Structural)]
pub enum Command {
    GetVersion,
    ReadByte,
    WriteByte,
    ReadHalfWord,
    WriteHalfWord,
    ReadWord,
    WriteWord,
    Go,
    Idle,
}

/// The version of the boot program.
pub open spec fn version() -> Seq<char> {
    "v1.1 Dec 15 2010 19:25:04\n>"@
}

/// The prompt of the boot program.
pub open spec fn prompt() -> Seq<char> {
    seq!['\n', '>']
}

/// The upper case hexadecimal digit of `d`, which must be less than 16.
pub open spec fn hex_char(d: u32) -> char {
    if d == 0 {
        '0'
    } else if d == 1 {
        '1'
    } else if d == 2 {
        '2'
    } else if d == 3 {
        '3'
    } else if d == 4 {
        '4'
    } else if d == 5 {
        '5'
    } else if d == 6 {
        '6'
    } else if d == 7 {
        '7'
    } else if d == 8 {
        '8'
    } else if d == 9 {
        '9'
    } else if d == 10 {
        'A'
    } else if d == 11 {
        'B'
    } else if d == 12 {
        'C'
    } else if d == 13 {
        'D'
    } else if d == 14 {
        'E'
    } else {
        'F'
    }
}

/// The `n` lowest upper case hexadecimal digits of `value`, most significant first.
pub open spec fn hex_digits(value: u32, n: nat) -> Seq<char>
    decreases n,
{
    if n == 0 {
        Seq::empty()
    } else {
        hex_digits(value / 16, (n - 1) as nat).push(hex_char(value % 16))
    }
}

/// The answer to a read command: `value` in hexadecimal with `n` digits, and the prompt.
pub open spec fn hex_answer(value: u32, n: nat) -> Seq<char> {
    seq!['0', 'x'] + hex_digits(value, n) + prompt()
}

/// The value of a hexadecimal digit, if `c` is one.
pub open spec fn hex_value(c: char) -> Option<u32> {
    if '0' <= c <= '9' {
        Some((c as u32 - '0' as u32) as u32)
    } else if 'A' <= c <= 'F' {
        Some((c as u32 - 'A' as u32 + 10) as u32)
    } else if 'a' <= c <= 'f' {
        Some((c as u32 - 'a' as u32 + 10) as u32)
    } else {
        None
    }
}

/// The state of the boot program, as seen by its users.
pub struct MonitorState {
    pub command: Command,
    pub address: u32,
    pub value: u32,
    pub output: Seq<char>,
}

/// What happens after a character of the input is processed.
pub enum Step {
    /// The next character can be processed.
    Continue,
    /// A Go command was received, with the address of the program to run.
    Go(u32),
    /// A command failed.
    Failed(Fault),
}

/// The result of a command which reads a value from the bus: the answer, or the failure.
pub open spec fn read_answer<S: SpiDevice, P: PioDevice>(
    m: MonitorState,
    read: (BusState<S, P>, Result<u32, Fault>),
    digits: nat,
) -> (MonitorState, BusState<S, P>, Step) {
    match read.1 {
        Ok(v) => (
            MonitorState {
                command: Command::Idle,
                output: m.output + hex_answer(v, digits),
                ..m
            },
            read.0,
            Step::Continue,
        ),
        Err(e) => (m, read.0, Step::Failed(e)),
    }
}

/// The result of a command which writes a value on the bus: the prompt, or the failure.
pub open spec fn write_answer<S: SpiDevice, P: PioDevice>(
    m: MonitorState,
    written: (BusState<S, P>, Result<(), Fault>),
) -> (MonitorState, BusState<S, P>, Step) {
    match written.1 {
        Ok(_) => (
            MonitorState { command: Command::Idle, output: m.output + prompt(), ..m },
            written.0,
            Step::Continue,
        ),
        Err(e) => (m, written.0, Step::Failed(e)),
    }
}

/// Executing the current command, when its terminating '#' character is received.
pub open spec fn execute<S: SpiDevice, P: PioDevice>(m: MonitorState, bus: BusState<S, P>) -> (
    MonitorState,
    BusState<S, P>,
    Step,
) {
    match m.command {
        Command::GetVersion => (
            MonitorState { command: Command::Idle, output: m.output + version(), ..m },
            bus,
            Step::Continue,
        ),
        Command::ReadByte => read_answer(m, bus.read8(m.address), 2),
        Command::WriteByte => write_answer(m, bus.write8(m.address, m.value as u8)),
        Command::ReadHalfWord => read_answer(m, bus.read16(m.address), 4),
        Command::WriteHalfWord => write_answer(m, bus.write16(m.address, m.value as u16)),
        Command::ReadWord => read_answer(m, bus.read32(m.address), 8),
        Command::WriteWord => write_answer(m, bus.write32(m.address, m.value)),
        Command::Go => (m, bus, Step::Go(m.value)),
        Command::Idle => (
            MonitorState { output: m.output + prompt(), ..m },
            bus,
            Step::Continue,
        ),
    }
}

/// Processing the character `c` of the input. See section 20.4.3, SAM-BA Monitor, of the SAM3X
/// datasheet.
pub open spec fn step<S: SpiDevice, P: PioDevice>(m: MonitorState, bus: BusState<S, P>, c: char) -> (
    MonitorState,
    BusState<S, P>,
    Step,
) {
    let continue_with = |command: Command, value: u32|
        (MonitorState { command, value, ..m }, bus, Step::Continue);
    if c == 'V' {
        continue_with(Command::GetVersion, m.value)
    } else if c == 'o' {
        continue_with(Command::ReadByte, 0)
    } else if c == 'O' {
        continue_with(Command::WriteByte, 0)
    } else if c == 'h' {
        continue_with(Command::ReadHalfWord, 0)
    } else if c == 'H' {
        continue_with(Command::WriteHalfWord, 0)
    } else if c == 'w' {
        continue_with(Command::ReadWord, 0)
    } else if c == 'W' {
        continue_with(Command::WriteWord, 0)
    } else if c == 'G' {
        continue_with(Command::Go, 0)
    } else if hex_value(c) is Some {
        continue_with(
            m.command,
            vstd::wrapping::u32_specs::wrapping_shl(m.value, 4) | hex_value(c)->0,
        )
    } else if c == ',' {
        (MonitorState { address: m.value, value: 0, ..m }, bus, Step::Continue)
    } else if c == '#' {
        execute(m, bus)
    } else if c == '\n' || c == '\r' {
        (m, bus, Step::Continue)
    } else {
        continue_with(Command::Idle, m.value)
    }
}

/// Processing the characters of `input` from the index `i`: the state of the monitor and of
/// the bus, the number of processed characters, and the address of the program to run, if a
/// Go command was received. Processing stops after a Go command, or when a command fails.
pub open spec fn parse_from<S: SpiDevice, P: PioDevice>(
    m: MonitorState,
    bus: BusState<S, P>,
    input: Seq<char>,
    i: int,
) -> (MonitorState, BusState<S, P>, int, Result<Option<u32>, Fault>)
    decreases input.len() - i,
{
    if i >= input.len() || i < 0 {
        (m, bus, input.len() as int, Ok(None))
    } else {
        let (m2, bus2, s) = step(m, bus, input[i]);
        match s {
            Step::Continue => parse_from(m2, bus2, input, i + 1),
            Step::Go(address) => (m2, bus2, i + 1, Ok(Some(address))),
            Step::Failed(e) => (m2, bus2, i + 1, Err(e)),
        }
    }
}

/// The value of the boot program after it receives the hexadecimal digits `digits`, from the
/// value `value`.
pub open spec fn value_after_digits(value: u32, digits: Seq<char>) -> u32
    decreases digits.len(),
{
    if digits.len() == 0 {
        value
    } else {
        value_after_digits(
            vstd::wrapping::u32_specs::wrapping_shl(value, 4) | hex_value(digits[0])->0,
            digits.drop_first(),
        )
    }
}

/// Whether all the characters of `s` are hexadecimal digits.
pub open spec fn all_hex_digits(s: Seq<char>) -> bool {
    forall|i: int| 0 <= i < s.len() ==> (#[trigger] hex_value(s[i])) is Some
}

/// The boot program processes hexadecimal digits by shifting them into its value, and nothing
/// else changes.
proof fn lemma_parse_digits<S: SpiDevice, P: PioDevice>(
    m: MonitorState,
    bus: BusState<S, P>,
    input: Seq<char>,
    i: int,
)
    requires
        0 <= i <= input.len(),
        all_hex_digits(input),
    ensures
        parse_from(m, bus, input, i) == (
            MonitorState {
                value: value_after_digits(m.value, input.subrange(i, input.len() as int)),
                ..m
            },
            bus,
            input.len() as int,
            Ok::<Option<u32>, Fault>(None),
        ),
    decreases input.len() - i,
{
    if i < input.len() {
        let c = input[i];
        assert(hex_value(c) is Some);
        let m2 = MonitorState {
            value: vstd::wrapping::u32_specs::wrapping_shl(m.value, 4) | hex_value(c)->0,
            ..m
        };
        assert(step(m, bus, c) == (m2, bus, Step::Continue));
        lemma_parse_digits(m2, bus, input, i + 1);
        assert(input.subrange(i, input.len() as int).drop_first() =~= input.subrange(
            i + 1,
            input.len() as int,
        ));
    } else {
        assert(input.subrange(i, input.len() as int) =~= Seq::<char>::empty());
    }
}

/// Receiving a digit after other digits shifts it into the value they give.
proof fn lemma_value_after_push(value: u32, digits: Seq<char>, c: char)
    ensures
        value_after_digits(value, digits.push(c)) == (vstd::wrapping::u32_specs::wrapping_shl(
            value_after_digits(value, digits),
            4,
        ) | hex_value(c)->0),
    decreases digits.len(),
{
    let pushed = digits.push(c);
    if digits.len() > 0 {
        let next = vstd::wrapping::u32_specs::wrapping_shl(value, 4) | hex_value(digits[0])->0;
        lemma_value_after_push(next, digits.drop_first(), c);
        assert(pushed[0] == digits[0]);
        assert(pushed.drop_first() =~= digits.drop_first().push(c));
        assert(value_after_digits(value, pushed) == value_after_digits(next, pushed.drop_first()));
        assert(value_after_digits(value, digits) == value_after_digits(next, digits.drop_first()));
    } else {
        let next = vstd::wrapping::u32_specs::wrapping_shl(value, 4) | hex_value(c)->0;
        assert(pushed[0] == c);
        assert(pushed.drop_first() =~= Seq::<char>::empty());
        assert(value_after_digits(value, pushed) == value_after_digits(next, pushed.drop_first()));
        assert(value_after_digits(next, Seq::<char>::empty()) == next);
    }
}

/// The digits of a number are hexadecimal digits, whose value is the digit.
pub proof fn lemma_hex_digits(value: u32, n: nat)
    ensures
        hex_digits(value, n).len() == n,
        all_hex_digits(hex_digits(value, n)),
    decreases n,
{
    if n > 0 {
        lemma_hex_digits(value / 16, (n - 1) as nat);
        let d = value % 16;
        assert(hex_value(hex_char(d)) == Some(d));
    }
}

/// The boot program reads back the numbers it writes: receiving the 8 hexadecimal digits of
/// `value` (as in its answers to word reads) after a command letter or a comma, which clear its
/// value, sets its value to `value`, and changes nothing else.
pub proof fn lemma_read_back_hex<S: SpiDevice, P: PioDevice>(
    m: MonitorState,
    bus: BusState<S, P>,
    value: u32,
)
    requires
        m.value == 0,
    ensures
        parse_from(m, bus, hex_digits(value, 8), 0) == (
            MonitorState { value, ..m },
            bus,
            8int,
            Ok::<Option<u32>, Fault>(None),
        ),
{
    lemma_hex_digits(value, 8);
    lemma_parse_digits(m, bus, hex_digits(value, 8), 0);
    assert(hex_digits(value, 8).subrange(0, 8) =~= hex_digits(value, 8));
    let d0 = value / 16 / 16 / 16 / 16 / 16 / 16 / 16;
    let d1 = value / 16 / 16 / 16 / 16 / 16 / 16;
    let d2 = value / 16 / 16 / 16 / 16 / 16;
    let d3 = value / 16 / 16 / 16 / 16;
    let d4 = value / 16 / 16 / 16;
    let d5 = value / 16 / 16;
    let d6 = value / 16;
    let d7 = value;
    lemma_value_after_push(0, hex_digits(d0 / 16, 0), hex_char(d0 % 16));
    lemma_value_after_push(0, hex_digits(d0, 1), hex_char(d1 % 16));
    lemma_value_after_push(0, hex_digits(d1, 2), hex_char(d2 % 16));
    lemma_value_after_push(0, hex_digits(d2, 3), hex_char(d3 % 16));
    lemma_value_after_push(0, hex_digits(d3, 4), hex_char(d4 % 16));
    lemma_value_after_push(0, hex_digits(d4, 5), hex_char(d5 % 16));
    lemma_value_after_push(0, hex_digits(d5, 6), hex_char(d6 % 16));
    lemma_value_after_push(0, hex_digits(d6, 7), hex_char(d7 % 16));
    assert(hex_value(hex_char(d0 % 16)) == Some(d0 % 16));
    assert(hex_value(hex_char(d1 % 16)) == Some(d1 % 16));
    assert(hex_value(hex_char(d2 % 16)) == Some(d2 % 16));
    assert(hex_value(hex_char(d3 % 16)) == Some(d3 % 16));
    assert(hex_value(hex_char(d4 % 16)) == Some(d4 % 16));
    assert(hex_value(hex_char(d5 % 16)) == Some(d5 % 16));
    assert(hex_value(hex_char(d6 % 16)) == Some(d6 % 16));
    assert(hex_value(hex_char(d7 % 16)) == Some(d7 % 16));
    assert(value_after_digits(0, hex_digits(d0 / 16, 0)) == 0) by {
        assert(hex_digits(d0 / 16, 0) =~= Seq::<char>::empty());
    }
    assert((vstd::wrapping::u32_specs::wrapping_shl(
        vstd::wrapping::u32_specs::wrapping_shl(
            vstd::wrapping::u32_specs::wrapping_shl(
                vstd::wrapping::u32_specs::wrapping_shl(
                    vstd::wrapping::u32_specs::wrapping_shl(
                        vstd::wrapping::u32_specs::wrapping_shl(
                            vstd::wrapping::u32_specs::wrapping_shl(
                                vstd::wrapping::u32_specs::wrapping_shl(0u32, 4) | (value / 16
                                    / 16 / 16 / 16 / 16 / 16 / 16) % 16,
                                4,
                            ) | (value / 16 / 16 / 16 / 16 / 16 / 16) % 16,
                            4,
                        ) | (value / 16 / 16 / 16 / 16 / 16) % 16,
                        4,
                    ) | (value / 16 / 16 / 16 / 16) % 16,
                    4,
                ) | (value / 16 / 16 / 16) % 16,
                4,
            ) | (value / 16 / 16) % 16,
            4,
        ) | (value / 16) % 16,
        4,
    ) | value % 16) == value) by (bit_vector);
}

/// Hexadecimal digits in the middle of the input are shifted into the value of the boot program,
/// and nothing else changes.
proof fn lemma_parse_digit_run<S: SpiDevice, P: PioDevice>(
    m: MonitorState,
    bus: BusState<S, P>,
    input: Seq<char>,
    i: int,
    j: int,
)
    requires
        0 <= i <= j <= input.len(),
        forall|t: int| i <= t < j ==> (#[trigger] hex_value(input[t])) is Some,
    ensures
        parse_from(m, bus, input, i) == parse_from(
            MonitorState { value: value_after_digits(m.value, input.subrange(i, j)), ..m },
            bus,
            input,
            j,
        ),
    decreases j - i,
{
    if i < j {
        let c = input[i];
        assert(hex_value(c) is Some);
        let m2 = MonitorState {
            value: vstd::wrapping::u32_specs::wrapping_shl(m.value, 4) | hex_value(c)->0,
            ..m
        };
        assert(step(m, bus, c) == (m2, bus, Step::Continue));
        lemma_parse_digit_run(m2, bus, input, i + 1, j);
        assert(input.subrange(i, j).drop_first() =~= input.subrange(i + 1, j));
        assert(input.subrange(i, j)[0] == c);
    } else {
        assert(input.subrange(i, j) =~= Seq::<char>::empty());
    }
}

/// The 8 hexadecimal digits of `value`, shifted into a cleared value, give `value`.
proof fn lemma_value_of_hex_digits<S: SpiDevice, P: PioDevice>(
    m: MonitorState,
    bus: BusState<S, P>,
    value: u32,
)
    ensures
        value_after_digits(0, hex_digits(value, 8)) == value,
{
    let cleared = MonitorState { value: 0, ..m };
    lemma_hex_digits(value, 8);
    lemma_read_back_hex(cleared, bus, value);
    lemma_parse_digits(cleared, bus, hex_digits(value, 8), 0);
    assert(hex_digits(value, 8).subrange(0, 8) =~= hex_digits(value, 8));
}

/// The boot program executes the command "W<address>,<value>#", with the address and the value
/// in 8 hexadecimal digits, whatever its state before, by writing `value` at `address` on the
/// bus: when the write succeeds, it answers with the prompt and waits for the next command;
/// otherwise the command fails with the fault of the write.
pub proof fn lemma_write_word_command<S: SpiDevice, P: PioDevice>(
    m: MonitorState,
    bus: BusState<S, P>,
    input: Seq<char>,
    k: int,
    address: u32,
    value: u32,
)
    requires
        0 <= k,
        k + 19 == input.len(),
        input.subrange(k, input.len() as int) == seq!['W'] + hex_digits(address, 8) + seq![',']
            + hex_digits(value, 8) + seq!['#'],
    ensures
        parse_from(m, bus, input, k) == match bus.write32(address, value) {
            (written, Ok(_)) => (
                MonitorState {
                    command: Command::Idle,
                    address,
                    value,
                    output: m.output + prompt(),
                },
                written,
                input.len() as int,
                Ok::<Option<u32>, Fault>(None),
            ),
            (written, Err(e)) => (
                MonitorState { command: Command::WriteWord, address, value, output: m.output },
                written,
                input.len() as int,
                Err::<Option<u32>, Fault>(e),
            ),
        },
{
    let command = seq!['W'] + hex_digits(address, 8) + seq![','] + hex_digits(value, 8) + seq![
        '#',
    ];
    lemma_hex_digits(address, 8);
    lemma_hex_digits(value, 8);
    assert forall|t: int| 0 <= t < 19 implies input[k + t] == #[trigger] command[t] by {
        assert(input.subrange(k, input.len() as int)[t] == input[k + t]);
    }
    assert(input[k] == command[0]);
    assert(input[k + 9] == command[9]);
    assert(input[k + 18] == command[18]);
    let m1 = MonitorState { command: Command::WriteWord, value: 0, ..m };
    assert(step(m, bus, 'W') == (m1, bus, Step::Continue));
    assert forall|t: int| k + 1 <= t < k + 9 implies (#[trigger] hex_value(input[t])) is Some by {
        assert(input[k + (t - k)] == command[t - k]);
        assert(command[t - k] == hex_digits(address, 8)[t - k - 1]);
    }
    lemma_parse_digit_run(m1, bus, input, k + 1, k + 9);
    assert(input.subrange(k + 1, k + 9) =~= hex_digits(address, 8)) by {
        assert forall|t: int| 0 <= t < 8 implies input.subrange(k + 1, k + 9)[t] == hex_digits(
            address,
            8,
        )[t] by {
            assert(input[k + (t + 1)] == command[t + 1]);
        }
    }
    lemma_value_of_hex_digits(m, bus, address);
    let m2 = MonitorState { command: Command::WriteWord, value: address, ..m };
    let m3 = MonitorState { command: Command::WriteWord, address, value: 0, ..m };
    assert(step(m2, bus, ',') == (m3, bus, Step::Continue));
    assert forall|t: int| k + 10 <= t < k + 18 implies (#[trigger] hex_value(input[t])) is Some by {
        assert(input[k + (t - k)] == command[t - k]);
        assert(command[t - k] == hex_digits(value, 8)[t - k - 10]);
    }
    lemma_parse_digit_run(m3, bus, input, k + 10, k + 18);
    assert(input.subrange(k + 10, k + 18) =~= hex_digits(value, 8)) by {
        assert forall|t: int| 0 <= t < 8 implies input.subrange(k + 10, k + 18)[t] == hex_digits(
            value,
            8,
        )[t] by {
            assert(input[k + (t + 10)] == command[t + 10]);
        }
    }
    lemma_value_of_hex_digits(m, bus, value);
    let m4 = MonitorState { command: Command::WriteWord, address, value, ..m };
    assert(step(m4, bus, '#') == write_answer(m4, bus.write32(address, value)));
    assert(parse_from(m, bus, input, k) == parse_from(m1, bus, input, k + 1));
    assert(parse_from(m2, bus, input, k + 9) == parse_from(m3, bus, input, k + 10));
    let (written, result) = bus.write32(address, value);
    match result {
        Ok(_) => {
            let m5 = MonitorState { command: Command::Idle, output: m.output + prompt(), ..m4 };
            assert(parse_from(m4, bus, input, k + 18) == parse_from(m5, written, input, k + 19));
        },
        Err(e) => {
            assert(parse_from(m4, bus, input, k + 18) == (m4, written, k + 19, Err::<
                Option<u32>,
                Fault,
            >(e)));
        },
    }
}

/// The boot program executes the command "w<address>,#", with the address in 8 hexadecimal
/// digits, whatever its state before, by reading the word at `address` on the bus: when the read
/// succeeds, it answers with the word in 8 hexadecimal digits and the prompt; otherwise the
/// command fails with the fault of the read.
pub proof fn lemma_read_word_command<S: SpiDevice, P: PioDevice>(
    m: MonitorState,
    bus: BusState<S, P>,
    input: Seq<char>,
    k: int,
    address: u32,
)
    requires
        0 <= k,
        k + 11 == input.len(),
        input.subrange(k, input.len() as int) == seq!['w'] + hex_digits(address, 8) + seq![
            ',',
            '#',
        ],
    ensures
        parse_from(m, bus, input, k) == match bus.read32(address) {
            (read, Ok(v)) => (
                MonitorState {
                    command: Command::Idle,
                    address,
                    value: 0,
                    output: m.output + hex_answer(v, 8),
                },
                read,
                input.len() as int,
                Ok::<Option<u32>, Fault>(None),
            ),
            (read, Err(e)) => (
                MonitorState { command: Command::ReadWord, address, value: 0, output: m.output },
                read,
                input.len() as int,
                Err::<Option<u32>, Fault>(e),
            ),
        },
{
    let command = seq!['w'] + hex_digits(address, 8) + seq![',', '#'];
    lemma_hex_digits(address, 8);
    assert forall|t: int| 0 <= t < 11 implies input[k + t] == #[trigger] command[t] by {
        assert(input.subrange(k, input.len() as int)[t] == input[k + t]);
    }
    assert(input[k] == command[0]);
    assert(input[k + 9] == command[9]);
    assert(input[k + 10] == command[10]);
    let m1 = MonitorState { command: Command::ReadWord, value: 0, ..m };
    assert(step(m, bus, 'w') == (m1, bus, Step::Continue));
    assert forall|t: int| k + 1 <= t < k + 9 implies (#[trigger] hex_value(input[t])) is Some by {
        assert(input[k + (t - k)] == command[t - k]);
        assert(command[t - k] == hex_digits(address, 8)[t - k - 1]);
    }
    lemma_parse_digit_run(m1, bus, input, k + 1, k + 9);
    assert(input.subrange(k + 1, k + 9) =~= hex_digits(address, 8)) by {
        assert forall|t: int| 0 <= t < 8 implies input.subrange(k + 1, k + 9)[t] == hex_digits(
            address,
            8,
        )[t] by {
            assert(input[k + (t + 1)] == command[t + 1]);
        }
    }
    lemma_value_of_hex_digits(m, bus, address);
    let m2 = MonitorState { command: Command::ReadWord, value: address, ..m };
    let m3 = MonitorState { command: Command::ReadWord, address, value: 0, ..m };
    assert(step(m2, bus, ',') == (m3, bus, Step::Continue));
    assert(step(m3, bus, '#') == read_answer(m3, bus.read32(address), 8));
    assert(parse_from(m, bus, input, k) == parse_from(m1, bus, input, k + 1));
    assert(parse_from(m2, bus, input, k + 9) == parse_from(m3, bus, input, k + 10));
    let (read, result) = bus.read32(address);
    match result {
        Ok(v) => {
            let m5 = MonitorState {
                command: Command::Idle,
                output: m.output + hex_answer(v, 8),
                ..m3
            };
            assert(parse_from(m3, bus, input, k + 10) == parse_from(m5, read, input, k + 11));
        },
        Err(e) => {
            assert(parse_from(m3, bus, input, k + 10) == (m3, read, k + 11, Err::<
                Option<u32>,
                Fault,
            >(e)));
        },
    }
}

/// Appends `c` to `s` with `String::push`, which std documents as appending the character to the
/// end of the string; the contract, which is not proved, says that the characters of `s` become
/// those it had followed by `c`.
#[verifier::external_body]
pub(crate) fn push_char(s: &mut String, c: char)
    ensures
        final(s)@ == old(s)@.push(c),
{
    s.push(c);
}

/// A SAM3X Boot Program emulator. See section 20, p318 of the Atmel SAM3X Datasheet.
pub struct BootMonitor {
    pub command: Command,
    pub address: u32,
    pub value: u32,
    /// The characters received but not processed yet.
    pub input: Vec<char>,
    pub output: String,
}

impl BootMonitor {
    pub open spec fn state(self) -> MonitorState {
        MonitorState {
            command: self.command,
            address: self.address,
            value: self.value,
            output: self.output@,
        }
    }

    pub fn new() -> (r: Self)
        ensures
            r.command == Command::Idle,
            r.address == 0,
            r.value == 0,
            r.input@ == Seq::<char>::empty(),
            r.output@ == Seq::<char>::empty(),
    {
        Self {
            command: Command::Idle,
            address: 0,
            value: 0,
            input: Vec::new(),
            output: String::new(),
        }
    }

    /// Appends the hexadecimal answer to a read command.
    fn write_hex(&mut self, value: u32, digits: u32)
        requires
            digits <= 8,
        ensures
            final(self).output@ == old(self).output@ + hex_answer(value, digits as nat),
            final(self).command == old(self).command,
            final(self).address == old(self).address,
            final(self).value == old(self).value,
            final(self).input == old(self).input,
    {
        push_char(&mut self.output, '0');
        push_char(&mut self.output, 'x');
        push_hex_digits(&mut self.output, value, digits);
        push_char(&mut self.output, '\n');
        push_char(&mut self.output, '>');
        assert(self.output@ =~= old(self).output@ + hex_answer(value, digits as nat));
    }

    /// Processes the characters of `input` (after those not processed yet by the previous calls),
    /// reading and writing on `bus_matrix`. Stops after a Go command, with the address of the
    /// program to run, or when a command fails.
    pub fn parse_input<S: SpiDevice, P: PioDevice>(
        &mut self,
        input: &str,
        bus_matrix: &mut BusMatrix<S, P>,
    ) -> (r: Result<Option<u32>, Fault>)
        requires
            old(bus_matrix).inv(),
            old(self).input@.len() + input@.len() <= usize::MAX,
        ensures
            final(bus_matrix).inv(),
            ({
                let all = old(self).input@ + input@;
                let (m, bus, count, result) = parse_from(old(self).state(), old(bus_matrix)@, all, 0);
                &&& final(self).state() == m
                &&& final(bus_matrix)@ == bus
                &&& final(self).input@ == all.subrange(count, all.len() as int)
                &&& r == result
            }),
    {
        let n = input.unicode_len();
        let mut k: usize = 0;
        while k < n
            invariant
                n == input@.len(),
                k <= n,
                self.input@ == old(self).input@ + input@.subrange(0, k as int),
                self.command == old(self).command,
                self.address == old(self).address,
                self.value == old(self).value,
                self.output == old(self).output,
                old(self).input@.len() + input@.len() <= usize::MAX,
            decreases n - k,
        {
            self.input.push(input.get_char(k));
            k = k + 1;
        }
        let ghost all = self.input@;
        assert(all =~= old(self).input@ + input@);
        let ghost target = parse_from(old(self).state(), old(bus_matrix)@, all, 0);
        let count = self.input.len();
        let mut i: usize = 0;
        let mut result: Result<Option<u32>, Fault> = Ok(None);
        while i < count
            invariant_except_break
                bus_matrix.inv(),
                self.input@ == all,
                count == all.len(),
                i <= count,
                parse_from(self.state(), bus_matrix@, all, i as int) == target,
                result == Ok::<Option<u32>, Fault>(None),
            ensures
                bus_matrix.inv(),
                self.input@ == all,
                i <= count,
                target == (self.state(), bus_matrix@, i as int, result),
            decreases count - i,
        {
            let c = self.input[i];
            i = i + 1;
            let step = self.step(c, bus_matrix);
            match step {
                Step::Continue => {},
                Step::Go(address) => {
                    result = Ok(Some(address));
                    break;
                },
                Step::Failed(e) => {
                    result = Err(e);
                    break;
                },
            }
        }
        let mut remaining: Vec<char> = Vec::new();
        let mut j: usize = i;
        while j < count
            invariant
                self.input@ == all,
                count == all.len(),
                i <= j <= count,
                remaining@ == all.subrange(i as int, j as int),
            decreases count - j,
        {
            remaining.push(self.input[j]);
            j = j + 1;
        }
        self.input = remaining;
        result
    }

    /// Processes the character `c`.
    fn step<S: SpiDevice, P: PioDevice>(&mut self, c: char, bus_matrix: &mut BusMatrix<S, P>) -> (r:
        Step)
        requires
            old(bus_matrix).inv(),
        ensures
            final(bus_matrix).inv(),
            (final(self).state(), final(bus_matrix)@, r) == step(old(self).state(), old(bus_matrix)@, c),
            final(self).input == old(self).input,
    {
        if c == 'V' {
            self.command = Command::GetVersion;
        } else if c == 'o' {
            self.command = Command::ReadByte;
            self.value = 0;
        } else if c == 'O' {
            self.command = Command::WriteByte;
            self.value = 0;
        } else if c == 'h' {
            self.command = Command::ReadHalfWord;
            self.value = 0;
        } else if c == 'H' {
            self.command = Command::WriteHalfWord;
            self.value = 0;
        } else if c == 'w' {
            self.command = Command::ReadWord;
            self.value = 0;
        } else if c == 'W' {
            self.command = Command::WriteWord;
            self.value = 0;
        } else if c == 'G' {
            self.command = Command::Go;
            self.value = 0;
        } else if '0' <= c && c <= '9' {
            self.value = self.value.wrapping_shl(4) | (c as u32 - '0' as u32);
        } else if 'A' <= c && c <= 'F' {
            self.value = self.value.wrapping_shl(4) | (c as u32 - 'A' as u32 + 10);
        } else if 'a' <= c && c <= 'f' {
            self.value = self.value.wrapping_shl(4) | (c as u32 - 'a' as u32 + 10);
        } else if c == ',' {
            self.address = self.value;
            self.value = 0;
        } else if c == '#' {
            return self.execute(bus_matrix);
        } else if c == '\n' || c == '\r' {
        } else {
            self.command = Command::Idle;
        }
        Step::Continue
    }

    /// Executes the current command.
    fn execute<S: SpiDevice, P: PioDevice>(&mut self, bus_matrix: &mut BusMatrix<S, P>) -> (r: Step)
        requires
            old(bus_matrix).inv(),
        ensures
            final(bus_matrix).inv(),
            (final(self).state(), final(bus_matrix)@, r) == execute(old(self).state(), old(bus_matrix)@),
            final(self).input == old(self).input,
    {
        match self.command {
            Command::GetVersion => {
                self.output.append("v1.1 Dec 15 2010 19:25:04\n>");
            },
            Command::ReadByte => {
                match bus_matrix.get8(self.address) {
                    Ok(byte) => self.write_hex(byte, 2),
                    Err(e) => return Step::Failed(e),
                }
            },
            Command::WriteByte => {
                match bus_matrix.set8(self.address, self.value as u8) {
                    Ok(_) => self.write_prompt(),
                    Err(e) => return Step::Failed(e),
                }
            },
            Command::ReadHalfWord => {
                match bus_matrix.get16(self.address) {
                    Ok(half_word) => self.write_hex(half_word, 4),
                    Err(e) => return Step::Failed(e),
                }
            },
            Command::WriteHalfWord => {
                match bus_matrix.set16(self.address, self.value as u16) {
                    Ok(_) => self.write_prompt(),
                    Err(e) => return Step::Failed(e),
                }
            },
            Command::ReadWord => {
                match bus_matrix.get32(self.address) {
                    Ok(word) => self.write_hex(word, 8),
                    Err(e) => return Step::Failed(e),
                }
            },
            Command::WriteWord => {
                match bus_matrix.set32(self.address, self.value) {
                    Ok(_) => self.write_prompt(),
                    Err(e) => return Step::Failed(e),
                }
            },
            Command::Go => {
                return Step::Go(self.value);
            },
            Command::Idle => {
                self.write_prompt();
                return Step::Continue;
            },
        }
        self.command = Command::Idle;
        Step::Continue
    }

    /// Appends the prompt to the output.
    pub fn write_prompt(&mut self)
        ensures
            final(self).output@ == old(self).output@ + prompt(),
            final(self).command == old(self).command,
            final(self).address == old(self).address,
            final(self).value == old(self).value,
            final(self).input == old(self).input,
    {
        push_char(&mut self.output, '\n');
        push_char(&mut self.output, '>');
        assert(self.output@ =~= old(self).output@ + prompt());
    }

    /// Returns the output written since the last call, and clears it.
    pub fn get_output(&mut self) -> (r: String)
        ensures
            r@ == old(self).output@,
            final(self).output@ == Seq::<char>::empty(),
            final(self).command == old(self).command,
            final(self).address == old(self).address,
            final(self).value == old(self).value,
            final(self).input == old(self).input,
    {
        let mut result = String::new();
        std::mem::swap(&mut self.output, &mut result);
        result
    }
}

/// Appends the `n` lowest hexadecimal digits of `value` to `output`.
pub(crate) fn push_hex_digits(output: &mut String, value: u32, n: u32)
    ensures
        final(output)@ == old(output)@ + hex_digits(value, n as nat),
    decreases n,
{
    if n > 0 {
        push_hex_digits(output, value / 16, n - 1);
        push_char(output, hex_digit(value % 16));
    } else {
        assert(old(output)@ + hex_digits(value, 0) =~= old(output)@);
    }
}

/// Computes `hex_char(d)`.
pub(crate) fn hex_digit(d: u32) -> (r: char)
    requires
        d < 16,
    ensures
        r == hex_char(d),
{
    match d {
        0 => '0',
        1 => '1',
        2 => '2',
        3 => '3',
        4 => '4',
        5 => '5',
        6 => '6',
        7 => '7',
        8 => '8',
        9 => '9',
        10 => 'A',
        11 => 'B',
        12 => 'C',
        13 => 'D',
        14 => 'E',
        _ => 'F',
    }
}

} // verus!
