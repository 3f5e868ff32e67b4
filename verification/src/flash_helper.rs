use vstd::prelude::*;
use crate::boot::{hex_char, hex_digit, hex_digits, hex_value, push_char, push_hex_digits};
use crate::boot_helper::{device_failure, run_outcome, BootHelper};
use crate::chip::{ChipState, MicroController};
use crate::pio::PioDevice;
use crate::spi::SpiDevice;
use crate::text::{
    chars_of, find_piece_end, is_white_space_char, lemma_piece_end, piece_end, push_str,
    string_of, trim, trim_bounds, trim_end, trimmed_equals,
};

verus! {

pub const FLASH_BEGIN: u32 = 0x80000;

pub const FLASH_END: u32 = 0x100000;

pub const FLASH_PAGE_BYTES: u32 = 256;

pub const FLASH_PAGE_WORDS: u32 = 64;

pub const FLASH_PAGES_PER_CONTROLLER: u32 = 1024;

/// Whether all the characters of `s` are hexadecimal digits.
pub open spec fn all_hex(s: Seq<char>) -> bool {
    forall|i: int| 0 <= i < s.len() ==> (#[trigger] hex_value(s[i])) is Some
}

/// The value of the hexadecimal digits `s`.
pub open spec fn digits_value(s: Seq<char>) -> int
    decreases s.len(),
{
    if s.len() == 0 {
        0
    } else {
        digits_value(s.drop_last()) * 16 + hex_value(s.last())->Some_0
    }
}

/// The number written in hexadecimal in `s`, after an optional '+' sign, if it fits in 32 bits
/// (as `u32::from_str_radix(s, 16)`).
pub open spec fn hex_number(s: Seq<char>) -> Option<u32> {
    let digits = if s.len() > 0 && s[0] == '+' {
        s.drop_first()
    } else {
        s
    };
    if digits.len() > 0 && all_hex(digits) && digits_value(digits) <= u32::MAX {
        Some(digits_value(digits) as u32)
    } else {
        None
    }
}

/// The index of the first `c` in `s` (the length of `s` if there is none).
pub open spec fn first_index_of(s: Seq<char>, c: char) -> int
    decreases s.len(),
{
    if s.len() == 0 {
        0
    } else if s[0] == c {
        0
    } else {
        1 + first_index_of(s.drop_first(), c)
    }
}

/// The address and the value of a word write command ("W<address>,<value>#") in the flash
/// memory, if `line` is one.
pub open spec fn flash_word_write(line: Seq<char>) -> Option<(u32, u32)> {
    if line.len() == 0 || line[0] != 'W' || line.last() != '#' {
        None
    } else {
        let comma = first_index_of(line, ',');
        if comma >= line.len() {
            None
        } else {
            match (
                hex_number(line.subrange(1, comma)),
                hex_number(line.subrange(comma + 1, line.len() - 1)),
            ) {
                (Some(address), Some(value)) => {
                    if FLASH_BEGIN <= address < FLASH_END {
                        Some((address, value))
                    } else {
                        None
                    }
                },
                _ => None,
            }
        }
    }
}

/// The decimal digits of `v`.
pub open spec fn decimal_digits(v: u32) -> Seq<char>
    decreases v,
{
    if v < 10 {
        seq![hex_char(v)]
    } else {
        decimal_digits(v / 10).push(hex_char(v % 10))
    }
}

/// The command which reads the word at `address`.
pub open spec fn read_word_command(address: u32) -> Seq<char> {
    seq!['w'] + hex_digits(address, 8) + seq![',', '#']
}

/// The command which writes `value` at `address`.
pub open spec fn write_word_command(address: u32, value: u32) -> Seq<char> {
    seq!['W'] + hex_digits(address, 8) + seq![','] + hex_digits(value, 8) + seq!['#']
}

/// The address of the flash page `index`.
pub open spec fn page_address(index: u32) -> u32 {
    (index * FLASH_PAGE_BYTES + FLASH_BEGIN) as u32
}

/// The command register of the flash controller of page `index`, and the "write page" command
/// of this page.
pub open spec fn page_write_command(index: u32) -> (u32, u32) {
    if index < FLASH_PAGES_PER_CONTROLLER {
        (0x400E0A04u32, 0x5A000003u32 | (index << 8u32))
    } else {
        (0x400E0C04u32, 0x5A000003u32 | (((index - FLASH_PAGES_PER_CONTROLLER) as u32) << 8u32))
    }
}

/// The value of the hexadecimal digit `c`.
fn hex_digit_value(c: char) -> (r: Option<u32>)
    ensures
        r == hex_value(c),
{
    if '0' <= c && c <= '9' {
        Some(c as u32 - '0' as u32)
    } else if 'A' <= c && c <= 'F' {
        Some(c as u32 - 'A' as u32 + 10)
    } else if 'a' <= c && c <= 'f' {
        Some(c as u32 - 'a' as u32 + 10)
    } else {
        None
    }
}

/// The value of hexadecimal digits is at least the value of their prefixes.
proof fn lemma_digits_value_prefix(s: Seq<char>, k: int)
    requires
        0 <= k <= s.len(),
        all_hex(s),
    ensures
        digits_value(s) >= digits_value(s.take(k)),
        digits_value(s.take(k)) >= 0,
    decreases s.len(),
{
    if k < s.len() {
        assert(all_hex(s.drop_last()));
        lemma_digits_value_prefix(s.drop_last(), k);
        assert(s.drop_last().take(k) =~= s.take(k));
    } else {
        assert(s.take(k) =~= s);
        if s.len() > 0 {
            assert(all_hex(s.drop_last()));
            lemma_digits_value_prefix(s.drop_last(), 0);
        }
    }
}

/// Computes `hex_number(chars[from..to])`.
pub fn parse_hex(chars: &Vec<char>, from: usize, to: usize) -> (r: Option<u32>)
    requires
        from <= to <= chars@.len(),
    ensures
        r == hex_number(chars@.subrange(from as int, to as int)),
{
    let ghost s = chars@.subrange(from as int, to as int);
    let mut i = from;
    if i < to && chars[i] == '+' {
        i = i + 1;
    }
    let start = i;
    let ghost digits = chars@.subrange(start as int, to as int);
    assert(digits =~= (if s.len() > 0 && s[0] == '+' {
        s.drop_first()
    } else {
        s
    }));
    if i == to {
        return None;
    }
    let mut value: u64 = 0;
    while i < to
        invariant
            from <= start <= i <= to <= chars@.len(),
            digits == chars@.subrange(start as int, to as int),
            s == chars@.subrange(from as int, to as int),
            digits == (if s.len() > 0 && s[0] == '+' {
                s.drop_first()
            } else {
                s
            }),
            digits.len() > 0,
            value == digits_value(chars@.subrange(start as int, i as int)),
            value <= u32::MAX,
            all_hex(chars@.subrange(start as int, i as int)),
        decreases to - i,
    {
        let ghost prefix = chars@.subrange(start as int, i as int);
        let ghost next = chars@.subrange(start as int, i + 1);
        assert(next.drop_last() =~= prefix);
        match hex_digit_value(chars[i]) {
            None => {
                assert(!all_hex(digits)) by {
                    assert(digits[i - start] == chars@[i as int]);
                }
                return None;
            },
            Some(d) => {
                assert(d < 16);
                value = value * 16 + d as u64;
                assert(all_hex(next)) by {
                    assert forall|k: int| 0 <= k < next.len() implies (#[trigger] hex_value(next[k])) is Some by {
                        if k < prefix.len() {
                            assert(next[k] == prefix[k]);
                        }
                    }
                }
                if value > 0xFFFF_FFFF {
                    proof {
                        if all_hex(digits) {
                            lemma_digits_value_prefix(digits, i + 1 - start);
                            assert(digits.take(i + 1 - start) =~= next);
                        }
                    }
                    return None;
                }
            },
        }
        i = i + 1;
    }
    assert(chars@.subrange(start as int, i as int) =~= digits);
    Some(value as u32)
}

/// Computes `first_index_of(chars[from..], c)`.
fn find_char(chars: &Vec<char>, from: usize, c: char) -> (r: usize)
    requires
        from <= chars@.len(),
    ensures
        from <= r <= chars@.len(),
        r - from == first_index_of(chars@.subrange(from as int, chars@.len() as int), c),
        r < chars@.len() ==> chars@[r as int] == c,
{
    let mut i = from;
    while i < chars.len() && chars[i] != c
        invariant
            from <= i <= chars@.len(),
            first_index_of(chars@.subrange(from as int, chars@.len() as int), c) == (i - from)
                + first_index_of(chars@.subrange(i as int, chars@.len() as int), c),
        decreases chars@.len() - i,
    {
        assert(chars@.subrange(i as int, chars@.len() as int).drop_first() =~= chars@.subrange(
            i + 1,
            chars@.len() as int,
        ));
        i = i + 1;
    }
    i
}

/// Appends the decimal digits of `v` to `output`.
fn push_decimal(output: &mut String, v: u32)
    ensures
        final(output)@ == old(output)@ + decimal_digits(v),
    decreases v,
{
    if v >= 10 {
        push_decimal(output, v / 10);
    }
    push_char(output, hex_digit(v % 10));
    proof {
        if v >= 10 {
            assert(final(output)@ =~= old(output)@ + decimal_digits(v));
        } else {
            assert(final(output)@ =~= old(output)@ + decimal_digits(v));
        }
    }
}

/// The command which reads the word at `address`.
fn read_word_command_of(address: u32) -> (r: String)
    ensures
        r@ == read_word_command(address),
{
    let mut command = String::new();
    push_char(&mut command, 'w');
    push_hex_digits(&mut command, address, 8);
    push_char(&mut command, ',');
    push_char(&mut command, '#');
    assert(command@ =~= read_word_command(address));
    command
}

/// The command which writes `value` at `address`.
fn write_word_command_of(address: u32, value: u32) -> (r: String)
    ensures
        r@ == write_word_command(address, value),
{
    let mut command = String::new();
    push_char(&mut command, 'W');
    push_hex_digits(&mut command, address, 8);
    push_char(&mut command, ',');
    push_hex_digits(&mut command, value, 8);
    push_char(&mut command, '#');
    assert(command@ =~= write_word_command(address, value));
    command
}

/// The outcome of sending `command` to the boot program of a micro-controller in the state `s`
/// (see `run_outcome`), with the answer without trailing white space (and an empty answer for a
/// command which does not end with '#').
pub open spec fn answer_outcome<S: SpiDevice, P: PioDevice>(
    s: ChipState<S, P>,
    max_cycles: u32,
    command: Seq<char>,
) -> (Option<ChipState<S, P>>, Result<Seq<char>, Seq<char>>) {
    let (s2, outcome) = run_outcome(s, max_cycles, command);
    (
        s2,
        match outcome {
            Ok(Some(text)) => Ok(trim_end(text)),
            Ok(None) => Ok(Seq::empty()),
            Err(e) => Err(e),
        },
    )
}

/// Whether the micro-controller `serial_port`, which was in the state `before`, and the result
/// `r` are the `expected` outcome (the state is unknown after a failure of the emulation).
pub open spec fn follows_outcome<S: SpiDevice, P: PioDevice, T, U>(
    serial_port: MicroController<S, P>,
    r: Result<T, String>,
    expected: (Option<ChipState<S, P>>, Result<U, Seq<char>>),
) -> bool {
    &&& expected.0 is Some ==> serial_port.state() == expected.0->Some_0
    &&& expected.1 is Ok ==> expected.0 is Some && r is Ok
    &&& expected.1 is Err ==> r is Err && r->Err_0@ == expected.1->Err_0
}

/// Sends `command` to the boot program of `serial_port`, and returns its answer without
/// trailing white space (an empty answer for a command which does not end with '#').
fn run<S: SpiDevice, P: PioDevice>(serial_port: &mut MicroController<S, P>, command: &str) -> (r:
    Result<String, String>)
    requires
        old(serial_port).inv(),
        old(serial_port).on,
    ensures
        final(serial_port).inv(),
        final(serial_port).on,
        final(serial_port).max_boot_program_go_cycles == old(serial_port).max_boot_program_go_cycles,
        ({
            let expected = answer_outcome(
                old(serial_port).state(),
                old(serial_port).max_boot_program_go_cycles,
                command@,
            );
            &&& follows_outcome(*final(serial_port), r, expected)
            &&& expected.1 is Ok ==> r->Ok_0@ == expected.1->Ok_0
        }),
{
    match crate::boot_helper::run(serial_port, command) {
        Ok(Some(result)) => {
            let chars = chars_of(result.as_str());
            let mut end = chars.len();
            assert(chars@.subrange(0, end as int) =~= chars@);
            while end > 0 && is_white_space_char(chars[end - 1])
                invariant
                    end <= chars@.len(),
                    trim_end(chars@) == trim_end(chars@.subrange(0, end as int)),
                decreases end,
            {
                assert(chars@.subrange(0, end as int).drop_last() =~= chars@.subrange(
                    0,
                    end - 1,
                ));
                end = end - 1;
            }
            Ok(string_of(&chars, 0, end))
        },
        Ok(None) => Ok(String::new()),
        Err(error) => Err(error),
    }
}

/// The answer of a flash controller status register when the controller is ready.
pub open spec fn ready_answer() -> Seq<char> {
    "0x00000001"@
}

/// The outcome of waiting until the flash controller status `register` is ready, after
/// `attempts` attempts (giving up after `u32::MAX` attempts).
#[verifier::opaque]
pub open spec fn wait_outcome<S: SpiDevice, P: PioDevice>(
    s: ChipState<S, P>,
    max_cycles: u32,
    register: u32,
    attempts: u32,
) -> (Option<ChipState<S, P>>, Result<(), Seq<char>>)
    decreases u32::MAX - attempts,
{
    match answer_outcome(s, max_cycles, read_word_command(register)) {
        (s2, Err(e)) => (s2, Err(e)),
        (Some(s2), Ok(answer)) => {
            if answer == ready_answer() {
                (Some(s2), Ok(()))
            } else if attempts == u32::MAX {
                (Some(s2), Err("ERROR: device not ready.\n"@))
            } else {
                wait_outcome(s2, max_cycles, register, (attempts + 1) as u32)
            }
        },
        (None, Ok(_)) => (None, Ok(())),
    }
}

/// Waits until the flash controller status `register` is ready (gives up after `u32::MAX`
/// attempts).
fn wait_ready<S: SpiDevice, P: PioDevice>(serial_port: &mut MicroController<S, P>, register: u32) -> (r:
    Result<(), String>)
    requires
        old(serial_port).inv(),
        old(serial_port).on,
    ensures
        final(serial_port).inv(),
        final(serial_port).on,
        final(serial_port).max_boot_program_go_cycles == old(serial_port).max_boot_program_go_cycles,
        follows_outcome(
            *final(serial_port),
            r,
            wait_outcome(
                old(serial_port).state(),
                old(serial_port).max_boot_program_go_cycles,
                register,
                0,
            ),
        ),
{
    let command = read_word_command_of(register);
    let ready = String::from_str("0x00000001");
    let ghost max_cycles = serial_port.max_boot_program_go_cycles;
    let ghost expected = wait_outcome(serial_port.state(), max_cycles, register, 0);
    let mut attempts: u32 = 0;
    loop
        invariant
            serial_port.inv(),
            serial_port.on,
            serial_port.max_boot_program_go_cycles == max_cycles,
            max_cycles == old(serial_port).max_boot_program_go_cycles,
            command@ == read_word_command(register),
            ready@ == ready_answer(),
            expected == wait_outcome(old(serial_port).state(), max_cycles, register, 0),
            expected == wait_outcome(serial_port.state(), max_cycles, register, attempts),
        decreases u32::MAX - attempts,
    {
        proof {
            reveal(wait_outcome);
        }
        let answer = run(serial_port, command.as_str())?;
        if answer == ready {
            return Ok(());
        }
        if attempts == u32::MAX {
            return Err(String::from_str("ERROR: device not ready.\n"));
        }
        attempts = attempts + 1;
    }
}

/// `s` without its leading "0x" prefixes (as `str::trim_start_matches("0x")`).
pub open spec fn without_hex_prefix(s: Seq<char>) -> Seq<char>
    decreases s.len(),
{
    if s.len() >= 2 && s[0] == '0' && s[1] == 'x' {
        without_hex_prefix(s.subrange(2, s.len() as int))
    } else {
        s
    }
}

/// The value of an answer of the boot program to a read command ("0x" and hexadecimal digits).
pub open spec fn answer_value(answer: Seq<char>) -> Option<u32> {
    hex_number(without_hex_prefix(answer))
}

/// Computes `answer_value(answer)`.
fn parse_answer(answer: &String) -> (r: Option<u32>)
    ensures
        r == answer_value(answer@),
{
    let chars = chars_of(answer.as_str());
    let mut start: usize = 0;
    assert(chars@.subrange(0, chars@.len() as int) =~= chars@);
    while chars.len() - start > 1 && chars[start] == '0' && chars[start + 1] == 'x'
        invariant
            start <= chars@.len(),
            without_hex_prefix(chars@) == without_hex_prefix(
                chars@.subrange(start as int, chars@.len() as int),
            ),
        decreases chars@.len() - start,
    {
        assert(chars@.subrange(start as int, chars@.len() as int).subrange(
            2,
            chars@.len() - start,
        ) =~= chars@.subrange(start + 2, chars@.len() as int));
        start = start + 2;
    }
    parse_hex(&chars, start, chars.len())
}

/// The message written when the page `index` is read.
pub open spec fn reading_message(index: u32) -> Seq<char> {
    "Reading page "@ + decimal_digits(index) + "..."@
}

/// The message written when the page `index` is written.
pub open spec fn writing_message(index: u32) -> Seq<char> {
    "Writing page "@ + decimal_digits(index) + "..."@
}

/// The error reported when a word cannot be written in the flash memory.
pub open spec fn invalid_address(address: u32) -> Seq<char> {
    "ERROR: invalid address "@ + decimal_digits(address) + seq!['\n']
}

/// The error reported when an answer of the boot program is not a number.
pub open spec fn invalid_answer() -> Seq<char> {
    "ERROR: invalid answer from device.\n"@
}

/// The outcome of reading the words `i..64` of the flash page at `address`, after reading the
/// words `values`: the new state of the micro-controller, and the words of the page.
#[verifier::opaque]
pub open spec fn read_page_outcome<S: SpiDevice, P: PioDevice>(
    s: ChipState<S, P>,
    max_cycles: u32,
    address: u32,
    i: u32,
    values: Seq<u32>,
) -> (Option<ChipState<S, P>>, Result<Seq<u32>, Seq<char>>)
    decreases FLASH_PAGE_WORDS - i,
{
    if i >= FLASH_PAGE_WORDS {
        (Some(s), Ok(values))
    } else {
        match answer_outcome(s, max_cycles, read_word_command((address + 4 * i) as u32)) {
            (s2, Err(e)) => (s2, Err(e)),
            (Some(s2), Ok(answer)) => match answer_value(answer) {
                Some(value) => read_page_outcome(
                    s2,
                    max_cycles,
                    address,
                    (i + 1) as u32,
                    values.push(value),
                ),
                None => (Some(s2), Err(invalid_answer())),
            },
            (None, Ok(_)) => (None, Ok(values)),
        }
    }
}

/// The error reported when a word of the flash memory does not have the written value.
pub open spec fn write_failed(address: u32) -> Seq<char> {
    "ERROR: page write failed at address "@ + hex_digits(address, 8) + seq!['\n']
}

/// The outcome of writing the words `i..64` of `page` in the latch buffer of the flash
/// controller, then of the rest of the writing of the page (see `command_phase`).
#[verifier::opaque]
pub open spec fn write_phase<S: SpiDevice, P: PioDevice>(
    s: ChipState<S, P>,
    max_cycles: u32,
    page: Page,
    i: u32,
) -> (Option<ChipState<S, P>>, Result<(), Seq<char>>)
    decreases FLASH_PAGE_WORDS - i,
{
    if i >= FLASH_PAGE_WORDS {
        command_phase(s, max_cycles, page)
    } else {
        let address = (page.address + 4 * i) as u32;
        match answer_outcome(s, max_cycles, write_word_command(address, page.values@[i as int])) {
            (s2, Err(e)) => (s2, Err(e)),
            (Some(s2), Ok(_)) => write_phase(s2, max_cycles, page, (i + 1) as u32),
            (None, Ok(_)) => (None, Ok(())),
        }
    }
}

/// The outcome of sending the "erase and write page" command of `page` to its flash
/// controller, of waiting for the end of the command, then of checking the written words (see
/// `check_phase`).
#[verifier::opaque]
pub open spec fn command_phase<S: SpiDevice, P: PioDevice>(
    s: ChipState<S, P>,
    max_cycles: u32,
    page: Page,
) -> (Option<ChipState<S, P>>, Result<(), Seq<char>>) {
    let (register, command) = page_write_command(page.index);
    match answer_outcome(s, max_cycles, write_word_command(register, command)) {
        (s2, Err(e)) => (s2, Err(e)),
        (Some(s2), Ok(_)) => match wait_outcome(s2, max_cycles, (register + 4) as u32, 0) {
            (s3, Err(e)) => (s3, Err(e)),
            (Some(s3), Ok(_)) => check_phase(s3, max_cycles, page, 0),
            (None, Ok(_)) => (None, Ok(())),
        },
        (None, Ok(_)) => (None, Ok(())),
    }
}

/// The outcome of checking that the words `i..64` of the flash memory have the values of `page`.
#[verifier::opaque]
pub open spec fn check_phase<S: SpiDevice, P: PioDevice>(
    s: ChipState<S, P>,
    max_cycles: u32,
    page: Page,
    i: u32,
) -> (Option<ChipState<S, P>>, Result<(), Seq<char>>)
    decreases FLASH_PAGE_WORDS - i,
{
    if i >= FLASH_PAGE_WORDS {
        (Some(s), Ok(()))
    } else {
        let address = (page.address + 4 * i) as u32;
        match answer_outcome(s, max_cycles, read_word_command(address)) {
            (s2, Err(e)) => (s2, Err(e)),
            (Some(s2), Ok(answer)) => match answer_value(answer) {
                Some(actual) => if actual != page.values@[i as int] {
                    (Some(s2), Err(write_failed(address)))
                } else {
                    check_phase(s2, max_cycles, page, (i + 1) as u32)
                },
                None => (Some(s2), Err(invalid_answer())),
            },
            (None, Ok(_)) => (None, Ok(())),
        }
    }
}

/// The outcome of writing `page` in the flash memory, if it changed.
pub open spec fn flash_page_outcome<S: SpiDevice, P: PioDevice>(
    s: ChipState<S, P>,
    max_cycles: u32,
    page: Page,
) -> (Option<ChipState<S, P>>, Result<(), Seq<char>>) {
    if !page.dirty {
        (Some(s), Ok(()))
    } else {
        write_phase(s, max_cycles, page, 0)
    }
}

/// The output of writing `page`, with the outcome `r`.
pub open spec fn flash_page_output(page: Page, r: Result<(), Seq<char>>) -> Seq<char> {
    if !page.dirty {
        Seq::empty()
    } else {
        writing_message(page.index) + if r is Ok {
            " Done.\n"@
        } else {
            Seq::empty()
        }
    }
}

/// A page of the flash memory, with its content.
pub struct Page {
    pub index: u32,
    pub address: u32,
    pub values: [u32; 64],
    pub dirty: bool,
}

impl Page {
    /// This page with the word `index` set to `value` (and marked as changed if `value` is
    /// new).
    pub open spec fn with_word(self, index: u32, value: u32) -> Self {
        Page {
            values: vstd::array::spec_array_update(self.values, index as int, value),
            dirty: self.dirty || self.values@[index as int] != value,
            ..self
        }
    }

    /// The unchanged page `index` with the words `values`.
    pub open spec fn read(index: u32, values: Seq<u32>) -> Self {
        choose|p: Page|
            p.index == index && p.address == page_address(index) && p.values@ == values && !p.dirty
    }

    /// A page read from the flash memory is the page of its words.
    proof fn lemma_read(self)
        requires
            !self.dirty,
            self.address == page_address(self.index),
        ensures
            Self::read(self.index, self.values@) == self,
    {
        let p = Self::read(self.index, self.values@);
        assert(p.values =~= self.values);
    }

    /// The page is in the flash memory.
    pub open spec fn wf(self) -> bool {
        self.index < 2 * FLASH_PAGES_PER_CONTROLLER && self.address == page_address(self.index)
    }

    /// Reads the page `index` from the flash memory.
    fn new<S: SpiDevice, P: PioDevice>(
        index: u32,
        serial_port: &mut MicroController<S, P>,
        output: &mut String,
    ) -> (r: Result<Self, String>)
        requires
            index < 2 * FLASH_PAGES_PER_CONTROLLER,
            old(serial_port).inv(),
            old(serial_port).on,
        ensures
            final(serial_port).inv(),
            final(serial_port).on,
            final(serial_port).max_boot_program_go_cycles
                == old(serial_port).max_boot_program_go_cycles,
            ({
                let expected = read_page_outcome(
                    old(serial_port).state(),
                    old(serial_port).max_boot_program_go_cycles,
                    page_address(index),
                    0,
                    Seq::empty(),
                );
                &&& follows_outcome(*final(serial_port), r, expected)
                &&& expected.1 is Ok ==> r->Ok_0.values@ == expected.1->Ok_0
            }),
            r is Ok ==> r->Ok_0.index == index && r->Ok_0.wf() && !r->Ok_0.dirty,
            final(output)@ == old(output)@ + reading_message(index) + (if r is Ok {
                " Done.\n"@
            } else {
                Seq::empty()
            }),
    {
        let mut page = Self {
            index,
            address: index * FLASH_PAGE_BYTES + FLASH_BEGIN,
            values: [0u32; 64],
            dirty: false,
        };
        push_str(output, "Reading page ");
        push_decimal(output, index);
        push_str(output, "...");
        let ghost message = output@;
        let ghost max_cycles = serial_port.max_boot_program_go_cycles;
        let ghost expected = read_page_outcome(
            serial_port.state(),
            max_cycles,
            page_address(index),
            0,
            Seq::empty(),
        );
        assert(message =~= old(output)@ + reading_message(index));
        assert(page.values@.take(0) =~= Seq::<u32>::empty());
        let mut i: u32 = 0;
        while i < FLASH_PAGE_WORDS
            invariant
                i <= FLASH_PAGE_WORDS,
                serial_port.inv(),
                serial_port.on,
                serial_port.max_boot_program_go_cycles == max_cycles,
                max_cycles == old(serial_port).max_boot_program_go_cycles,
                page.index == index,
                page.wf(),
                !page.dirty,
                output@ == message,
                message == old(output)@ + reading_message(index),
                expected == read_page_outcome(
                    old(serial_port).state(),
                    max_cycles,
                    page_address(index),
                    0,
                    Seq::empty(),
                ),
                expected == read_page_outcome(
                    serial_port.state(),
                    max_cycles,
                    page.address,
                    i,
                    page.values@.take(i as int),
                ),
            decreases FLASH_PAGE_WORDS - i,
        {
            proof {
                reveal(read_page_outcome);
            }
            let address = page.address + 4 * i;
            let command = read_word_command_of(address);
            let answer = run(serial_port, command.as_str())?;
            match parse_answer(&answer) {
                Some(value) => {
                    let ghost before = page.values@;
                    page.values[i as usize] = value;
                    assert(page.values@.take(i + 1) =~= before.take(i as int).push(value));
                },
                None => {
                    return Err(String::from_str("ERROR: invalid answer from device.\n"));
                },
            }
            i = i + 1;
        }
        proof {
            reveal(read_page_outcome);
            assert(page.values@.take(64) =~= page.values@);
        }
        push_str(output, " Done.\n");
        Ok(page)
    }

    /// Sets the word `index` of the page to `value`.
    fn set(&mut self, index: u32, value: u32)
        requires
            index < FLASH_PAGE_WORDS,
        ensures
            final(self).index == old(self).index,
            final(self).address == old(self).address,
            final(self).values@ == old(self).values@.update(index as int, value),
            final(self).dirty == (old(self).dirty || old(self).values@[index as int] != value),
            *final(self) == old(self).with_word(index, value),
    {
        if value != self.values[index as usize] {
            self.values[index as usize] = value;
            self.dirty = true;
        } else {
            assert(self.values@ =~= old(self).values@.update(index as int, value));
        }
        assert(self.values =~= vstd::array::spec_array_update(old(self).values, index as int, value));
    }

    /// Writes the page in the flash memory if it changed, and checks the result.
    #[verifier::spinoff_prover]
    #[verifier::rlimit(100)]
    fn flash<S: SpiDevice, P: PioDevice>(
        &self,
        serial_port: &mut MicroController<S, P>,
        output: &mut String,
    ) -> (r: Result<(), String>)
        requires
            self.wf(),
            old(serial_port).inv(),
            old(serial_port).on,
        ensures
            final(serial_port).inv(),
            final(serial_port).on,
            final(serial_port).max_boot_program_go_cycles
                == old(serial_port).max_boot_program_go_cycles,
            ({
                let expected = flash_page_outcome(
                    old(serial_port).state(),
                    old(serial_port).max_boot_program_go_cycles,
                    *self,
                );
                &&& follows_outcome(*final(serial_port), r, expected)
                &&& final(output)@ == old(output)@ + flash_page_output(*self, expected.1)
            }),
    {
        if !self.dirty {
            assert(old(output)@ + flash_page_output(*self, Ok(())) =~= old(output)@);
            return Ok(());
        }
        push_str(output, "Writing page ");
        push_decimal(output, self.index);
        push_str(output, "...");
        let ghost message = output@;
        let ghost max_cycles = serial_port.max_boot_program_go_cycles;
        let ghost expected = flash_page_outcome(serial_port.state(), max_cycles, *self);
        assert(message =~= old(output)@ + writing_message(self.index));
        let mut i: u32 = 0;
        while i < FLASH_PAGE_WORDS
            invariant
                i <= FLASH_PAGE_WORDS,
                self.wf(),
                self.dirty,
                serial_port.inv(),
                serial_port.on,
                serial_port.max_boot_program_go_cycles == max_cycles,
                max_cycles == old(serial_port).max_boot_program_go_cycles,
                output@ == message,
                message == old(output)@ + writing_message(self.index),
                expected == flash_page_outcome(old(serial_port).state(), max_cycles, *self),
                expected == write_phase(serial_port.state(), max_cycles, *self, i),
            decreases FLASH_PAGE_WORDS - i,
        {
            proof {
                reveal(write_phase);
            }
            let address = self.address + 4 * i;
            let command = write_word_command_of(address, self.values[i as usize]);
            run(serial_port, command.as_str())?;
            i = i + 1;
        }
        let (register, command) = if self.index < FLASH_PAGES_PER_CONTROLLER {
            (0x400E0A04u32, 0x5A000003u32 | (self.index << 8))
        } else {
            (0x400E0C04u32, 0x5A000003u32 | ((self.index - FLASH_PAGES_PER_CONTROLLER) << 8))
        };
        proof {
            reveal(write_phase);
            reveal(command_phase);
            assert((register, command) == page_write_command(self.index));
        }
        let write_command = write_word_command_of(register, command);
        run(serial_port, write_command.as_str())?;
        wait_ready(serial_port, register + 4)?;
        let mut i: u32 = 0;
        while i < FLASH_PAGE_WORDS
            invariant
                i <= FLASH_PAGE_WORDS,
                self.wf(),
                self.dirty,
                serial_port.inv(),
                serial_port.on,
                serial_port.max_boot_program_go_cycles == max_cycles,
                max_cycles == old(serial_port).max_boot_program_go_cycles,
                output@ == message,
                message == old(output)@ + writing_message(self.index),
                expected == flash_page_outcome(old(serial_port).state(), max_cycles, *self),
                expected == check_phase(serial_port.state(), max_cycles, *self, i),
            decreases FLASH_PAGE_WORDS - i,
        {
            proof {
                reveal(check_phase);
            }
            let address = self.address + 4 * i;
            let command = read_word_command_of(address);
            let answer = run(serial_port, command.as_str())?;
            match parse_answer(&answer) {
                Some(actual) => {
                    if actual != self.values[i as usize] {
                        let mut error = String::from_str("ERROR: page write failed at address ");
                        push_hex_digits(&mut error, address, 8);
                        push_char(&mut error, '\n');
                        assert(error@ =~= write_failed(address));
                        return Err(error);
                    }
                },
                None => {
                    return Err(String::from_str("ERROR: invalid answer from device.\n"));
                },
            }
            i = i + 1;
        }
        proof {
            reveal(check_phase);
        }
        push_str(output, " Done.\n");
        Ok(())
    }
}

/// The position of the page `index` in `pages` (sorted by index), or where it should be
/// inserted.
pub open spec fn page_position(pages: Seq<Page>, index: u32) -> int
    decreases pages.len(),
{
    if pages.len() == 0 || pages[0].index >= index {
        0
    } else {
        1 + page_position(pages.drop_first(), index)
    }
}

/// The outcome of recording the write of `value` at `address` in its page, which is read first
/// from the flash memory if it is not in `pages`: the new state of the micro-controller, the
/// pages, the output (with a prompt, unless the commands come from a file), and the error if
/// any.
pub open spec fn write_word_outcome<S: SpiDevice, P: PioDevice>(
    s: ChipState<S, P>,
    max_cycles: u32,
    pages: Seq<Page>,
    output: Seq<char>,
    input_from_file: bool,
    address: u32,
    value: u32,
) -> (Option<ChipState<S, P>>, Seq<Page>, Seq<char>, Result<(), Seq<char>>) {
    let index = ((address - FLASH_BEGIN) / FLASH_PAGE_BYTES as int) as u32;
    let word = ((address % FLASH_PAGE_BYTES) / 4) as u32;
    let position = page_position(pages, index);
    let prompt = if input_from_file {
        Seq::empty()
    } else {
        seq!['>']
    };
    if position < pages.len() && pages[position].index == index {
        (
            Some(s),
            pages.update(position, pages[position].with_word(word, value)),
            output + prompt,
            Ok(()),
        )
    } else {
        let (s2, r) = read_page_outcome(s, max_cycles, page_address(index), 0, Seq::empty());
        let read_output = output + reading_message(index) + if r is Ok {
            " Done.\n"@
        } else {
            Seq::empty()
        };
        match r {
            Err(e) => (s2, pages, read_output, Err(e)),
            Ok(values) => (
                s2,
                pages.insert(position, Page::read(index, values).with_word(word, value)),
                read_output + prompt,
                Ok(()),
            ),
        }
    }
}

/// The outcome of writing the pages `pages[i..]` which changed: the new state of the
/// micro-controller, the output (with a final prompt), and the error if any.
#[verifier::opaque]
pub open spec fn flash_pages_outcome<S: SpiDevice, P: PioDevice>(
    s: ChipState<S, P>,
    max_cycles: u32,
    pages: Seq<Page>,
    output: Seq<char>,
    i: int,
) -> (Option<ChipState<S, P>>, Seq<char>, Result<(), Seq<char>>)
    decreases pages.len() - i,
{
    if i < 0 || i >= pages.len() {
        (Some(s), output + seq!['>'], Ok(()))
    } else {
        let (s2, r) = flash_page_outcome(s, max_cycles, pages[i]);
        let page_output = output + flash_page_output(pages[i], r);
        match (s2, r) {
            (_, Err(e)) => (s2, page_output, Err(e)),
            (Some(s3), Ok(_)) => flash_pages_outcome(s3, max_cycles, pages, page_output, i + 1),
            (None, Ok(_)) => (None, page_output, Ok(())),
        }
    }
}

/// The command which makes the micro-controller boot from its flash memory.
pub open spec fn boot_from_flash_command() -> Seq<char> {
    "W400E0A04,5A00010B#"@
}

/// The command which resets the micro-controller.
pub open spec fn reset_command() -> Seq<char> {
    "W400E1A00,A500000D#"@
}

/// The outcome of the command `command`, for a micro-controller in the state `s`, with the
/// recorded `pages` and `output`: the new state of the micro-controller, the recorded pages and
/// output, and whether more commands can be sent, or the error. "exit#" stops, "flash#" writes
/// the pages which changed, "reset#" makes the micro-controller boot from its flash memory and
/// resets it (and stops), a word write in the flash memory is recorded in its page, and the other
/// commands are sent to the boot program (their answers are recorded, unless the commands come
/// from a file).
#[verifier::opaque]
pub open spec fn command_outcome<S: SpiDevice, P: PioDevice>(
    s: ChipState<S, P>,
    max_cycles: u32,
    pages: Seq<Page>,
    output: Seq<char>,
    input_from_file: bool,
    command: Seq<char>,
) -> (Option<ChipState<S, P>>, Seq<Page>, Seq<char>, Result<bool, Seq<char>>) {
    let line = trim(command);
    if line == "exit#"@ {
        (Some(s), pages, output, Ok(false))
    } else if line == "flash#"@ {
        match flash_pages_outcome(s, max_cycles, pages, output, 0) {
            (s2, output2, Err(e)) => (s2, pages, output2, Err(e)),
            (s2, output2, Ok(_)) => (s2, Seq::empty(), output2, Ok(true)),
        }
    } else if line == "reset#"@ {
        reset_step_outcome(s, max_cycles, pages, output)
    } else {
        line_outcome(s, max_cycles, pages, output, input_from_file, command)
    }
}

/// The outcome of the "reset#" command (see `command_outcome`).
#[verifier::opaque]
pub open spec fn reset_step_outcome<S: SpiDevice, P: PioDevice>(
    s: ChipState<S, P>,
    max_cycles: u32,
    pages: Seq<Page>,
    output: Seq<char>,
) -> (Option<ChipState<S, P>>, Seq<Page>, Seq<char>, Result<bool, Seq<char>>) {
    match answer_outcome(s, max_cycles, boot_from_flash_command()) {
        (s2, Err(e)) => (s2, pages, output, Err(e)),
        (Some(s2), Ok(_)) => match wait_outcome(s2, max_cycles, 0x400E0A08, 0) {
            (s3, Err(e)) => (s3, pages, output, Err(e)),
            (Some(s3), Ok(_)) => {
                if s3.monitor_input.len() + reset_command().len() > usize::MAX {
                    (Some(s3), pages, output, Ok(false))
                } else {
                    match s3.serial_input(reset_command(), max_cycles) {
                        Ok((s4, _)) => (Some(s4), pages, output, Ok(false)),
                        Err(_) => (None, pages, output, Err(device_failure())),
                    }
                }
            },
            (None, Ok(_)) => (None, pages, output, Ok(false)),
        },
        (None, Ok(_)) => (None, pages, output, Ok(false)),
    }
}

/// The command which makes the micro-controller boot from its flash memory writes the "set GPNVM
/// bit" command of bit 1, with the write protection key, in the command register of the first
/// flash controller; the command which resets it writes the keyed reset of the processor, of the
/// peripherals and of the external devices in the control register of the reset controller.
proof fn lemma_reset_commands()
    ensures
        boot_from_flash_command() == write_word_command(0x400E0A04, 0x5A00010B),
        reset_command() == write_word_command(0x400E1A00, 0xA500000D),
{
    reveal_strlit("W400E0A04,5A00010B#");
    reveal_strlit("W400E1A00,A500000D#");
    reveal_with_fuel(hex_digits, 9);
    assert(boot_from_flash_command() =~= write_word_command(0x400E0A04, 0x5A00010B));
    assert(reset_command() =~= write_word_command(0x400E1A00, 0xA500000D));
}

/// Sending the command which writes `value` at `address` to the boot program of a
/// micro-controller which runs it, with no input left to process, writes the word on its bus:
/// when this succeeds, the boot program answers, no input is left, the boot mode is that of the
/// bus after the write, and a reset that the write requested boots the processor in that mode.
proof fn lemma_serial_write<S: SpiDevice, P: PioDevice>(
    s: ChipState<S, P>,
    max_cycles: u32,
    address: u32,
    value: u32,
)
    requires
        s.monitor_input.len() == 0,
        !s.run_from_flash,
    ensures
        ({
            let written = s.cpu.bus.write32(address, value);
            match s.serial_input(write_word_command(address, value), max_cycles) {
                Ok((s2, answered)) => {
                    &&& answered
                    &&& written.1 is Ok
                    &&& s2.monitor_input.len() == 0
                    &&& s2.cpu.bus.flash_controller.boot_from_flash
                        == written.0.flash_controller.boot_from_flash
                    &&& written.0.reset_requested ==> s2.run_from_flash
                        == written.0.flash_controller.boot_from_flash
                },
                Err(_) => true,
            }
        }),
{
    let command = write_word_command(address, value);
    let all = s.monitor_input + command;
    crate::boot::lemma_hex_digits(address, 8);
    crate::boot::lemma_hex_digits(value, 8);
    assert(all =~= command);
    assert(all.subrange(0, all.len() as int) =~= command);
    crate::boot::lemma_write_word_command(s.monitor, s.cpu.bus, all, 0, address, value);
    let written = s.cpu.bus.write32(address, value);
    written.0.lemma_reset_keeps_boot_mode();
    reveal(ChipState::after_reset);
    assert(all.subrange(19, 19) =~= Seq::<char>::empty());
}

/// Sending the command which reads the word at `address` to the boot program of a
/// micro-controller with no input left to process never changes its boot mode, and leaves no
/// input.
proof fn lemma_serial_read<S: SpiDevice, P: PioDevice>(
    s: ChipState<S, P>,
    max_cycles: u32,
    address: u32,
)
    requires
        s.monitor_input.len() == 0,
    ensures
        match s.serial_input(read_word_command(address), max_cycles) {
            Ok((s2, _)) => {
                &&& s2.monitor_input.len() == 0
                &&& s2.cpu.bus.flash_controller.boot_from_flash
                    == s.cpu.bus.flash_controller.boot_from_flash
            },
            Err(_) => true,
        },
{
    if !s.run_from_flash {
        let command = read_word_command(address);
        let all = s.monitor_input + command;
        crate::boot::lemma_hex_digits(address, 8);
        assert(all =~= command);
        assert(all.subrange(0, all.len() as int) =~= command);
        crate::boot::lemma_read_word_command(s.monitor, s.cpu.bus, all, 0, address);
        s.cpu.bus.lemma_read_keeps_boot_mode(address);
        let read = s.cpu.bus.read32(address);
        read.0.lemma_reset_keeps_boot_mode();
        reveal(ChipState::after_reset);
        assert(all.subrange(11, 11) =~= Seq::<char>::empty());
    }
}

/// Waiting until a flash controller is ready never changes the boot mode, and leaves no input to
/// the boot program (when it had none).
proof fn lemma_wait_keeps_boot_mode<S: SpiDevice, P: PioDevice>(
    s: ChipState<S, P>,
    max_cycles: u32,
    register: u32,
    attempts: u32,
)
    requires
        s.monitor_input.len() == 0,
    ensures
        wait_outcome(s, max_cycles, register, attempts).0 matches Some(s2) ==> {
            &&& s2.monitor_input.len() == 0
            &&& s2.cpu.bus.flash_controller.boot_from_flash
                == s.cpu.bus.flash_controller.boot_from_flash
        },
    decreases u32::MAX - attempts,
{
    reveal(wait_outcome);
    reveal(run_outcome);
    lemma_serial_read(s, max_cycles, register);
    match answer_outcome(s, max_cycles, read_word_command(register)) {
        (Some(s2), Ok(answer)) => {
            if answer != ready_answer() && attempts != u32::MAX {
                lemma_wait_keeps_boot_mode(s2, max_cycles, register, (attempts + 1) as u32);
            }
        },
        _ => {},
    }
}

/// "reset#" makes the micro-controller boot from its flash memory before it resets it: when the
/// command succeeds, the flash controller of the micro-controller is set to boot from the flash
/// memory, and the micro-controller runs the program of its flash memory. The boot program must
/// have no input left to process (a pending command would be processed first).
pub proof fn lemma_reset_boots_from_flash<S: SpiDevice, P: PioDevice>(
    s: ChipState<S, P>,
    max_cycles: u32,
    pages: Seq<Page>,
    output: Seq<char>,
)
    requires
        s.monitor_input.len() == 0,
    ensures
        ({
            let r = reset_step_outcome(s, max_cycles, pages, output);
            r.3 is Ok && r.0 is Some ==> {
                &&& r.0->Some_0.cpu.bus.flash_controller.boot_from_flash
                &&& r.0->Some_0.run_from_flash
            }
        }),
{
    reveal(reset_step_outcome);
    reveal(run_outcome);
    lemma_reset_commands();
    if !s.run_from_flash {
        lemma_serial_write(s, max_cycles, 0x400E0A04, 0x5A00010B);
        s.cpu.bus.lemma_set_boot_mode();
    }
    match answer_outcome(s, max_cycles, boot_from_flash_command()) {
        (Some(s2), Ok(_)) => {
            lemma_wait_keeps_boot_mode(s2, max_cycles, 0x400E0A08, 0);
            match wait_outcome(s2, max_cycles, 0x400E0A08, 0) {
                (Some(s3), Ok(_)) => {
                    if !s3.run_from_flash {
                        lemma_serial_write(s3, max_cycles, 0x400E1A00, 0xA500000D);
                        s3.cpu.bus.lemma_reset_write_keeps_boot_mode(0xA500000D);
                        s3.cpu.bus.lemma_reset_request();
                    }
                    assert(reset_command().len() == 19) by {
                        reveal_strlit("W400E1A00,A500000D#");
                    }
                },
                _ => {},
            }
        },
        _ => {},
    }
}

/// A "reset#" command (with white space around it or not) that succeeds leaves the
/// micro-controller set to boot from its flash memory, and running the program of its flash
/// memory, when its boot program had no input left to process.
pub proof fn lemma_reset_command_boots_from_flash<S: SpiDevice, P: PioDevice>(
    s: ChipState<S, P>,
    max_cycles: u32,
    pages: Seq<Page>,
    output: Seq<char>,
    input_from_file: bool,
    command: Seq<char>,
)
    requires
        s.monitor_input.len() == 0,
        trim(command) == "reset#"@,
    ensures
        ({
            let r = command_outcome(s, max_cycles, pages, output, input_from_file, command);
            r.3 is Ok && r.0 is Some ==> {
                &&& r.0->Some_0.cpu.bus.flash_controller.boot_from_flash
                &&& r.0->Some_0.run_from_flash
            }
        }),
{
    reveal(command_outcome);
    reveal_strlit("reset#");
    reveal_strlit("exit#");
    reveal_strlit("flash#");
    assert("reset#"@[0] != "exit#"@[0]);
    assert("reset#"@[0] != "flash#"@[0]);
    lemma_reset_boots_from_flash(s, max_cycles, pages, output);
}

/// The outcome of a command which is a word write in the flash memory, or a command for the boot
/// program (see `command_outcome`).
#[verifier::opaque]
pub open spec fn line_outcome<S: SpiDevice, P: PioDevice>(
    s: ChipState<S, P>,
    max_cycles: u32,
    pages: Seq<Page>,
    output: Seq<char>,
    input_from_file: bool,
    command: Seq<char>,
) -> (Option<ChipState<S, P>>, Seq<Page>, Seq<char>, Result<bool, Seq<char>>) {
    match flash_word_write(trim(command)) {
        Some((address, value)) => {
            if address % 4 != 0 {
                (Some(s), pages, output, Err(invalid_address(address)))
            } else {
                match write_word_outcome(
                    s,
                    max_cycles,
                    pages,
                    output,
                    input_from_file,
                    address,
                    value,
                ) {
                    (s2, pages2, output2, Err(e)) => (s2, pages2, output2, Err(e)),
                    (s2, pages2, output2, Ok(_)) => (s2, pages2, output2, Ok(true)),
                }
            }
        },
        None => match run_outcome(s, max_cycles, command) {
            (s2, Err(e)) => (s2, pages, output, Err(e)),
            (s2, Ok(answer)) => (
                s2,
                pages,
                output + match answer {
                    Some(text) => if input_from_file {
                        Seq::empty()
                    } else {
                        text + seq!['>']
                    },
                    None => Seq::empty(),
                },
                Ok(true),
            ),
        },
    }
}

/// The outcome of the commands of `commands` which start at `start` (each ending with '#',
/// except maybe the last one; see `command_outcome`), until a command stops or fails.
#[verifier::opaque]
pub open spec fn helper_outcome<S: SpiDevice, P: PioDevice>(
    s: ChipState<S, P>,
    max_cycles: u32,
    pages: Seq<Page>,
    output: Seq<char>,
    input_from_file: bool,
    commands: Seq<char>,
    start: int,
) -> (Option<ChipState<S, P>>, Seq<Page>, Seq<char>, Result<bool, Seq<char>>)
    decreases commands.len() - start,
{
    if start < 0 || start >= commands.len() {
        (Some(s), pages, output, Ok(true))
    } else {
        let end = piece_end(commands, '#', start);
        proof {
            crate::text::lemma_piece_end(commands, '#', start);
        }
        match command_outcome(
            s,
            max_cycles,
            pages,
            output,
            input_from_file,
            commands.subrange(start, end),
        ) {
            (Some(s2), pages2, output2, Ok(true)) => helper_outcome(
                s2,
                max_cycles,
                pages2,
                output2,
                input_from_file,
                commands,
                end,
            ),
            outcome => outcome,
        }
    }
}

/// Whether the pages are in the flash memory, and sorted by index, without duplicates.
pub open spec fn pages_ok(pages: Seq<Page>) -> bool {
    &&& forall|i: int| 0 <= i < pages.len() ==> (#[trigger] pages[i]).wf()
    &&& forall|i: int, j: int| 0 <= i < j < pages.len() ==> #[trigger] pages[i].index < #[trigger] pages[j].index
}

/// A helper to write a program in the flash memory of a micro-controller, through the boot
/// program and its serial port. Word writes in the flash memory are grouped by page, and
/// written with a "flash#" command. Other commands are sent to the boot program.
pub struct FlashHelper<S: SpiDevice, P: PioDevice> {
    pub serial_port: MicroController<S, P>,
    pub input_from_file: bool,
    pub terminal: bool,
    pub pages: Vec<Page>,
    pub output: String,
}

impl<S: SpiDevice, P: PioDevice> FlashHelper<S, P> {
    /// The micro-controller can run, and the pages to write are well formed.
    pub open spec fn wf(self) -> bool {
        &&& self.serial_port.inv()
        &&& self.serial_port.on
        &&& pages_ok(self.pages@)
    }

    /// The output after the commands `commands` are shown (unless in a terminal, or when the
    /// commands come from a file).
    pub open spec fn echo(self, commands: Seq<char>) -> Seq<char> {
        if !self.terminal && !self.input_from_file {
            self.output@ + commands + seq!['\n']
        } else {
            self.output@
        }
    }

    /// A helper which records the commands after a command line.
    pub fn new(serial_port: MicroController<S, P>) -> (r: Self)
        ensures
            r.serial_port == serial_port,
            !r.terminal,
            !r.input_from_file,
            r.pages@.len() == 0,
            r.output@ == "user@host:~$ python3 flash_helper.py\n>"@,
    {
        Self::create(serial_port, false)
    }

    /// A helper which records the commands after a command line, unless it is used in a
    /// terminal.
    pub fn create(serial_port: MicroController<S, P>, terminal: bool) -> (r: Self)
        ensures
            r.serial_port == serial_port,
            r.terminal == terminal,
            !r.input_from_file,
            r.pages@.len() == 0,
            r.output@ == (if terminal {
                Seq::<char>::empty()
            } else {
                "user@host:~$ python3 flash_helper.py\n>"@
            }),
    {
        Self {
            serial_port,
            input_from_file: false,
            terminal,
            pages: Vec::new(),
            output: if terminal {
                String::new()
            } else {
                String::from_str("user@host:~$ python3 flash_helper.py\n>")
            },
        }
    }

    /// A helper for commands read from the file `name`, which records the command line (unless
    /// it is used in a terminal) but not the commands and their answers.
    pub fn create_from_file(serial_port: MicroController<S, P>, name: &str, terminal: bool) -> (r:
        Self)
        ensures
            r.serial_port == serial_port,
            r.terminal == terminal,
            r.input_from_file,
            r.pages@.len() == 0,
            r.output@ == (if terminal {
                Seq::<char>::empty()
            } else {
                "user@host:~$ python3 flash_helper.py < "@ + name@ + "\n>"@
            }),
    {
        let mut output = String::new();
        if !terminal {
            push_str(&mut output, "user@host:~$ python3 flash_helper.py < ");
            push_str(&mut output, name);
            push_str(&mut output, "\n>");
        }
        Self { serial_port, input_from_file: true, terminal, pages: Vec::new(), output }
    }

    /// Sends the commands of `commands` (each ending with '#', except maybe the last one). Returns
    /// whether more commands can be sent (not after "exit#", "reset#", or an error, which is added
    /// to the output).
    pub fn write(&mut self, commands: &str) -> (r: bool)
        requires
            old(self).wf(),
        ensures
            final(self).wf(),
            final(self).terminal == old(self).terminal,
            final(self).input_from_file == old(self).input_from_file,
            final(self).serial_port.max_boot_program_go_cycles
                == old(self).serial_port.max_boot_program_go_cycles,
            ({
                let (s, pages, output, outcome) = helper_outcome(
                    old(self).serial_port.state(),
                    old(self).serial_port.max_boot_program_go_cycles,
                    old(self).pages@,
                    old(self).echo(commands@),
                    old(self).input_from_file,
                    commands@,
                    0,
                );
                &&& s is Some ==> final(self).serial_port.state() == s->Some_0
                &&& final(self).pages@ == pages
                &&& match outcome {
                    Ok(more) => r == more && final(self).output@ == output,
                    Err(e) => !r && final(self).output@ == output + e,
                }
            }),
    {
        match self.write_internal(commands) {
            Ok(result) => result,
            Err(error) => {
                push_str(&mut self.output, error.as_str());
                false
            },
        }
    }

    /// Writes all the pages which changed, and forgets them.
    fn flash_pages(&mut self) -> (r: Result<(), String>)
        requires
            old(self).wf(),
        ensures
            final(self).wf(),
            final(self).terminal == old(self).terminal,
            final(self).input_from_file == old(self).input_from_file,
            final(self).serial_port.max_boot_program_go_cycles
                == old(self).serial_port.max_boot_program_go_cycles,
            ({
                let expected = flash_pages_outcome(
                    old(self).serial_port.state(),
                    old(self).serial_port.max_boot_program_go_cycles,
                    old(self).pages@,
                    old(self).output@,
                    0,
                );
                &&& follows_outcome(final(self).serial_port, r, (expected.0, expected.2))
                &&& final(self).output@ == expected.1
                &&& final(self).pages@ == (if r is Ok {
                    Seq::empty()
                } else {
                    old(self).pages@
                })
            }),
    {
        let ghost max_cycles = self.serial_port.max_boot_program_go_cycles;
        let ghost expected = flash_pages_outcome(
            self.serial_port.state(),
            max_cycles,
            self.pages@,
            self.output@,
            0,
        );
        let mut i: usize = 0;
        while i < self.pages.len()
            invariant
                self.wf(),
                i <= self.pages@.len(),
                self.terminal == old(self).terminal,
                self.input_from_file == old(self).input_from_file,
                self.pages@ == old(self).pages@,
                self.serial_port.max_boot_program_go_cycles == max_cycles,
                max_cycles == old(self).serial_port.max_boot_program_go_cycles,
                expected == flash_pages_outcome(
                    old(self).serial_port.state(),
                    max_cycles,
                    old(self).pages@,
                    old(self).output@,
                    0,
                ),
                expected == flash_pages_outcome(
                    self.serial_port.state(),
                    max_cycles,
                    self.pages@,
                    self.output@,
                    i as int,
                ),
            decreases self.pages@.len() - i,
        {
            proof {
                reveal(flash_pages_outcome);
            }
            self.pages[i].flash(&mut self.serial_port, &mut self.output)?;
            i = i + 1;
        }
        proof {
            reveal(flash_pages_outcome);
        }
        self.pages.clear();
        push_char(&mut self.output, '>');
        Ok(())
    }

    /// Records the write of `value` at `address` in its page (read first from the flash memory
    /// if it is not recorded yet).
    #[verifier::spinoff_prover]
    #[verifier::rlimit(100)]
    fn write_word(&mut self, address: u32, value: u32) -> (r: Result<(), String>)
        requires
            old(self).wf(),
            FLASH_BEGIN <= address < FLASH_END,
        ensures
            final(self).wf(),
            final(self).terminal == old(self).terminal,
            final(self).input_from_file == old(self).input_from_file,
            final(self).serial_port.max_boot_program_go_cycles
                == old(self).serial_port.max_boot_program_go_cycles,
            ({
                let expected = write_word_outcome(
                    old(self).serial_port.state(),
                    old(self).serial_port.max_boot_program_go_cycles,
                    old(self).pages@,
                    old(self).output@,
                    old(self).input_from_file,
                    address,
                    value,
                );
                &&& follows_outcome(final(self).serial_port, r, (expected.0, expected.3))
                &&& final(self).pages@ == expected.1
                &&& final(self).output@ == expected.2
            }),
    {
        let page_index = (address - FLASH_BEGIN) / FLASH_PAGE_BYTES;
        let word_index = (address % FLASH_PAGE_BYTES) / 4;
        let mut pos: usize = 0;
        assert(self.pages@.skip(0) =~= self.pages@);
        while pos < self.pages.len() && self.pages[pos].index < page_index
            invariant
                pos <= self.pages@.len(),
                self.pages@ == old(self).pages@,
                forall|k: int| 0 <= k < pos ==> #[trigger] self.pages@[k].index < page_index,
                page_position(self.pages@, page_index) == pos + page_position(
                    self.pages@.skip(pos as int),
                    page_index,
                ),
            decreases self.pages@.len() - pos,
        {
            assert(self.pages@.skip(pos as int).drop_first() =~= self.pages@.skip(pos + 1));
            pos = pos + 1;
        }
        proof {
            if pos < self.pages@.len() {
                assert(self.pages@.skip(pos as int)[0] == self.pages@[pos as int]);
            }
            assert(page_position(self.pages@, page_index) == pos);
        }
        if pos < self.pages.len() && self.pages[pos].index == page_index {
            let ghost before = self.pages@;
            let mut page = self.pages.remove(pos);
            page.set(word_index, value);
            self.pages.insert(pos, page);
            assert(self.pages@ =~= before.update(pos as int, page));
        } else {
            let ghost before = self.pages@;
            let mut page = Page::new(page_index, &mut self.serial_port, &mut self.output)?;
            proof {
                page.lemma_read();
            }
            page.set(word_index, value);
            self.pages.insert(pos, page);
            assert(forall|k: int| 0 <= k < pos ==> #[trigger] self.pages@[k] == before[k]);
            assert(forall|k: int|
                pos < k < self.pages@.len() ==> #[trigger] self.pages@[k] == before[k - 1]);
        }
        if !self.input_from_file {
            push_char(&mut self.output, '>');
        }
        Ok(())
    }

    /// Processes the command `chars[start..end]` (see `command_outcome`). Returns whether more
    /// commands can be sent.
    #[verifier::spinoff_prover]
    #[verifier::rlimit(100)]
    fn write_command(&mut self, chars: &Vec<char>, start: usize, end: usize) -> (r: Result<bool, String>)
        requires
            old(self).wf(),
            start <= end <= chars@.len(),
        ensures
            final(self).wf(),
            final(self).terminal == old(self).terminal,
            final(self).input_from_file == old(self).input_from_file,
            final(self).serial_port.max_boot_program_go_cycles
                == old(self).serial_port.max_boot_program_go_cycles,
            ({
                let expected = command_outcome(
                    old(self).serial_port.state(),
                    old(self).serial_port.max_boot_program_go_cycles,
                    old(self).pages@,
                    old(self).output@,
                    old(self).input_from_file,
                    chars@.subrange(start as int, end as int),
                );
                &&& follows_outcome(final(self).serial_port, r, (expected.0, expected.3))
                &&& final(self).pages@ == expected.1
                &&& final(self).output@ == expected.2
                &&& expected.3 is Ok ==> r->Ok_0 == expected.3->Ok_0
            }),
    {
        proof {
            reveal(command_outcome);
        }
        if trimmed_equals(chars, start, end, "exit#") {
            return Ok(false);
        }
        if trimmed_equals(chars, start, end, "flash#") {
            self.flash_pages()?;
            return Ok(true);
        }
        if trimmed_equals(chars, start, end, "reset#") {
            return self.reset_and_stop();
        }
        self.write_line(chars, start, end)
    }

    /// Makes the micro-controller boot from its flash memory, and resets it (see
    /// `reset_step_outcome`).
    #[verifier::spinoff_prover]
    #[verifier::rlimit(100)]
    fn reset_and_stop(&mut self) -> (r: Result<bool, String>)
        requires
            old(self).wf(),
        ensures
            final(self).wf(),
            final(self).terminal == old(self).terminal,
            final(self).input_from_file == old(self).input_from_file,
            final(self).serial_port.max_boot_program_go_cycles
                == old(self).serial_port.max_boot_program_go_cycles,
            ({
                let expected = reset_step_outcome(
                    old(self).serial_port.state(),
                    old(self).serial_port.max_boot_program_go_cycles,
                    old(self).pages@,
                    old(self).output@,
                );
                &&& follows_outcome(final(self).serial_port, r, (expected.0, expected.3))
                &&& final(self).pages@ == expected.1
                &&& final(self).output@ == expected.2
                &&& expected.3 is Ok ==> r->Ok_0 == expected.3->Ok_0
            }),
    {
        proof {
            reveal(reset_step_outcome);
        }
        run(&mut self.serial_port, "W400E0A04,5A00010B#")?;  // Set boot from flash.
        wait_ready(&mut self.serial_port, 0x400E0A08)?;
        let reset = "W400E1A00,A500000D#";
        proof {
            reveal_strlit("W400E1A00,A500000D#");
        }
        assert(reset@ == reset_command());
        assert(reset_command().len() == 19);
        if self.serial_port.boot_monitor.input.len() <= usize::MAX - 19 {
            if self.serial_port.set_serial_input(reset).is_err() {  // Reset.
                return Err(String::from_str("ERROR: device failure.\n"));
            }
        }
        Ok(false)
    }

    /// Records a word write in the flash memory, or sends the command `chars[start..end]` to the
    /// boot program (see `line_outcome`).
    #[verifier::spinoff_prover]
    #[verifier::rlimit(100)]
    fn write_line(&mut self, chars: &Vec<char>, start: usize, end: usize) -> (r: Result<bool, String>)
        requires
            old(self).wf(),
            start <= end <= chars@.len(),
        ensures
            final(self).wf(),
            final(self).terminal == old(self).terminal,
            final(self).input_from_file == old(self).input_from_file,
            final(self).serial_port.max_boot_program_go_cycles
                == old(self).serial_port.max_boot_program_go_cycles,
            ({
                let expected = line_outcome(
                    old(self).serial_port.state(),
                    old(self).serial_port.max_boot_program_go_cycles,
                    old(self).pages@,
                    old(self).output@,
                    old(self).input_from_file,
                    chars@.subrange(start as int, end as int),
                );
                &&& follows_outcome(final(self).serial_port, r, (expected.0, expected.3))
                &&& final(self).pages@ == expected.1
                &&& final(self).output@ == expected.2
                &&& expected.3 is Ok ==> r->Ok_0 == expected.3->Ok_0
            }),
    {
        proof {
            reveal(line_outcome);
        }
        let (line_start, line_end) = trim_bounds(chars, start, end);
        let line = string_of(chars, line_start, line_end);
        match Self::get_flash_address_and_value(line.as_str())? {
            Some((address, value)) => {
                self.write_word(address, value)?;
            },
            None => {
                let command = string_of(chars, start, end);
                let ghost before = self.output@;
                match crate::boot_helper::run(&mut self.serial_port, command.as_str()) {
                    Ok(Some(result)) => {
                        if !self.input_from_file {
                            push_str(&mut self.output, result.as_str());
                            push_char(&mut self.output, '>');
                            assert(self.output@ =~= before + (result@ + seq!['>']));
                        } else {
                            assert(self.output@ =~= before + Seq::<char>::empty());
                        }
                    },
                    Ok(None) => {
                        assert(self.output@ =~= before + Seq::<char>::empty());
                    },
                    Err(error) => {
                        return Err(error);
                    },
                }
            },
        }
        Ok(true)
    }

    fn write_internal(&mut self, commands: &str) -> (r: Result<bool, String>)
        requires
            old(self).wf(),
        ensures
            final(self).wf(),
            final(self).terminal == old(self).terminal,
            final(self).input_from_file == old(self).input_from_file,
            final(self).serial_port.max_boot_program_go_cycles
                == old(self).serial_port.max_boot_program_go_cycles,
            ({
                let expected = helper_outcome(
                    old(self).serial_port.state(),
                    old(self).serial_port.max_boot_program_go_cycles,
                    old(self).pages@,
                    old(self).echo(commands@),
                    old(self).input_from_file,
                    commands@,
                    0,
                );
                &&& follows_outcome(final(self).serial_port, r, (expected.0, expected.3))
                &&& final(self).pages@ == expected.1
                &&& final(self).output@ == expected.2
                &&& expected.3 is Ok ==> r->Ok_0 == expected.3->Ok_0
            }),
    {
        if !self.terminal && !self.input_from_file {
            push_str(&mut self.output, commands);
            push_char(&mut self.output, '\n');
        }
        proof {
            if !self.terminal && !self.input_from_file {
                assert(self.output@ =~= old(self).output@ + commands@ + seq!['\n']);
            }
        }
        let ghost max_cycles = self.serial_port.max_boot_program_go_cycles;
        let ghost expected = helper_outcome(
            self.serial_port.state(),
            max_cycles,
            self.pages@,
            self.output@,
            self.input_from_file,
            commands@,
            0,
        );
        let chars = chars_of(commands);
        let mut start: usize = 0;
        while start < chars.len()
            invariant
                self.wf(),
                start <= chars@.len(),
                chars@ == commands@,
                self.terminal == old(self).terminal,
                self.input_from_file == old(self).input_from_file,
                self.serial_port.max_boot_program_go_cycles == max_cycles,
                max_cycles == old(self).serial_port.max_boot_program_go_cycles,
                expected == helper_outcome(
                    old(self).serial_port.state(),
                    max_cycles,
                    old(self).pages@,
                    old(self).echo(commands@),
                    old(self).input_from_file,
                    commands@,
                    0,
                ),
                expected == helper_outcome(
                    self.serial_port.state(),
                    max_cycles,
                    self.pages@,
                    self.output@,
                    self.input_from_file,
                    commands@,
                    start as int,
                ),
            decreases chars@.len() - start,
        {
            let end = find_piece_end(&chars, '#', start);
            proof {
                lemma_piece_end(chars@, '#', start as int);
                reveal(helper_outcome);
            }
            let more = self.write_command(&chars, start, end)?;
            if !more {
                return Ok(false);
            }
            start = end;
        }
        proof {
            reveal(helper_outcome);
        }
        Ok(true)
    }

    /// Returns the recorded commands and answers since the last call (see `read_outcome`).
    pub fn read(&mut self) -> (r: String)
        ensures
            (final(self).output@, r@) == crate::boot_helper::read_outcome(
                old(self).output@,
                old(self).terminal,
            ),
            final(self).serial_port == old(self).serial_port,
            final(self).pages == old(self).pages,
            final(self).terminal == old(self).terminal,
            final(self).input_from_file == old(self).input_from_file,
    {
        BootHelper::<S, P>::read_output(&mut self.output, self.terminal)
    }

    /// The address and the value of a word write command in the flash memory, if `line` is one
    /// (see `flash_word_write`), or the error if the address is not aligned.
    pub fn get_flash_address_and_value(line: &str) -> (r: Result<Option<(u32, u32)>, String>)
        ensures
            match flash_word_write(line@) {
                None => r == Ok::<Option<(u32, u32)>, String>(None),
                Some((address, value)) => if address % 4 != 0 {
                    r is Err && r->Err_0@ == invalid_address(address)
                } else {
                    r == Ok::<Option<(u32, u32)>, String>(Some((address, value)))
                },
            },
    {
        let chars = chars_of(line);
        let len = chars.len();
        if len == 0 || chars[0] != 'W' || chars[len - 1] != '#' {
            return Ok(None);
        }
        let comma = find_char(&chars, 0, ',');
        assert(chars@.subrange(0, len as int) =~= chars@);
        if comma >= len {
            return Ok(None);
        }
        let address = match parse_hex(&chars, 1, comma) {
            Some(address) => address,
            None => {
                return Ok(None);
            },
        };
        let value = match parse_hex(&chars, comma + 1, len - 1) {
            Some(value) => value,
            None => {
                return Ok(None);
            },
        };
        if FLASH_BEGIN <= address && address < FLASH_END {
            if address % 4 != 0 {
                let mut error = String::from_str("ERROR: invalid address ");
                push_decimal(&mut error, address);
                push_char(&mut error, '\n');
                assert(error@ =~= invalid_address(address));
                return Err(error);
            }
            return Ok(Some((address, value)));
        }
        Ok(None)
    }
}

} // verus!
