use vstd::prelude::*;
use crate::boot::push_char;
use crate::fault::Fault;
use crate::pio::PioDevice;
use crate::spi::SpiDevice;

verus! {

pub const PIXEL_WIDTH: u32 = 800;

pub const PIXEL_HEIGHT: u32 = 480;

pub const CHAR_WIDTH: u32 = 8;

pub const CHAR_HEIGHT: u32 = 16;

pub const TEXT_WIDTH: u32 = PIXEL_WIDTH / CHAR_WIDTH;

pub const TEXT_HEIGHT: u32 = PIXEL_HEIGHT / CHAR_HEIGHT;

/// The number of characters of a text layer.
pub const TEXT_SIZE: usize = 3000;

// SPI transfer headers.
pub const DATA_WRITE: u32 = 0x0000;

pub const DATA_READ: u32 = 0x4000;

pub const COMMAND_WRITE: u32 = 0x8000;

pub const STATUS_READ: u32 = 0xC000;

pub const HEADER_MASK: u32 = 0xC000;

// RA8875 registers.
pub const POWER_AND_DISPLAY_CONTROL: u8 = 0x01;

pub const MEMORY_READ_WRITE_COMMAND: u8 = 0x02;

pub const PIXEL_CLOCK_SETTING: u8 = 0x04;

pub const SYSTEM_CONFIGURATION: u8 = 0x10;

pub const LCD_HORIZONTAL_DISPLAY_WIDTH: u8 = 0x14;

pub const LCD_HORIZONTAL_NON_DISPLAY_PERIOD_FINE_TUNING: u8 = 0x15;

pub const LCD_HORIZONTAL_NON_DISPLAY_PERIOD: u8 = 0x16;

pub const HSYNC_START_POSITION: u8 = 0x17;

pub const LCD_VERTICAL_DISPLAY_HEIGHT0: u8 = 0x19;

pub const LCD_VERTICAL_DISPLAY_HEIGHT1: u8 = 0x1A;

pub const LCD_VERTICAL_NON_DISPLAY_PERIOD0: u8 = 0x1B;

pub const LCD_VERTICAL_NON_DISPLAY_PERIOD1: u8 = 0x1C;

pub const VSYNC_START_POSITION0: u8 = 0x1D;

pub const VSYNC_START_POSITION1: u8 = 0x1E;

pub const DISPLAY_CONFIGURATION_REGISTER: u8 = 0x20;

pub const FONT_WRITE_CURSOR_HORIZONTAL0: u8 = 0x2A;

pub const FONT_WRITE_CURSOR_HORIZONTAL1: u8 = 0x2B;

pub const FONT_WRITE_CURSOR_VERTICAL0: u8 = 0x2C;

pub const FONT_WRITE_CURSOR_VERTICAL1: u8 = 0x2D;

pub const HORIZONTAL_START_OF_ACTIVE_WINDOW0: u8 = 0x30;

pub const HORIZONTAL_START_OF_ACTIVE_WINDOW1: u8 = 0x31;

pub const VERTICAL_START_OF_ACTIVE_WINDOW0: u8 = 0x32;

pub const VERTICAL_START_OF_ACTIVE_WINDOW1: u8 = 0x33;

pub const HORIZONTAL_END_OF_ACTIVE_WINDOW0: u8 = 0x34;

pub const HORIZONTAL_END_OF_ACTIVE_WINDOW1: u8 = 0x35;

pub const VERTICAL_END_OF_ACTIVE_WINDOW0: u8 = 0x36;

pub const VERTICAL_END_OF_ACTIVE_WINDOW1: u8 = 0x37;

pub const MEMORY_WRITE_CONTROL0: u8 = 0x40;

pub const MEMORY_WRITE_CONTROL1: u8 = 0x41;

pub const BLINK_TIME_CONTROL: u8 = 0x44;

pub const LAYER_TRANSPARENCY_REGISTER0: u8 = 0x52;

pub const BACKGROUND_COLOR0: u8 = 0x60;

pub const BACKGROUND_COLOR1: u8 = 0x61;

pub const BACKGROUND_COLOR2: u8 = 0x62;

pub const FOREGROUND_COLOR0: u8 = 0x63;

pub const FOREGROUND_COLOR1: u8 = 0x64;

pub const FOREGROUND_COLOR2: u8 = 0x65;

pub const PLL_CONTROL1: u8 = 0x88;

pub const PLL_CONTROL2: u8 = 0x89;

pub const PWM1_CONTROL: u8 = 0x8A;

pub const PWM1_DUTY_CYCLE: u8 = 0x8B;

pub const MEMORY_CLEAR_CONTROL: u8 = 0x8E;

pub const EXTRA_GENERAL_PURPOSE_IO: u8 = 0xC7;

// Supported bits of the RA8875 registers.
pub const POWER_AND_DISPLAY_CONTROL_UNSUPPORTED_BITS: u8 = 0x03;

pub const PIXEL_CLOCK_SETTING_BITS: u8 = 0x83;

pub const SYSTEM_CONFIGURATION_BITS: u8 = 0x0F;

pub const LCD_HORIZONTAL_NON_DISPLAY_PERIOD_BITS: u8 = 0x1F;

pub const LCD_HORIZONTAL_NON_DISPLAY_PERIOD_FINE_TUNING_BITS: u8 = 0x8F;

pub const HSYNC_START_POSITION_BITS: u8 = 0x1F;

pub const DISPLAY_CONFIGURATION_BITS: u8 = 0x80;

pub const MEMORY_WRITE_CONTROL0_BITS: u8 = 0xEF;

pub const MEMORY_WRITE_CONTROL1_BITS: u8 = 0x01;

pub const LAYER_TRANSPARENCY_BITS: u8 = 0x01;

pub const PLL_CONTROL1_BITS: u8 = 0x9F;

pub const PLL_CONTROL2_BITS: u8 = 0x07;

pub const PWM1_CONTROL_BITS: u8 = 0xDF;

pub const U9_MAX: u32 = 511;

pub const U10_MAX: u32 = 1023;

pub const CRYSTAL_FREQUENCY: u32 = 20000000;

pub const TEXT_MODE: u8 = 0x80;

// Requires Clock Polarity CPOL=0, Clock Phase NCPHA=1, Chip Select Not Active After Transfer
// CSNAAT=0, Chip Select Active After Transfer CSAAT=0 and Bits Per Transfer BITS=8 (16_BIT).
// See section 32.8.9, p703 of the Atmel SAM3X Datasheet.
pub const CHIP_SELECT_REQUIRED_MASK: u32 = 0xFF;

pub const CHIP_SELECT_REQUIRED_VALUE: u32 = 0x82;

/// A position on the screen, in pixels.
#[derive(Clone, Copy, Debug, PartialEq, Eq, Structural)]
pub struct Point {
    pub x: u32,
    pub y: u32,
}

/// A color, or a number of bits per color component.
#[derive(Clone, Copy, Debug, PartialEq, Eq, Structural)]
pub struct Color {
    pub r: u8,
    pub g: u8,
    pub b: u8,
}

impl Default for Color {
    fn default() -> (r: Self)
        ensures
            r == (Color { r: 0, g: 0, b: 0 }),
    {
        Color { r: 0, g: 0, b: 0 }
    }
}

/// A request sent by the graphics card to its display.
pub enum DisplayEvent {
    SetOn(bool),
    SetReadLayer(u32),
    SetWriteLayer(u32),
    /// Draws a character at a position, with a foreground and a background color.
    DrawChar(u32, u32, u8, Color, Color),
    /// Moves the cursor, enables it or not, and makes it blink or not (with a blink time).
    SetCursor(u32, u32, bool, Option<u8>),
    /// Clears the rectangle between two points, or the whole screen.
    Clear(Point, Point, bool),
    Reset,
}

/// A screen connected to a graphics card.
pub trait Display: Sized {
    /// The state of this display after `event` (unknown unless an implementation defines it).
    open spec fn after(&self, event: DisplayEvent) -> Self {
        arbitrary()
    }

    fn set_on(&mut self, on: bool)
        ensures
            *final(self) == old(self).after(DisplayEvent::SetOn(on)),
    ;

    fn set_read_layer(&mut self, layer: u32)
        ensures
            *final(self) == old(self).after(DisplayEvent::SetReadLayer(layer)),
    ;

    fn set_write_layer(&mut self, layer: u32)
        ensures
            *final(self) == old(self).after(DisplayEvent::SetWriteLayer(layer)),
    ;

    fn draw_char(&mut self, x: u32, y: u32, c: u8, foreground: Color, background: Color)
        requires
            x < PIXEL_WIDTH,
            y < PIXEL_HEIGHT,
        ensures
            *final(self) == old(self).after(DisplayEvent::DrawChar(x, y, c, foreground, background)),
    ;

    fn set_cursor(&mut self, x: u32, y: u32, enabled: bool, blink_time: Option<u8>)
        ensures
            *final(self) == old(self).after(DisplayEvent::SetCursor(x, y, enabled, blink_time)),
    ;

    fn clear(&mut self, top_left: &Point, bottom_right: &Point, full_screen: bool)
        requires
            bottom_right.x <= PIXEL_WIDTH,
            bottom_right.y <= PIXEL_HEIGHT,
        ensures
            *final(self) == old(self).after(DisplayEvent::Clear(*top_left, *bottom_right, full_screen)),
    ;

    fn reset(&mut self)
        ensures
            *final(self) == old(self).after(DisplayEvent::Reset),
    ;
}

/// The character shown for the byte `c`: itself if it is a printable ASCII character, a space
/// otherwise.
pub open spec fn shown_char(c: u8) -> char {
    if 0x21 <= c <= 0x7E {
        c as char
    } else {
        ' '
    }
}

/// `s` without its trailing spaces and line feeds (the only blank characters of a text).
pub open spec fn trim_end(s: Seq<char>) -> Seq<char>
    decreases s.len(),
{
    if s.len() > 0 && (s.last() == ' ' || s.last() == '\n') {
        trim_end(s.drop_last())
    } else {
        s
    }
}

/// The characters shown on line `y` of the text layer `text`.
pub open spec fn raw_line(text: Seq<u8>, y: int) -> Seq<char> {
    Seq::new(TEXT_WIDTH as nat, |x: int| shown_char(text[x + y * TEXT_WIDTH]))
}

/// The characters of line `y` of the text layer `text`, without trailing spaces.
pub open spec fn text_line(text: Seq<u8>, y: int) -> Seq<char> {
    trim_end(raw_line(text, y))
}

/// `n` line feeds.
pub open spec fn newlines(n: nat) -> Seq<char> {
    Seq::new(n, |i: int| '\n')
}

/// A line which ends with spaces after position `m` is its prefix of length `m`, without
/// trailing blanks, when the character before `m` is not blank.
proof fn lemma_trim_line(raw: Seq<char>, m: int)
    requires
        0 <= m <= raw.len(),
        forall|k: int| m <= k < raw.len() ==> #[trigger] raw[k] == ' ',
        m == 0 || (raw[m - 1] != ' ' && raw[m - 1] != '\n'),
    ensures
        trim_end(raw) == raw.take(m),
    decreases raw.len(),
{
    if raw.len() > m {
        lemma_trim_line(raw.drop_last(), m);
        assert(raw.drop_last().take(m) =~= raw.take(m));
    } else {
        assert(raw.take(m) =~= raw);
    }
}

/// Trailing line feeds are trimmed from a text which does not end with a blank.
proof fn lemma_trim_newlines(s: Seq<char>, n: nat)
    requires
        s.len() == 0 || (s.last() != ' ' && s.last() != '\n'),
    ensures
        trim_end(s + newlines(n)) == s,
    decreases n,
{
    if n == 0 {
        assert(s + newlines(n) =~= s);
    } else {
        lemma_trim_newlines(s, (n - 1) as nat);
        assert((s + newlines(n)).drop_last() =~= s + newlines((n - 1) as nat));
    }
}

/// The first `n` lines of the text layer `text`, each followed by a line feed.
pub open spec fn text_lines(text: Seq<u8>, n: nat) -> Seq<char>
    decreases n,
{
    if n == 0 {
        Seq::empty()
    } else {
        text_lines(text, (n - 1) as nat) + text_line(text, n - 1) + seq!['\n']
    }
}

/// The text shown by the text layer `text`: its lines without their trailing spaces, separated
/// by line feeds, without trailing empty lines.
pub open spec fn text_of(text: Seq<u8>) -> Seq<char> {
    trim_end(text_lines(text, TEXT_HEIGHT as nat))
}

/// The text layer `text` with the characters of columns `x_start..x_end` and rows
/// `y_start..y_end` set to 0.
pub open spec fn cleared(text: Seq<u8>, x_start: int, x_end: int, y_start: int, y_end: int) -> Seq<
    u8,
> {
    Seq::new(
        text.len(),
        |i: int|
            if x_start <= i % (TEXT_WIDTH as int) < x_end && y_start <= i / (TEXT_WIDTH as int)
                < y_end {
                0u8
            } else {
                text[i]
            },
    )
}

/// The array whose first `n` elements are those of `s`, and whose other elements are 0.
pub open spec fn array_prefix(s: Seq<u8>, n: nat) -> [u8; 3000]
    decreases n,
{
    if n == 0 {
        vstd::array::spec_array_fill_for_copy_type::<u8, 3000>(0u8)
    } else {
        vstd::array::spec_array_update(array_prefix(s, (n - 1) as nat), n - 1, s[n - 1])
    }
}

/// The array whose content is `s` (of length `TEXT_SIZE`).
pub open spec fn text_array(s: Seq<u8>) -> [u8; 3000] {
    array_prefix(s, TEXT_SIZE as nat)
}

proof fn lemma_array_prefix(s: Seq<u8>, n: nat)
    requires
        n <= TEXT_SIZE,
    ensures
        forall|i: int|
            0 <= i < TEXT_SIZE ==> #[trigger] array_prefix(s, n)@[i] == (if i < n {
                s[i]
            } else {
                0u8
            }),
    decreases n,
{
    if n > 0 {
        lemma_array_prefix(s, (n - 1) as nat);
        let previous = array_prefix(s, (n - 1) as nat);
        assert(array_prefix(s, n)@ == previous@.update(n - 1, s[n - 1]));
    } else {
        let zeros = vstd::array::spec_array_fill_for_copy_type::<u8, 3000>(0u8);
        assert(array_prefix(s, n) == zeros);
        assert forall|i: int| 0 <= i < TEXT_SIZE implies #[trigger] zeros@[i] == 0u8 by {
            assert(zeros.view()[i] == 0u8);
        }
    }
}

/// The array of a content of length `TEXT_SIZE` has this content.
pub proof fn lemma_text_array(s: Seq<u8>)
    requires
        s.len() == TEXT_SIZE,
    ensures
        text_array(s)@ == s,
{
    lemma_array_prefix(s, TEXT_SIZE as nat);
    assert(text_array(s)@ =~= s);
}

/// An array is the array of its content.
proof fn lemma_text_array_of(a: [u8; 3000])
    ensures
        text_array(a@) == a,
{
    lemma_text_array(a@);
    assert(text_array(a@) =~= a);
}

/// The content of a text layer filled with 0.
pub open spec fn empty_text() -> Seq<u8> {
    Seq::new(TEXT_SIZE as nat, |i: int| 0u8)
}

/// The initial content of the text layer 0 (pseudo random).
pub open spec fn initial_text0() -> Seq<u8> {
    Seq::new(TEXT_SIZE as nat, |i: int| crate::bus::lcg(1, i as nat) as u8)
}

/// The initial content of the text layer 1 (pseudo random).
pub open spec fn initial_text1() -> Seq<u8> {
    Seq::new(TEXT_SIZE as nat, |i: int| (crate::bus::lcg(1, i as nat) >> 8) as u8)
}

/// The state of a text display.
#[verifier::ext_equal]
pub struct TextDisplayState {
    pub on: bool,
    pub read_layer: u32,
    pub write_layer: u32,
    pub text0: Seq<u8>,
    pub text1: Seq<u8>,
}

impl TextDisplayState {
    pub open spec fn initial() -> Self {
        TextDisplayState {
            on: false,
            read_layer: 0,
            write_layer: 0,
            text0: initial_text0(),
            text1: initial_text1(),
        }
    }

    /// The content of the text layer which is read (shown).
    pub open spec fn shown_text(self) -> Seq<u8> {
        if self.read_layer == 1 {
            self.text1
        } else {
            self.text0
        }
    }

    /// The content of the text layer which is written.
    pub open spec fn written_text(self) -> Seq<u8> {
        if self.write_layer == 1 {
            self.text1
        } else {
            self.text0
        }
    }

    /// This state with the written text layer replaced with `text`.
    pub open spec fn with_written_text(self, text: Seq<u8>) -> Self {
        if self.write_layer == 1 {
            TextDisplayState { text1: text, ..self }
        } else {
            TextDisplayState { text0: text, ..self }
        }
    }

    /// The state after `event`. A character is drawn only at a position aligned on a character
    /// boundary.
    pub open spec fn after(self, event: DisplayEvent) -> Self {
        match event {
            DisplayEvent::SetOn(on) => TextDisplayState { on, ..self },
            DisplayEvent::SetReadLayer(layer) => TextDisplayState { read_layer: layer, ..self },
            DisplayEvent::SetWriteLayer(layer) => TextDisplayState { write_layer: layer, ..self },
            DisplayEvent::DrawChar(x, y, c, _, _) => {
                if x % CHAR_WIDTH == 0 && y % CHAR_HEIGHT == 0 {
                    let i = x / CHAR_WIDTH + (y / CHAR_HEIGHT) * TEXT_WIDTH;
                    self.with_written_text(self.written_text().update(i, c))
                } else {
                    self
                }
            },
            DisplayEvent::SetCursor(_, _, _, _) => self,
            DisplayEvent::Clear(top_left, bottom_right, full_screen) => {
                if full_screen {
                    TextDisplayState { text0: empty_text(), text1: empty_text(), ..self }
                } else {
                    self.with_written_text(
                        cleared(
                            self.written_text(),
                            (top_left.x / CHAR_WIDTH) as int,
                            (bottom_right.x + CHAR_WIDTH - 1) / (CHAR_WIDTH as int),
                            (top_left.y / CHAR_HEIGHT) as int,
                            (bottom_right.y + CHAR_HEIGHT - 1) / (CHAR_HEIGHT as int),
                        ),
                    )
                }
            },
            DisplayEvent::Reset => Self::initial(),
        }
    }
}

/// A display which only shows text, with 8x16 pixels characters, and with two layers.
pub struct TextDisplay {
    on: bool,
    read_layer: u32,
    write_layer: u32,
    textbuffer0: [u8; 3000],
    textbuffer1: [u8; 3000],
    empty_textbuffer: [u8; 3000],
}

impl View for TextDisplay {
    type V = TextDisplayState;

    closed spec fn view(&self) -> TextDisplayState {
        TextDisplayState {
            on: self.on,
            read_layer: self.read_layer,
            write_layer: self.write_layer,
            text0: self.textbuffer0@,
            text1: self.textbuffer1@,
        }
    }
}

impl TextDisplay {
    #[verifier::type_invariant]
    spec fn empty_is_empty(self) -> bool {
        self.empty_textbuffer@ == empty_text()
    }

    /// The display with the state `s`.
    pub closed spec fn from_state(s: TextDisplayState) -> Self {
        TextDisplay {
            on: s.on,
            read_layer: s.read_layer,
            write_layer: s.write_layer,
            textbuffer0: text_array(s.text0),
            textbuffer1: text_array(s.text1),
            empty_textbuffer: text_array(empty_text()),
        }
    }

    /// The display with the state `s` has this state.
    pub proof fn lemma_from_state(s: TextDisplayState)
        requires
            s.text0.len() == TEXT_SIZE,
            s.text1.len() == TEXT_SIZE,
        ensures
            Self::from_state(s)@ == s,
    {
        lemma_text_array(s.text0);
        lemma_text_array(s.text1);
    }

    /// A display is the display of its state.
    proof fn lemma_of_state(self)
        requires
            self.empty_textbuffer@ == empty_text(),
        ensures
            Self::from_state(self@) == self,
    {
        lemma_text_array_of(self.textbuffer0);
        lemma_text_array_of(self.textbuffer1);
        lemma_text_array_of(self.empty_textbuffer);
    }

    pub fn new() -> (r: Self)
        ensures
            r@ == TextDisplayState::initial(),
    {
        // See https://en.wikipedia.org/wiki/Linear_congruential_generator.
        let mut rand: u32 = 1;
        let mut textbuffer0 = [0u8; 3000];
        let mut textbuffer1 = [0u8; 3000];
        let mut i: usize = 0;
        while i < TEXT_SIZE
            invariant
                i <= TEXT_SIZE,
                rand == crate::bus::lcg(1, i as nat),
                forall|j: int| 0 <= j < i ==> #[trigger] textbuffer0@[j] == crate::bus::lcg(1, j as nat) as u8,
                forall|j: int| 0 <= j < i ==> #[trigger] textbuffer1@[j] == (crate::bus::lcg(1, j as nat) >> 8) as u8,
            decreases TEXT_SIZE - i,
        {
            textbuffer0[i] = rand as u8;
            textbuffer1[i] = (rand >> 8) as u8;
            rand = rand.wrapping_mul(crate::bus::LCG_A).wrapping_add(crate::bus::LCG_B);
            i = i + 1;
        }
        let empty_textbuffer = [0u8; 3000];
        assert(empty_textbuffer@ =~= empty_text());
        assert(textbuffer0@ =~= initial_text0());
        assert(textbuffer1@ =~= initial_text1());
        TextDisplay { on: false, read_layer: 0, write_layer: 0, textbuffer0, textbuffer1, empty_textbuffer }
    }

    /// The characters of the text layer 0.
    pub fn textbuffer0(&self) -> (r: &[u8])
        ensures
            r@ == self@.text0,
    {
        self.textbuffer0.as_slice()
    }

    /// The characters of the text layer 1.
    pub fn textbuffer1(&self) -> (r: &[u8])
        ensures
            r@ == self@.text1,
    {
        self.textbuffer1.as_slice()
    }

    /// The characters of the text layer which is shown, or 0s if the display is off.
    pub fn get_textbuffer(&self) -> (r: &[u8])
        ensures
            r@ == (if self@.on {
                self@.shown_text()
            } else {
                empty_text()
            }),
    {
        proof {
            use_type_invariant(self);
        }
        if self.on {
            if self.read_layer == 1 {
                self.textbuffer1.as_slice()
            } else {
                self.textbuffer0.as_slice()
            }
        } else {
            self.empty_textbuffer.as_slice()
        }
    }

    /// The text shown by the display (see `text_of`), or an empty text if the display is off.
    pub fn get_text(&self) -> (r: String)
        ensures
            r@ == (if self@.on {
                text_of(self@.shown_text())
            } else {
                Seq::<char>::empty()
            }),
    {
        let mut result = String::new();
        if self.on {
            let text: &[u8; 3000] = if self.read_layer == 1 {
                &self.textbuffer1
            } else {
                &self.textbuffer0
            };
            let mut pending: usize = 0;
            let mut y: usize = 0;
            while y < 30
                invariant
                    y <= 30,
                    pending <= y,
                    text@ == self@.shown_text(),
                    text_lines(text@, y as nat) == result@ + newlines(pending as nat),
                    result@.len() == 0 || (result@.last() != ' ' && result@.last() != '\n'),
                decreases 30 - y,
            {
                let line_start: usize = y * 100;
                let ghost raw = raw_line(text@, y as int);
                let mut len: usize = 100;
                while len > 0 && !(0x21 <= text[line_start + len - 1] && text[line_start + len - 1] <= 0x7E)
                    invariant
                        len <= 100,
                        y < 30,
                        line_start == y * 100,
                        raw == raw_line(text@, y as int),
                        forall|k: int| len <= k < 100 ==> #[trigger] raw[k] == ' ',
                    decreases len,
                {
                    len = len - 1;
                }
                proof {
                    lemma_trim_line(raw, len as int);
                }
                let ghost before = result@;
                if len > 0 {
                    let mut k: usize = 0;
                    while k < pending
                        invariant
                            k <= pending,
                            result@ == before + newlines(k as nat),
                        decreases pending - k,
                    {
                        push_char(&mut result, '\n');
                        k = k + 1;
                        assert(result@ =~= before + newlines(k as nat));
                    }
                    let mut x: usize = 0;
                    while x < len
                        invariant
                            x <= len <= 100,
                            y < 30,
                            line_start == y * 100,
                            raw == raw_line(text@, y as int),
                            result@ == before + newlines(pending as nat) + raw.take(x as int),
                        decreases len - x,
                    {
                        let c = text[line_start + x];
                        if 0x21 <= c && c <= 0x7E {
                            push_char(&mut result, c as char);
                        } else {
                            push_char(&mut result, ' ');
                        }
                        assert(result@ =~= before + newlines(pending as nat) + raw.take(x + 1));
                        x = x + 1;
                    }
                    pending = 1;
                    assert(text_lines(text@, (y + 1) as nat) =~= result@ + newlines(1));
                } else {
                    assert(text_lines(text@, (y + 1) as nat) =~= result@ + newlines((pending + 1) as nat));
                    pending = pending + 1;
                }
                y = y + 1;
            }
            proof {
                lemma_trim_newlines(result@, pending as nat);
            }
        }
        result
    }
}

impl Default for TextDisplay {
    fn default() -> (r: Self)
        ensures
            r@ == TextDisplayState::initial(),
    {
        Self::new()
    }
}

impl Display for TextDisplay {
    open spec fn after(&self, event: DisplayEvent) -> Self {
        Self::from_state(self@.after(event))
    }

    fn set_on(&mut self, on: bool)
        ensures
            final(self)@ == old(self)@.after(DisplayEvent::SetOn(on)),
    {
        proof {
            use_type_invariant(&*self);
        }
        self.on = on;
        proof {
            self.lemma_of_state();
        }
    }

    fn set_read_layer(&mut self, layer: u32)
        ensures
            final(self)@ == old(self)@.after(DisplayEvent::SetReadLayer(layer)),
    {
        proof {
            use_type_invariant(&*self);
        }
        self.read_layer = layer;
        proof {
            self.lemma_of_state();
        }
    }

    fn set_write_layer(&mut self, layer: u32)
        ensures
            final(self)@ == old(self)@.after(DisplayEvent::SetWriteLayer(layer)),
    {
        proof {
            use_type_invariant(&*self);
        }
        self.write_layer = layer;
        proof {
            self.lemma_of_state();
        }
    }

    fn draw_char(&mut self, x: u32, y: u32, c: u8, foreground: Color, background: Color)
        ensures
            final(self)@ == old(self)@.after(DisplayEvent::DrawChar(x, y, c, foreground, background)),
    {
        proof {
            use_type_invariant(&*self);
        }
        if x % CHAR_WIDTH == 0 && y % CHAR_HEIGHT == 0 {
            let x = x / CHAR_WIDTH;
            let y = y / CHAR_HEIGHT;
            let index = (x + y * TEXT_WIDTH) as usize;
            if self.write_layer == 1 {
                self.textbuffer1[index] = c;
            } else {
                self.textbuffer0[index] = c;
            }
        }
        proof {
            self.lemma_of_state();
            assert(self@ =~= old(self)@.after(DisplayEvent::DrawChar(x, y, c, foreground, background)));
        }
    }

    fn set_cursor(&mut self, x: u32, y: u32, enabled: bool, blink_time: Option<u8>)
        ensures
            final(self)@ == old(self)@,
    {
        proof {
            use_type_invariant(&*self);
            self.lemma_of_state();
        }
    }

    fn clear(&mut self, top_left: &Point, bottom_right: &Point, full_screen: bool)
        ensures
            final(self)@ == old(self)@.after(DisplayEvent::Clear(*top_left, *bottom_right, full_screen)),
    {
        proof {
            use_type_invariant(&*self);
        }
        if full_screen {
            self.textbuffer0 = [0u8; 3000];
            self.textbuffer1 = [0u8; 3000];
            proof {
                assert(self.textbuffer0@ =~= empty_text());
                assert(self.textbuffer1@ =~= empty_text());
                self.lemma_of_state();
            }
            return;
        }
        let x_start = top_left.x / CHAR_WIDTH;
        let x_end = (bottom_right.x + CHAR_WIDTH - 1) / CHAR_WIDTH;
        let y_start = top_left.y / CHAR_HEIGHT;
        let y_end = (bottom_right.y + CHAR_HEIGHT - 1) / CHAR_HEIGHT;
        if self.write_layer == 1 {
            clear_rectangle(&mut self.textbuffer1, x_start, x_end, y_start, y_end);
        } else {
            clear_rectangle(&mut self.textbuffer0, x_start, x_end, y_start, y_end);
        }
        proof {
            self.lemma_of_state();
            assert(self@ =~= old(self)@.after(DisplayEvent::Clear(*top_left, *bottom_right, full_screen)));
        }
    }

    fn reset(&mut self)
        ensures
            final(self)@ == TextDisplayState::initial(),
    {
        *self = TextDisplay::new();
        proof {
            use_type_invariant(&*self);
            self.lemma_of_state();
        }
    }
}

/// Sets to 0 the characters of columns `x_start..x_end` and rows `y_start..y_end` of `text`.
fn clear_rectangle(text: &mut [u8; 3000], x_start: u32, x_end: u32, y_start: u32, y_end: u32)
    requires
        x_end <= TEXT_WIDTH,
        y_end <= TEXT_HEIGHT,
    ensures
        final(text)@ == cleared(old(text)@, x_start as int, x_end as int, y_start as int, y_end as int),
    no_unwind
{
    let mut y = y_start;
    while y < y_end
        invariant
            x_end <= TEXT_WIDTH,
            y_end <= TEXT_HEIGHT,
            y_start <= y,
            y <= y_end || y == y_start,
            text@ == cleared(old(text)@, x_start as int, x_end as int, y_start as int, y as int),
        decreases y_end - y,
    {
        let mut x = x_start;
        while x < x_end
            invariant
                x_end <= TEXT_WIDTH,
                y_start <= y < y_end <= TEXT_HEIGHT,
                x_start <= x,
                x <= x_end || x == x_start,
                text@.len() == TEXT_SIZE,
                forall|i: int|
                    0 <= i < TEXT_SIZE ==> #[trigger] text@[i] == (if i / 100 == y && x_start <= i % 100 < x {
                        0u8
                    } else {
                        cleared(old(text)@, x_start as int, x_end as int, y_start as int, y as int)[i]
                    }),
            decreases x_end - x,
        {
            let index = (x + y * TEXT_WIDTH) as usize;
            text[index] = 0;
            assert(index as int / 100 == y && index as int % 100 == x);
            x = x + 1;
        }
        assert(text@ =~= cleared(old(text)@, x_start as int, x_end as int, y_start as int, y + 1));
        y = y + 1;
    }
    assert(text@ =~= cleared(old(text)@, x_start as int, x_end as int, y_start as int, y_end as int));
}

/// `value`, but at most `max_value`.
pub open spec fn at_most(value: u32, max_value: u32) -> u32 {
    if value < max_value {
        value
    } else {
        max_value
    }
}

/// A register with its low byte replaced with `value`, but at most `max_value`.
pub open spec fn with_low(register: u32, value: u8, max_value: u32) -> u32 {
    at_most((register & 0xFF00) | (value as u32), max_value)
}

/// A register with its second byte replaced with `value`, and its upper bytes cleared, but at
/// most `max_value`.
pub open spec fn with_high(register: u32, value: u8, max_value: u32) -> u32 {
    at_most((register & 0x00FF) | ((value as u32) << 8u32), max_value)
}

/// The `bits` most significant bits of `register`.
pub open spec fn high_bits(register: u8, bits: u8) -> u8 {
    register >> ((8 - bits) as u8)
}

/// The `bits` least significant bits of `value`, moved to the most significant bits.
pub open spec fn to_high_bits(value: u8, bits: u8) -> u8 {
    ((value & (((1u8 << bits) - 1) as u8)) << ((8 - bits) as u8)) as u8
}

/// Whether `register` is the power control, the memory read write command, or one of the
/// registers of the display timings.
pub open spec fn is_timing_register(register: u8) -> bool {
    register == POWER_AND_DISPLAY_CONTROL || register == MEMORY_READ_WRITE_COMMAND || register
        == PIXEL_CLOCK_SETTING || register == SYSTEM_CONFIGURATION || register
        == LCD_HORIZONTAL_DISPLAY_WIDTH || register == LCD_HORIZONTAL_NON_DISPLAY_PERIOD_FINE_TUNING
        || register == LCD_HORIZONTAL_NON_DISPLAY_PERIOD || register == HSYNC_START_POSITION
        || register == LCD_VERTICAL_DISPLAY_HEIGHT0 || register == LCD_VERTICAL_DISPLAY_HEIGHT1
        || register == LCD_VERTICAL_NON_DISPLAY_PERIOD0 || register
        == LCD_VERTICAL_NON_DISPLAY_PERIOD1 || register == VSYNC_START_POSITION0 || register
        == VSYNC_START_POSITION1
}

/// Whether `register` is one of the registers of the layers, the cursor or the active window.
pub open spec fn is_window_register(register: u8) -> bool {
    register == DISPLAY_CONFIGURATION_REGISTER || (FONT_WRITE_CURSOR_HORIZONTAL0 <= register
        <= FONT_WRITE_CURSOR_VERTICAL1) || (HORIZONTAL_START_OF_ACTIVE_WINDOW0 <= register
        <= VERTICAL_END_OF_ACTIVE_WINDOW1) || register == MEMORY_WRITE_CONTROL0 || register
        == MEMORY_WRITE_CONTROL1 || register == BLINK_TIME_CONTROL || register
        == LAYER_TRANSPARENCY_REGISTER0
}

/// 2 to the power `k`.
pub open spec fn power_of_two(k: u32) -> u32 {
    1u32 << k
}

pub open spec fn eight_bits_per_pixel() -> Color {
    Color { r: 3, g: 3, b: 2 }
}

pub open spec fn sixteen_bits_per_pixel() -> Color {
    Color { r: 5, g: 6, b: 5 }
}

/// An emulator of a TFT display controller with an RA8875 chip, supporting only the text mode,
/// connected to a screen. See the RA8875 specification.
pub struct GraphicsCard<D: Display> {
    pub display: D,
    pub ready: bool,
    pub current_register: u8,
    pub lcd_on: bool,
    pub pixel_clock_setting: u8,
    pub system_configuration: u8,
    pub lcd_horizontal_display_width: u8,
    pub lcd_horizontal_non_display_period_fine_tuning: u8,
    pub lcd_horizontal_non_display_period: u8,
    pub hsync_start_position: u8,
    pub lcd_vertical_display_height: u32,
    pub lcd_vertical_non_display_period: u32,
    pub vsync_start_position: u32,
    pub display_configuration: u8,
    pub text_cursor: Point,
    pub active_window_start: Point,
    pub active_window_end: Point,
    pub memory_write_control0: u8,
    pub memory_write_control1: u8,
    pub blink_time: u8,
    pub layer_transparency: u8,
    pub background_color: Color,
    pub foreground_color: Color,
    pub bits_per_pixel: Color,
    pub pll_control1: u8,
    pub pll_control2: u8,
    pub pwm1_control: u8,
    pub pwm1_duty_cyle: u8,
    pub gpio_on: bool,
}

impl<D: Display> GraphicsCard<D> {
    /// The invariant of the registers: the active window is in the screen, the registers have
    /// their number of bits, and the color components have between 1 and 7 bits.
    pub open spec fn wf(self) -> bool {
        &&& self.active_window_start.x <= PIXEL_WIDTH - CHAR_WIDTH
        &&& self.active_window_start.y <= PIXEL_HEIGHT - CHAR_HEIGHT
        &&& self.active_window_end.x <= PIXEL_WIDTH
        &&& self.active_window_end.y <= PIXEL_HEIGHT
        &&& self.text_cursor.x <= U10_MAX
        &&& self.text_cursor.y <= U9_MAX
        &&& self.lcd_vertical_non_display_period <= U9_MAX
        &&& self.vsync_start_position <= U9_MAX
        &&& 1 <= self.bits_per_pixel.r <= 7
        &&& 1 <= self.bits_per_pixel.g <= 7
        &&& 1 <= self.bits_per_pixel.b <= 7
        &&& self.pll_control2 <= PLL_CONTROL2_BITS
    }

    /// A graphics card after a reset, connected to `display`.
    pub open spec fn initial(display: D) -> Self {
        GraphicsCard {
            display,
            ready: false,
            current_register: 0,
            lcd_on: false,
            pixel_clock_setting: 0,
            system_configuration: 0,
            lcd_horizontal_display_width: 0,
            lcd_horizontal_non_display_period_fine_tuning: 0,
            lcd_horizontal_non_display_period: 0,
            hsync_start_position: 0,
            lcd_vertical_display_height: 0,
            lcd_vertical_non_display_period: 0,
            vsync_start_position: 0,
            display_configuration: 0,
            text_cursor: Point { x: 0, y: 0 },
            active_window_start: Point { x: 0, y: 0 },
            active_window_end: Point { x: 0, y: 0 },
            memory_write_control0: 0,
            memory_write_control1: 0,
            blink_time: 0,
            layer_transparency: 0,
            background_color: Color { r: 0, g: 0, b: 0 },
            foreground_color: Color { r: 0xF8, g: 0xFC, b: 0xF8 },
            bits_per_pixel: eight_bits_per_pixel(),
            pll_control1: 0x07,
            pll_control2: 0x03,
            pwm1_control: 0,
            pwm1_duty_cyle: 0,
            gpio_on: false,
        }
    }

    /// Whether the screen is on: the RA8875 GPIO pin is connected to the TFT ON/OFF input (see
    /// the R8875 schematic diagram), and the backlight must be on too: if PWM1 is enabled, the
    /// PWM1 fixed frequency must not be selected (and the duty cycle must not be 0), otherwise
    /// PWM1_OUT must be HIGH.
    pub open spec fn is_display_on(self) -> bool {
        if !self.lcd_on || !self.gpio_on {
            false
        } else if self.pwm1_control & 0x80 != 0 {
            self.pwm1_control & 0x10 == 0 && self.pwm1_duty_cyle != 0
        } else {
            self.pwm1_control & 0x40 != 0
        }
    }

    /// The value read from the current register.
    pub open spec fn read_value(self) -> Result<u8, Fault> {
        let register = self.current_register;
        if register == POWER_AND_DISPLAY_CONTROL {
            Ok(if self.lcd_on { 0x80u8 } else { 0u8 })
        } else if register == PIXEL_CLOCK_SETTING {
            Ok(self.pixel_clock_setting)
        } else if register == SYSTEM_CONFIGURATION {
            Ok(self.system_configuration)
        } else if register == LCD_HORIZONTAL_DISPLAY_WIDTH {
            Ok(self.lcd_horizontal_display_width)
        } else if register == LCD_HORIZONTAL_NON_DISPLAY_PERIOD_FINE_TUNING {
            Ok(self.lcd_horizontal_non_display_period_fine_tuning)
        } else if register == LCD_HORIZONTAL_NON_DISPLAY_PERIOD {
            Ok(self.lcd_horizontal_non_display_period)
        } else if register == HSYNC_START_POSITION {
            Ok(self.hsync_start_position)
        } else if register == LCD_VERTICAL_DISPLAY_HEIGHT0 {
            Ok(self.lcd_vertical_display_height as u8)
        } else if register == LCD_VERTICAL_DISPLAY_HEIGHT1 {
            Ok((self.lcd_vertical_display_height >> 8u32) as u8)
        } else if register == LCD_VERTICAL_NON_DISPLAY_PERIOD0 {
            Ok(self.lcd_vertical_non_display_period as u8)
        } else if register == LCD_VERTICAL_NON_DISPLAY_PERIOD1 {
            Ok((self.lcd_vertical_non_display_period >> 8u32) as u8)
        } else if register == VSYNC_START_POSITION0 {
            Ok(self.vsync_start_position as u8)
        } else if register == VSYNC_START_POSITION1 {
            Ok((self.vsync_start_position >> 8u32) as u8)
        } else if register == DISPLAY_CONFIGURATION_REGISTER {
            Ok(self.display_configuration)
        } else if register == FONT_WRITE_CURSOR_HORIZONTAL0 {
            Ok(self.text_cursor.x as u8)
        } else if register == FONT_WRITE_CURSOR_HORIZONTAL1 {
            Ok((self.text_cursor.x >> 8u32) as u8)
        } else if register == FONT_WRITE_CURSOR_VERTICAL0 {
            Ok(self.text_cursor.y as u8)
        } else if register == FONT_WRITE_CURSOR_VERTICAL1 {
            Ok((self.text_cursor.y >> 8u32) as u8)
        } else if register == HORIZONTAL_START_OF_ACTIVE_WINDOW0 {
            Ok(self.active_window_start.x as u8)
        } else if register == HORIZONTAL_START_OF_ACTIVE_WINDOW1 {
            Ok((self.active_window_start.x >> 8u32) as u8)
        } else if register == VERTICAL_START_OF_ACTIVE_WINDOW0 {
            Ok(self.active_window_start.y as u8)
        } else if register == VERTICAL_START_OF_ACTIVE_WINDOW1 {
            Ok((self.active_window_start.y >> 8u32) as u8)
        } else if register == HORIZONTAL_END_OF_ACTIVE_WINDOW0 {
            Ok(self.active_window_end.x as u8)
        } else if register == HORIZONTAL_END_OF_ACTIVE_WINDOW1 {
            Ok((self.active_window_end.x >> 8u32) as u8)
        } else if register == VERTICAL_END_OF_ACTIVE_WINDOW0 {
            Ok(self.active_window_end.y as u8)
        } else if register == VERTICAL_END_OF_ACTIVE_WINDOW1 {
            Ok((self.active_window_end.y >> 8u32) as u8)
        } else if register == MEMORY_WRITE_CONTROL0 {
            Ok(self.memory_write_control0)
        } else if register == MEMORY_WRITE_CONTROL1 {
            Ok(self.memory_write_control1)
        } else if register == BLINK_TIME_CONTROL {
            Ok(self.blink_time)
        } else if register == LAYER_TRANSPARENCY_REGISTER0 {
            Ok(self.layer_transparency)
        } else if register == BACKGROUND_COLOR0 {
            Ok(high_bits(self.background_color.r, self.bits_per_pixel.r))
        } else if register == BACKGROUND_COLOR1 {
            Ok(high_bits(self.background_color.g, self.bits_per_pixel.g))
        } else if register == BACKGROUND_COLOR2 {
            Ok(high_bits(self.background_color.b, self.bits_per_pixel.b))
        } else if register == FOREGROUND_COLOR0 {
            Ok(high_bits(self.foreground_color.r, self.bits_per_pixel.r))
        } else if register == FOREGROUND_COLOR1 {
            Ok(high_bits(self.foreground_color.g, self.bits_per_pixel.g))
        } else if register == FOREGROUND_COLOR2 {
            Ok(high_bits(self.foreground_color.b, self.bits_per_pixel.b))
        } else if register == PLL_CONTROL1 {
            Ok(self.pll_control1)
        } else if register == PLL_CONTROL2 {
            Ok(self.pll_control2)
        } else if register == PWM1_CONTROL {
            Ok(self.pwm1_control)
        } else if register == PWM1_DUTY_CYCLE {
            Ok(self.pwm1_duty_cyle)
        } else if register == MEMORY_CLEAR_CONTROL {
            Ok(0u8)
        } else if register == EXTRA_GENERAL_PURPOSE_IO {
            Ok(if self.gpio_on { 1u8 } else { 0u8 })
        } else {
            // Including MEMORY_READ_WRITE_COMMAND, whose read is not supported.
            Err(Fault::UnsupportedRegister(register as u32))
        }
    }

    /// This card after telling the display whether it is on.
    pub open spec fn with_display_on(self) -> Self {
        GraphicsCard { display: self.display.after(DisplayEvent::SetOn(self.is_display_on())), ..self }
    }

    /// This card after telling the display the cursor position and state.
    pub open spec fn with_cursor(self) -> Self {
        GraphicsCard {
            display: self.display.after(
                DisplayEvent::SetCursor(
                    self.text_cursor.x,
                    self.text_cursor.y,
                    self.memory_write_control0 & 0x40 != 0,
                    if self.memory_write_control0 & 0x20 != 0 {
                        Some(self.blink_time)
                    } else {
                        None
                    },
                ),
            ),
            ..self
        }
    }

    /// This card after telling the display which layer is read and which one is written (layer
    /// 1 only in multilayer mode).
    pub open spec fn with_layers(self) -> Self {
        let multilayer = self.display_configuration & 0x80 != 0;
        let read_layer: u32 = if multilayer && self.layer_transparency & 0x01 != 0 { 1 } else { 0 };
        let write_layer: u32 = if multilayer && self.memory_write_control1 & 0x01 != 0 {
            1
        } else {
            0
        };
        GraphicsCard {
            display: self.display.after(DisplayEvent::SetReadLayer(read_layer)).after(
                DisplayEvent::SetWriteLayer(write_layer),
            ),
            ..self
        }
    }

    /// Whether the registers describe the timings of the 800x480 TFT screen, in text mode (see
    /// Section 7.2 Display Timing characteristics in the TFT Specification document, and Note 3
    /// in Section 5-9 "PLL Setting Registers" of the RA8875 specification, with a 20MHz
    /// crystal). The back porches include the pulse widths (8 and 1 by default).
    pub open spec fn timings_ok(self) -> bool {
        let width_pixels = (self.lcd_horizontal_display_width + 1) * 8;
        let horizontal_non_display_pixels = (self.lcd_horizontal_non_display_period + 1) * 8 + (
        self.lcd_horizontal_non_display_period_fine_tuning & 0xF) + 2;
        let hsync_start_pixels = (self.hsync_start_position + 1) * 8;
        let height_pixels = self.lcd_vertical_display_height + 1;
        let vertical_non_display_pixels = self.lcd_vertical_non_display_period + 1;
        let vsync_start_pixels = self.vsync_start_position + 1;
        let horizontal_back_porch = horizontal_non_display_pixels + 8;
        let horizontal_front_porch = hsync_start_pixels;
        let horizontal_period = horizontal_back_porch + width_pixels + horizontal_front_porch;
        let vertical_back_porch = vertical_non_display_pixels + 1;
        let vertical_front_porch = vsync_start_pixels;
        let vertical_period = vertical_back_porch + height_pixels + vertical_front_porch;
        let pll_divm = (self.pll_control1 >> 7u8) as int;
        let pll_divn = (self.pll_control1 & 0x1F) as int;
        let system_clock = CRYSTAL_FREQUENCY * (pll_divn + 1) / ((pll_divm + 1) * power_of_two(
            self.pll_control2 as u32,
        ));
        let pixel_clock = system_clock / (power_of_two((self.pixel_clock_setting & 0x3) as u32) as int);
        &&& width_pixels == PIXEL_WIDTH
        &&& height_pixels == PIXEL_HEIGHT
        &&& 862 <= horizontal_period <= 1200
        &&& 16 <= horizontal_back_porch <= 354
        &&& 16 <= horizontal_front_porch <= 354
        &&& 510 <= vertical_period <= 650
        &&& 7 <= vertical_back_porch <= 147
        &&& 7 <= vertical_front_porch <= 147
        &&& self.memory_write_control0 & TEXT_MODE != 0
        &&& pll_divn >= 5
        &&& self.pixel_clock_setting & 0x80 != 0
        &&& 30000000 <= pixel_clock < 50000000
    }

    /// This card after an update of its status (the number of bits per pixel, and whether it
    /// is ready to display text), or the reason why its registers are not supported.
    pub open spec fn with_status(self) -> (Self, Result<(), Fault>) {
        if self.lcd_horizontal_display_width as u32 >= PIXEL_WIDTH / 8 {
            (
                self,
                Err(
                    Fault::UnsupportedValue(
                        LCD_HORIZONTAL_DISPLAY_WIDTH as u32,
                        self.lcd_horizontal_display_width as u32,
                    ),
                ),
            )
        } else if self.lcd_vertical_display_height >= PIXEL_HEIGHT {
            (
                self,
                Err(
                    Fault::UnsupportedValue(
                        LCD_VERTICAL_DISPLAY_HEIGHT0 as u32,
                        self.lcd_vertical_display_height,
                    ),
                ),
            )
        } else {
            let card = GraphicsCard {
                bits_per_pixel: if self.system_configuration & 0x08 != 0 {
                    sixteen_bits_per_pixel()
                } else {
                    eight_bits_per_pixel()
                },
                ..self
            };
            if self.pll_control1 & 0x1F == 0 {
                (card, Err(Fault::UnsupportedValue(PLL_CONTROL1 as u32, self.pll_control1 as u32)))
            } else {
                (GraphicsCard { ready: card.timings_ok(), ..card }, Ok(()))
            }
        }
    }

    /// This card after writing the character `c` at the cursor position, in the active window,
    /// if it is ready. The cursor then moves to the next position in the active window.
    pub open spec fn after_char(self, c: u8) -> Self {
        if !self.ready {
            self
        } else {
            let start = self.active_window_start;
            let end = self.active_window_end;
            let (x1, y1) = if self.text_cursor.x + CHAR_WIDTH > end.x + 1 {
                (start.x, (self.text_cursor.y + CHAR_HEIGHT) as u32)
            } else {
                (self.text_cursor.x, self.text_cursor.y)
            };
            let y2 = if y1 + CHAR_HEIGHT > end.y + 1 {
                start.y
            } else {
                y1
            };
            let display = self.display.after(
                DisplayEvent::DrawChar(x1, y2, c, self.foreground_color, self.background_color),
            );
            let (x3, y3) = if x1 + CHAR_WIDTH < start.x {
                (start.x, (y2 + CHAR_HEIGHT) as u32)
            } else {
                ((x1 + CHAR_WIDTH) as u32, y2)
            };
            let y4 = if y3 < start.y {
                start.y
            } else {
                y3
            };
            GraphicsCard { display, text_cursor: Point { x: x3, y: y4 }, ..self }.with_cursor()
        }
    }

    /// This card after clearing the active window, or the whole screen.
    pub open spec fn with_clear(self, full_screen: bool) -> Self {
        GraphicsCard {
            display: self.display.after(
                DisplayEvent::Clear(self.active_window_start, self.active_window_end, full_screen),
            ),
            ..self
        }
    }

    /// This card after writing `value` to the current register, or the reason why the value or
    /// the register is not supported.
    pub open spec fn after_write(self, value: u8) -> (Self, Result<(), Fault>) {
        let register = self.current_register;
        if register == POWER_AND_DISPLAY_CONTROL {
            if value & POWER_AND_DISPLAY_CONTROL_UNSUPPORTED_BITS != 0 {
                (self, Err(Fault::UnsupportedValue(register as u32, value as u32)))
            } else {
                (GraphicsCard { lcd_on: value & 0x80 != 0, ..self }.with_display_on(), Ok(()))
            }
        } else if register == MEMORY_READ_WRITE_COMMAND {
            (self.after_char(value), Ok(()))
        } else if register == PIXEL_CLOCK_SETTING {
            GraphicsCard { pixel_clock_setting: value & PIXEL_CLOCK_SETTING_BITS, ..self }.with_status()
        } else if register == SYSTEM_CONFIGURATION {
            GraphicsCard { system_configuration: value & SYSTEM_CONFIGURATION_BITS, ..self }.with_status()
        } else if register == LCD_HORIZONTAL_DISPLAY_WIDTH {
            GraphicsCard { lcd_horizontal_display_width: value, ..self }.with_status()
        } else if register == LCD_HORIZONTAL_NON_DISPLAY_PERIOD_FINE_TUNING {
            GraphicsCard {
                lcd_horizontal_non_display_period_fine_tuning: value
                    & LCD_HORIZONTAL_NON_DISPLAY_PERIOD_FINE_TUNING_BITS,
                ..self
            }.with_status()
        } else if register == LCD_HORIZONTAL_NON_DISPLAY_PERIOD {
            GraphicsCard {
                lcd_horizontal_non_display_period: value & LCD_HORIZONTAL_NON_DISPLAY_PERIOD_BITS,
                ..self
            }.with_status()
        } else if register == HSYNC_START_POSITION {
            GraphicsCard { hsync_start_position: value & HSYNC_START_POSITION_BITS, ..self }.with_status()
        } else if register == LCD_VERTICAL_DISPLAY_HEIGHT0 {
            GraphicsCard {
                lcd_vertical_display_height: with_low(self.lcd_vertical_display_height, value, u32::MAX),
                ..self
            }.with_status()
        } else if register == LCD_VERTICAL_DISPLAY_HEIGHT1 {
            GraphicsCard {
                lcd_vertical_display_height: with_high(self.lcd_vertical_display_height, value, u32::MAX),
                ..self
            }.with_status()
        } else if register == LCD_VERTICAL_NON_DISPLAY_PERIOD0 {
            GraphicsCard {
                lcd_vertical_non_display_period: with_low(self.lcd_vertical_non_display_period, value, U9_MAX),
                ..self
            }.with_status()
        } else if register == LCD_VERTICAL_NON_DISPLAY_PERIOD1 {
            GraphicsCard {
                lcd_vertical_non_display_period: with_high(self.lcd_vertical_non_display_period, value, U9_MAX),
                ..self
            }.with_status()
        } else if register == VSYNC_START_POSITION0 {
            GraphicsCard {
                vsync_start_position: with_low(self.vsync_start_position, value, U9_MAX),
                ..self
            }.with_status()
        } else if register == VSYNC_START_POSITION1 {
            GraphicsCard {
                vsync_start_position: with_high(self.vsync_start_position, value, U9_MAX),
                ..self
            }.with_status()
        } else if register == DISPLAY_CONFIGURATION_REGISTER {
            if value & !DISPLAY_CONFIGURATION_BITS != 0 {
                (self, Err(Fault::UnsupportedValue(register as u32, value as u32)))
            } else {
                (GraphicsCard { display_configuration: value, ..self }.with_layers(), Ok(()))
            }
        } else if register == FONT_WRITE_CURSOR_HORIZONTAL0 {
            (GraphicsCard {
                text_cursor: Point { x: with_low(self.text_cursor.x, value, U10_MAX), ..self.text_cursor },
                ..self
            }.with_cursor(), Ok(()))
        } else if register == FONT_WRITE_CURSOR_HORIZONTAL1 {
            (GraphicsCard {
                text_cursor: Point { x: with_high(self.text_cursor.x, value, U10_MAX), ..self.text_cursor },
                ..self
            }.with_cursor(), Ok(()))
        } else if register == FONT_WRITE_CURSOR_VERTICAL0 {
            (GraphicsCard {
                text_cursor: Point { y: with_low(self.text_cursor.y, value, U9_MAX), ..self.text_cursor },
                ..self
            }.with_cursor(), Ok(()))
        } else if register == FONT_WRITE_CURSOR_VERTICAL1 {
            (GraphicsCard {
                text_cursor: Point { y: with_high(self.text_cursor.y, value, U9_MAX), ..self.text_cursor },
                ..self
            }.with_cursor(), Ok(()))
        } else if register == HORIZONTAL_START_OF_ACTIVE_WINDOW0 {
            (GraphicsCard {
                active_window_start: Point {
                    x: with_low(self.active_window_start.x, value, (PIXEL_WIDTH - CHAR_WIDTH) as u32),
                    ..self.active_window_start
                },
                ..self
            }, Ok(()))
        } else if register == HORIZONTAL_START_OF_ACTIVE_WINDOW1 {
            (GraphicsCard {
                active_window_start: Point {
                    x: with_high(self.active_window_start.x, value, (PIXEL_WIDTH - CHAR_WIDTH) as u32),
                    ..self.active_window_start
                },
                ..self
            }, Ok(()))
        } else if register == VERTICAL_START_OF_ACTIVE_WINDOW0 {
            (GraphicsCard {
                active_window_start: Point {
                    y: with_low(self.active_window_start.y, value, (PIXEL_HEIGHT - CHAR_HEIGHT) as u32),
                    ..self.active_window_start
                },
                ..self
            }, Ok(()))
        } else if register == VERTICAL_START_OF_ACTIVE_WINDOW1 {
            (GraphicsCard {
                active_window_start: Point {
                    y: with_high(self.active_window_start.y, value, (PIXEL_HEIGHT - CHAR_HEIGHT) as u32),
                    ..self.active_window_start
                },
                ..self
            }, Ok(()))
        } else if register == HORIZONTAL_END_OF_ACTIVE_WINDOW0 {
            (GraphicsCard {
                active_window_end: Point { x: with_low(self.active_window_end.x, value, PIXEL_WIDTH), ..self.active_window_end },
                ..self
            }, Ok(()))
        } else if register == HORIZONTAL_END_OF_ACTIVE_WINDOW1 {
            (GraphicsCard {
                active_window_end: Point { x: with_high(self.active_window_end.x, value, PIXEL_WIDTH), ..self.active_window_end },
                ..self
            }, Ok(()))
        } else if register == VERTICAL_END_OF_ACTIVE_WINDOW0 {
            (GraphicsCard {
                active_window_end: Point { y: with_low(self.active_window_end.y, value, PIXEL_HEIGHT), ..self.active_window_end },
                ..self
            }, Ok(()))
        } else if register == VERTICAL_END_OF_ACTIVE_WINDOW1 {
            (GraphicsCard {
                active_window_end: Point { y: with_high(self.active_window_end.y, value, PIXEL_HEIGHT), ..self.active_window_end },
                ..self
            }, Ok(()))
        } else if register == MEMORY_WRITE_CONTROL0 {
            GraphicsCard { memory_write_control0: value & MEMORY_WRITE_CONTROL0_BITS, ..self }.with_cursor().with_status()
        } else if register == MEMORY_WRITE_CONTROL1 {
            if value & !MEMORY_WRITE_CONTROL1_BITS != 0 {
                (self, Err(Fault::UnsupportedValue(register as u32, value as u32)))
            } else {
                (GraphicsCard { memory_write_control1: value, ..self }.with_layers(), Ok(()))
            }
        } else if register == BLINK_TIME_CONTROL {
            (GraphicsCard { blink_time: value, ..self }.with_cursor(), Ok(()))
        } else if register == LAYER_TRANSPARENCY_REGISTER0 {
            if value & !LAYER_TRANSPARENCY_BITS != 0 {
                (self, Err(Fault::UnsupportedValue(register as u32, value as u32)))
            } else {
                (GraphicsCard { layer_transparency: value, ..self }.with_layers(), Ok(()))
            }
        } else if register == BACKGROUND_COLOR0 {
            (GraphicsCard {
                background_color: Color { r: to_high_bits(value, self.bits_per_pixel.r), ..self.background_color },
                ..self
            }, Ok(()))
        } else if register == BACKGROUND_COLOR1 {
            (GraphicsCard {
                background_color: Color { g: to_high_bits(value, self.bits_per_pixel.g), ..self.background_color },
                ..self
            }, Ok(()))
        } else if register == BACKGROUND_COLOR2 {
            (GraphicsCard {
                background_color: Color { b: to_high_bits(value, self.bits_per_pixel.b), ..self.background_color },
                ..self
            }, Ok(()))
        } else if register == FOREGROUND_COLOR0 {
            (GraphicsCard {
                foreground_color: Color { r: to_high_bits(value, self.bits_per_pixel.r), ..self.foreground_color },
                ..self
            }, Ok(()))
        } else if register == FOREGROUND_COLOR1 {
            (GraphicsCard {
                foreground_color: Color { g: to_high_bits(value, self.bits_per_pixel.g), ..self.foreground_color },
                ..self
            }, Ok(()))
        } else if register == FOREGROUND_COLOR2 {
            (GraphicsCard {
                foreground_color: Color { b: to_high_bits(value, self.bits_per_pixel.b), ..self.foreground_color },
                ..self
            }, Ok(()))
        } else if register == PLL_CONTROL1 {
            GraphicsCard { pll_control1: value & PLL_CONTROL1_BITS, ..self }.with_status()
        } else if register == PLL_CONTROL2 {
            GraphicsCard { pll_control2: value & PLL_CONTROL2_BITS, ..self }.with_status()
        } else if register == PWM1_CONTROL {
            (GraphicsCard { pwm1_control: value & PWM1_CONTROL_BITS, ..self }.with_display_on(), Ok(()))
        } else if register == PWM1_DUTY_CYCLE {
            (GraphicsCard { pwm1_duty_cyle: value, ..self }.with_display_on(), Ok(()))
        } else if register == MEMORY_CLEAR_CONTROL {
            if value & 0x80 != 0 {
                (self.with_clear(value & 0x40 == 0), Ok(()))
            } else {
                (self, Ok(()))
            }
        } else if register == EXTRA_GENERAL_PURPOSE_IO {
            (GraphicsCard { gpio_on: value & 1 != 0, ..self }.with_display_on(), Ok(()))
        } else {
            (self, Err(Fault::UnsupportedRegister(register as u32)))
        }
    }
}

/// The bits of a value written to `register` which are read back from it (0 for the registers
/// which are not read back as written).
pub open spec fn kept_bits(register: u8) -> u8 {
    if register == POWER_AND_DISPLAY_CONTROL {
        0x80
    } else if register == PIXEL_CLOCK_SETTING {
        PIXEL_CLOCK_SETTING_BITS
    } else if register == SYSTEM_CONFIGURATION {
        SYSTEM_CONFIGURATION_BITS
    } else if register == LCD_HORIZONTAL_DISPLAY_WIDTH {
        0xFF
    } else if register == LCD_HORIZONTAL_NON_DISPLAY_PERIOD_FINE_TUNING {
        LCD_HORIZONTAL_NON_DISPLAY_PERIOD_FINE_TUNING_BITS
    } else if register == LCD_HORIZONTAL_NON_DISPLAY_PERIOD {
        LCD_HORIZONTAL_NON_DISPLAY_PERIOD_BITS
    } else if register == HSYNC_START_POSITION {
        HSYNC_START_POSITION_BITS
    } else if register == DISPLAY_CONFIGURATION_REGISTER {
        0xFF
    } else if register == MEMORY_WRITE_CONTROL0 {
        MEMORY_WRITE_CONTROL0_BITS
    } else if register == MEMORY_WRITE_CONTROL1 {
        0xFF
    } else if register == BLINK_TIME_CONTROL {
        0xFF
    } else if register == LAYER_TRANSPARENCY_REGISTER0 {
        0xFF
    } else if register == PLL_CONTROL1 {
        PLL_CONTROL1_BITS
    } else if register == PLL_CONTROL2 {
        PLL_CONTROL2_BITS
    } else if register == PWM1_CONTROL {
        PWM1_CONTROL_BITS
    } else if register == PWM1_DUTY_CYCLE {
        0xFF
    } else if register == EXTRA_GENERAL_PURPOSE_IO {
        0x01
    } else {
        0
    }
}

/// Clearing a window (not the full screen) sets to 0 exactly the text cells of the written layer
/// which start inside it: the cell in column `x` and row `y` (8 by 16 pixels) is cleared when
/// its right edge `8 * (x + 1)` is after `top_left.x` and its left edge `8 * x` is before
/// `bottom_right.x` (and likewise with `16 * y` and `top_left.y`, `bottom_right.y`); the other
/// cells, the other layer and the other settings are unchanged. In particular clearing (0, 0) to
/// (799, 479) clears the 3000 cells.
pub proof fn lemma_clear_window(state: TextDisplayState, top_left: Point, bottom_right: Point)
    requires
        state.text0.len() == 3000,
        state.text1.len() == 3000,
    ensures
        ({
            let after = state.after(DisplayEvent::Clear(top_left, bottom_right, false));
            &&& after.written_text().len() == 3000
            &&& forall|i: int|
                0 <= i < 3000 ==> #[trigger] after.written_text()[i] == (if 8 * (i % 100 + 1)
                    > top_left.x && 8 * (i % 100) < bottom_right.x && 16 * (i / 100 + 1)
                    > top_left.y && 16 * (i / 100) < bottom_right.y {
                    0u8
                } else {
                    state.written_text()[i]
                })
            &&& after.on == state.on
            &&& after.read_layer == state.read_layer
            &&& after.write_layer == state.write_layer
            &&& state.write_layer == 1 ==> after.text0 == state.text0
            &&& state.write_layer != 1 ==> after.text1 == state.text1
            &&& top_left.x == 0 && top_left.y == 0 && bottom_right.x == 799 && bottom_right.y
                == 479 ==> forall|i: int| 0 <= i < 3000 ==> after.written_text()[i] == 0
        }),
{
    let after = state.after(DisplayEvent::Clear(top_left, bottom_right, false));
    assert forall|i: int| 0 <= i < 3000 implies #[trigger] after.written_text()[i] == (if 8 * (i
        % 100 + 1) > top_left.x && 8 * (i % 100) < bottom_right.x && 16 * (i / 100 + 1)
        > top_left.y && 16 * (i / 100) < bottom_right.y {
        0u8
    } else {
        state.written_text()[i]
    }) by {
        let x = i % 100;
        let y = i / 100;
        assert((top_left.x / 8 <= x) == (8 * (x + 1) > top_left.x)) by (nonlinear_arith);
        assert((x < (bottom_right.x + 7) / 8) == (8 * x < bottom_right.x)) by (nonlinear_arith);
        assert((top_left.y / 16 <= y) == (16 * (y + 1) > top_left.y)) by (nonlinear_arith);
        assert((y < (bottom_right.y + 15) / 16) == (16 * y < bottom_right.y)) by (nonlinear_arith);
    }
    if top_left.x == 0 && top_left.y == 0 && bottom_right.x == 799 && bottom_right.y == 479 {
        assert forall|i: int| 0 <= i < 3000 implies after.written_text()[i] == 0 by {
            assert(after.written_text()[i] == 0u8);
        }
    }
}

/// A byte register reads back the supported bits of the value last written to it, when the
/// write was accepted.
pub proof fn lemma_read_after_write<D: Display>(card: GraphicsCard<D>, value: u8)
    requires
        card.wf(),
        kept_bits(card.current_register) != 0,
        card.after_write(value).1 is Ok,
    ensures
        card.after_write(value).0.read_value() == Ok::<u8, Fault>(
            value & kept_bits(card.current_register),
        ),
{
    assert(value & 0xFF == value && (value & 0x80 != 0) == (value & 0x80 == 0x80u8) && (value & 1
        != 0) == (value & 0x01 == 1u8)) by (bit_vector);
}

/// A ready graphics card shows a written character on its text display, at the cursor position
/// (when the cursor is on a character boundary, and the character fits in the active window).
pub proof fn lemma_char_is_shown(card: GraphicsCard<TextDisplay>, c: u8)
    requires
        card.wf(),
        card.ready,
        card.text_cursor.x % CHAR_WIDTH == 0,
        card.text_cursor.y % CHAR_HEIGHT == 0,
        card.text_cursor.x + CHAR_WIDTH <= card.active_window_end.x + 1,
        card.text_cursor.y + CHAR_HEIGHT <= card.active_window_end.y + 1,
    ensures
        card.after_char(c).display@.written_text()[card.text_cursor.x / CHAR_WIDTH + (
        card.text_cursor.y / CHAR_HEIGHT) * TEXT_WIDTH] == c,
        card.after_char(c).display@.written_text().len() == TEXT_SIZE,
{
    let x = card.text_cursor.x;
    let y = card.text_cursor.y;
    let state = card.display@;
    let event = DisplayEvent::DrawChar(x, y, c, card.foreground_color, card.background_color);
    let drawn = state.after(event);
    assert(state.text0.len() == TEXT_SIZE && state.text1.len() == TEXT_SIZE);
    TextDisplay::lemma_from_state(drawn);
    let cursor_event = DisplayEvent::SetCursor(
        (x + CHAR_WIDTH) as u32,
        y,
        card.memory_write_control0 & 0x40 != 0,
        if card.memory_write_control0 & 0x20 != 0 {
            Some(card.blink_time)
        } else {
            None
        },
    );
    TextDisplay::lemma_from_state(drawn.after(cursor_event));
}

impl<D: Display> GraphicsCard<D> {
    pub fn new(display: D) -> (r: Self)
        ensures
            r == Self::initial(display),
            r.wf(),
    {
        GraphicsCard {
            display,
            ready: false,
            current_register: 0,
            lcd_on: false,
            pixel_clock_setting: 0,
            system_configuration: 0,
            lcd_horizontal_display_width: 0,
            lcd_horizontal_non_display_period_fine_tuning: 0,
            lcd_horizontal_non_display_period: 0,
            hsync_start_position: 0,
            lcd_vertical_display_height: 0,
            lcd_vertical_non_display_period: 0,
            vsync_start_position: 0,
            display_configuration: 0,
            text_cursor: Point { x: 0, y: 0 },
            active_window_start: Point { x: 0, y: 0 },
            active_window_end: Point { x: 0, y: 0 },
            memory_write_control0: 0,
            memory_write_control1: 0,
            blink_time: 0,
            layer_transparency: 0,
            background_color: Color { r: 0, g: 0, b: 0 },
            foreground_color: Color { r: 0xF8, g: 0xFC, b: 0xF8 },
            bits_per_pixel: Color { r: 3, g: 3, b: 2 },
            pll_control1: 0x07,
            pll_control2: 0x03,
            pwm1_control: 0,
            pwm1_duty_cyle: 0,
            gpio_on: false,
        }
    }

    /// Resets all the registers (but not the display).
    fn reset_registers(&mut self)
        ensures
            *final(self) == Self::initial(old(self).display),
    {
        self.ready = false;
        self.current_register = 0;
        self.lcd_on = false;
        self.pixel_clock_setting = 0;
        self.system_configuration = 0;
        self.lcd_horizontal_display_width = 0;
        self.lcd_horizontal_non_display_period_fine_tuning = 0;
        self.lcd_horizontal_non_display_period = 0;
        self.hsync_start_position = 0;
        self.lcd_vertical_display_height = 0;
        self.lcd_vertical_non_display_period = 0;
        self.vsync_start_position = 0;
        self.display_configuration = 0;
        self.text_cursor = Point { x: 0, y: 0 };
        self.active_window_start = Point { x: 0, y: 0 };
        self.active_window_end = Point { x: 0, y: 0 };
        self.memory_write_control0 = 0;
        self.memory_write_control1 = 0;
        self.blink_time = 0;
        self.layer_transparency = 0;
        self.background_color = Color { r: 0, g: 0, b: 0 };
        self.foreground_color = Color { r: 0xF8, g: 0xFC, b: 0xF8 };
        self.bits_per_pixel = Color { r: 3, g: 3, b: 2 };
        self.pll_control1 = 0x07;
        self.pll_control2 = 0x03;
        self.pwm1_control = 0;
        self.pwm1_duty_cyle = 0;
        self.gpio_on = false;
    }

    pub fn set_display(&mut self, display: D)
        ensures
            *final(self) == (GraphicsCard { display, ..*old(self) }),
    {
        self.display = display;
    }

    pub fn display_on(&self) -> (r: bool)
        ensures
            r == self.is_display_on(),
    {
        if !self.lcd_on || !self.gpio_on {
            return false;
        }
        if (self.pwm1_control & 0x80) != 0 {
            self.pwm1_control & 0x10 == 0 && self.pwm1_duty_cyle != 0
        } else {
            self.pwm1_control & 0x40 != 0
        }
    }

    fn get_low(register: u32) -> (r: u8)
        ensures
            r == register as u8,
    {
        register as u8
    }

    fn get_high(register: u32) -> (r: u8)
        ensures
            r == (register >> 8u32) as u8,
    {
        (register >> 8) as u8
    }

    fn get_high_n(register: u8, bits: u8) -> (r: u8)
        requires
            1 <= bits <= 7,
        ensures
            r == high_bits(register, bits),
    {
        register >> (8 - bits)
    }

    fn set_low(register: &mut u32, value: u8, max_value: u32)
        ensures
            *final(register) == with_low(*old(register), value, max_value),
    {
        let v = (*register & 0xFF00) | (value as u32);
        *register = if v < max_value {
            v
        } else {
            max_value
        };
    }

    fn set_high(register: &mut u32, value: u8, max_value: u32)
        ensures
            *final(register) == with_high(*old(register), value, max_value),
    {
        let v = (*register & 0x00FF) | ((value as u32) << 8);
        *register = if v < max_value {
            v
        } else {
            max_value
        };
    }

    fn set_high_n(register: &mut u8, value: u8, bits: u8)
        requires
            1 <= bits <= 7,
        ensures
            *final(register) == to_high_bits(value, bits),
    {
        assert(1u8 <= (1u8 << bits)) by (bit_vector)
            requires
                1 <= bits <= 7,
        ;
        *register = (value & ((1 << bits) - 1)) << (8 - bits);
    }

    /// Reads the current register.
    pub fn read_data(&self) -> (r: Result<u8, Fault>)
        requires
            self.wf(),
        ensures
            r == self.read_value(),
    {
        let register = self.current_register;
        if register == POWER_AND_DISPLAY_CONTROL {
            Ok(if self.lcd_on { 0x80 } else { 0 })
        } else if register == PIXEL_CLOCK_SETTING {
            Ok(self.pixel_clock_setting)
        } else if register == SYSTEM_CONFIGURATION {
            Ok(self.system_configuration)
        } else if register == LCD_HORIZONTAL_DISPLAY_WIDTH {
            Ok(self.lcd_horizontal_display_width)
        } else if register == LCD_HORIZONTAL_NON_DISPLAY_PERIOD_FINE_TUNING {
            Ok(self.lcd_horizontal_non_display_period_fine_tuning)
        } else if register == LCD_HORIZONTAL_NON_DISPLAY_PERIOD {
            Ok(self.lcd_horizontal_non_display_period)
        } else if register == HSYNC_START_POSITION {
            Ok(self.hsync_start_position)
        } else if register == LCD_VERTICAL_DISPLAY_HEIGHT0 {
            Ok(Self::get_low(self.lcd_vertical_display_height))
        } else if register == LCD_VERTICAL_DISPLAY_HEIGHT1 {
            Ok(Self::get_high(self.lcd_vertical_display_height))
        } else if register == LCD_VERTICAL_NON_DISPLAY_PERIOD0 {
            Ok(Self::get_low(self.lcd_vertical_non_display_period))
        } else if register == LCD_VERTICAL_NON_DISPLAY_PERIOD1 {
            Ok(Self::get_high(self.lcd_vertical_non_display_period))
        } else if register == VSYNC_START_POSITION0 {
            Ok(Self::get_low(self.vsync_start_position))
        } else if register == VSYNC_START_POSITION1 {
            Ok(Self::get_high(self.vsync_start_position))
        } else if register == DISPLAY_CONFIGURATION_REGISTER {
            Ok(self.display_configuration)
        } else if register == FONT_WRITE_CURSOR_HORIZONTAL0 {
            Ok(Self::get_low(self.text_cursor.x))
        } else if register == FONT_WRITE_CURSOR_HORIZONTAL1 {
            Ok(Self::get_high(self.text_cursor.x))
        } else if register == FONT_WRITE_CURSOR_VERTICAL0 {
            Ok(Self::get_low(self.text_cursor.y))
        } else if register == FONT_WRITE_CURSOR_VERTICAL1 {
            Ok(Self::get_high(self.text_cursor.y))
        } else if register == HORIZONTAL_START_OF_ACTIVE_WINDOW0 {
            Ok(Self::get_low(self.active_window_start.x))
        } else if register == HORIZONTAL_START_OF_ACTIVE_WINDOW1 {
            Ok(Self::get_high(self.active_window_start.x))
        } else if register == VERTICAL_START_OF_ACTIVE_WINDOW0 {
            Ok(Self::get_low(self.active_window_start.y))
        } else if register == VERTICAL_START_OF_ACTIVE_WINDOW1 {
            Ok(Self::get_high(self.active_window_start.y))
        } else if register == HORIZONTAL_END_OF_ACTIVE_WINDOW0 {
            Ok(Self::get_low(self.active_window_end.x))
        } else if register == HORIZONTAL_END_OF_ACTIVE_WINDOW1 {
            Ok(Self::get_high(self.active_window_end.x))
        } else if register == VERTICAL_END_OF_ACTIVE_WINDOW0 {
            Ok(Self::get_low(self.active_window_end.y))
        } else if register == VERTICAL_END_OF_ACTIVE_WINDOW1 {
            Ok(Self::get_high(self.active_window_end.y))
        } else if register == MEMORY_WRITE_CONTROL0 {
            Ok(self.memory_write_control0)
        } else if register == MEMORY_WRITE_CONTROL1 {
            Ok(self.memory_write_control1)
        } else if register == BLINK_TIME_CONTROL {
            Ok(self.blink_time)
        } else if register == LAYER_TRANSPARENCY_REGISTER0 {
            Ok(self.layer_transparency)
        } else if register == BACKGROUND_COLOR0 {
            Ok(Self::get_high_n(self.background_color.r, self.bits_per_pixel.r))
        } else if register == BACKGROUND_COLOR1 {
            Ok(Self::get_high_n(self.background_color.g, self.bits_per_pixel.g))
        } else if register == BACKGROUND_COLOR2 {
            Ok(Self::get_high_n(self.background_color.b, self.bits_per_pixel.b))
        } else if register == FOREGROUND_COLOR0 {
            Ok(Self::get_high_n(self.foreground_color.r, self.bits_per_pixel.r))
        } else if register == FOREGROUND_COLOR1 {
            Ok(Self::get_high_n(self.foreground_color.g, self.bits_per_pixel.g))
        } else if register == FOREGROUND_COLOR2 {
            Ok(Self::get_high_n(self.foreground_color.b, self.bits_per_pixel.b))
        } else if register == PLL_CONTROL1 {
            Ok(self.pll_control1)
        } else if register == PLL_CONTROL2 {
            Ok(self.pll_control2)
        } else if register == PWM1_CONTROL {
            Ok(self.pwm1_control)
        } else if register == PWM1_DUTY_CYCLE {
            Ok(self.pwm1_duty_cyle)
        } else if register == MEMORY_CLEAR_CONTROL {
            Ok(0)
        } else if register == EXTRA_GENERAL_PURPOSE_IO {
            Ok(if self.gpio_on { 1 } else { 0 })
        } else {
            Err(Fault::UnsupportedRegister(register as u32))
        }
    }

    fn update_display_on(&mut self)
        ensures
            *final(self) == old(self).with_display_on(),
    {
        let on = self.display_on();
        self.display.set_on(on);
    }

    fn update_cursor(&mut self)
        ensures
            *final(self) == old(self).with_cursor(),
    {
        let blink_time = if self.memory_write_control0 & 0x20 != 0 {
            Some(self.blink_time)
        } else {
            None
        };
        self.display.set_cursor(
            self.text_cursor.x,
            self.text_cursor.y,
            self.memory_write_control0 & 0x40 != 0,
            blink_time,
        );
    }

    fn update_layers(&mut self)
        ensures
            *final(self) == old(self).with_layers(),
    {
        let multilayer = self.display_configuration & 0x80 != 0;
        let read_layer: u32 = if multilayer && self.layer_transparency & 0x01 != 0 { 1 } else { 0 };
        let write_layer: u32 = if multilayer && self.memory_write_control1 & 0x01 != 0 {
            1
        } else {
            0
        };
        self.display.set_read_layer(read_layer);
        self.display.set_write_layer(write_layer);
    }

    fn update_status(&mut self) -> (r: Result<(), Fault>)
        requires
            old(self).wf(),
        ensures
            final(self).wf(),
            (*final(self), r) == old(self).with_status(),
    {
        if self.lcd_horizontal_display_width as u32 >= PIXEL_WIDTH / 8 {
            return Err(
                Fault::UnsupportedValue(
                    LCD_HORIZONTAL_DISPLAY_WIDTH as u32,
                    self.lcd_horizontal_display_width as u32,
                ),
            );
        }
        if self.lcd_vertical_display_height >= PIXEL_HEIGHT {
            return Err(
                Fault::UnsupportedValue(
                    LCD_VERTICAL_DISPLAY_HEIGHT0 as u32,
                    self.lcd_vertical_display_height,
                ),
            );
        }
        let fine_tuning = self.lcd_horizontal_non_display_period_fine_tuning;
        assert(fine_tuning & 0xF <= 15u8) by (bit_vector);
        let width_pixels = (self.lcd_horizontal_display_width as u32 + 1) * 8;
        let horizontal_non_display_pixels = (self.lcd_horizontal_non_display_period as u32 + 1) * 8
            + (fine_tuning & 0xF) as u32 + 2;
        let hsync_start_pixels = (self.hsync_start_position as u32 + 1) * 8;
        let height_pixels = self.lcd_vertical_display_height + 1;
        let vertical_non_display_pixels = self.lcd_vertical_non_display_period + 1;
        let vsync_start_pixels = self.vsync_start_position + 1;

        // Back porch includes the pulse width, equal to 8 by default.
        let horizontal_back_porch = horizontal_non_display_pixels + 8;
        let horizontal_front_porch = hsync_start_pixels;
        let horizontal_period = horizontal_back_porch + width_pixels + horizontal_front_porch;
        // Back porch includes the pulse width, equal to 1 by default.
        let vertical_back_porch = vertical_non_display_pixels + 1;
        let vertical_front_porch = vsync_start_pixels;
        let vertical_period = vertical_back_porch + height_pixels + vertical_front_porch;

        self.bits_per_pixel = if self.system_configuration & 0x08 != 0 {
            Color { r: 5, g: 6, b: 5 }
        } else {
            Color { r: 3, g: 3, b: 2 }
        };
        let pll_control1 = self.pll_control1;
        let pll_control2 = self.pll_control2;
        let pixel_clock_setting = self.pixel_clock_setting;
        assert(pll_control1 >> 7u8 <= 1u8 && pll_control1 & 0x1F <= 31u8 && pixel_clock_setting
            & 0x3 <= 3u8) by (bit_vector);
        let pll_divm = (pll_control1 >> 7) as u32;
        let pll_divn = (pll_control1 & 0x1F) as u32;
        let pll_divk = pll_control2 as u32;
        assert(1u32 <= (1u32 << pll_divk) <= 128u32) by (bit_vector)
            requires
                pll_divk <= 7,
        ;
        let pixel_clock_period = (pixel_clock_setting & 0x3) as u32;
        assert(1u32 <= (1u32 << pixel_clock_period) <= 8u32) by (bit_vector)
            requires
                pixel_clock_period <= 3,
        ;
        let divk_power: u32 = 1 << pll_divk;
        assert(1 <= (pll_divm + 1) * divk_power <= 256) by (nonlinear_arith)
            requires
                pll_divm <= 1,
                1 <= divk_power <= 128,
        ;
        let divisor = (pll_divm + 1) * divk_power;
        let system_clock = CRYSTAL_FREQUENCY * (pll_divn + 1) / divisor;
        let pixel_clock_inverted = (pixel_clock_setting & 0x80) != 0;
        let pixel_clock = system_clock / (1 << pixel_clock_period);

        if pll_divn == 0 {
            return Err(Fault::UnsupportedValue(PLL_CONTROL1 as u32, pll_control1 as u32));
        }

        self.ready = width_pixels == PIXEL_WIDTH && height_pixels == PIXEL_HEIGHT
            // Ranges for "mandatory" values are made up. In practice almost any value for the
            // back porch, front porch and period works. It seems that the DE "Data Enable" signal
            // is used to detect actual start and end of lines, instead of counting clock cycles
            // after HSYNC and starting after the mandatory back porch (46 cycles).
            && 862 <= horizontal_period && horizontal_period <= 1200  // typical=1056, actual=1054
            && 16 <= horizontal_back_porch && horizontal_back_porch <= 354  // mandatory=46, actual=46
            && 16 <= horizontal_front_porch && horizontal_front_porch <= 354  // typical=210, actual=208
            && 510 <= vertical_period && vertical_period <= 650  //typical=525, actual=525
            && 7 <= vertical_back_porch && vertical_back_porch <= 147  // mandatory=23, actual=23
            && 7 <= vertical_front_porch && vertical_front_porch <= 147  //typical=22, actual=22
            && (self.memory_write_control0 & TEXT_MODE) != 0 && pll_divn >= 5
            && pixel_clock_inverted && 30000000 <= pixel_clock && pixel_clock < 50000000;
        Ok(())
    }

    /// Writes the character `value` at the cursor position, in the active window, if the card is
    /// ready, and moves the cursor to the next position.
    pub fn write_char(&mut self, value: u8)
        requires
            old(self).wf(),
        ensures
            final(self).wf(),
            *final(self) == old(self).after_char(value),
    {
        if !self.ready {
            return;
        }
        if self.text_cursor.x + CHAR_WIDTH > self.active_window_end.x + 1 {
            self.text_cursor.x = self.active_window_start.x;
            self.text_cursor.y = self.text_cursor.y + CHAR_HEIGHT;
        }
        if self.text_cursor.y + CHAR_HEIGHT > self.active_window_end.y + 1 {
            self.text_cursor.y = self.active_window_start.y;
        }
        self.display.draw_char(
            self.text_cursor.x,
            self.text_cursor.y,
            value,
            self.foreground_color,
            self.background_color,
        );
        self.text_cursor.x = self.text_cursor.x + CHAR_WIDTH;
        if self.text_cursor.x < self.active_window_start.x {
            self.text_cursor.x = self.active_window_start.x;
            self.text_cursor.y = self.text_cursor.y + CHAR_HEIGHT;
        }
        if self.text_cursor.y < self.active_window_start.y {
            self.text_cursor.y = self.active_window_start.y;
        }
        self.update_cursor();
    }

    /// Writes `value` to the current register.
    pub fn write_data(&mut self, value: u8) -> (r: Result<(), Fault>)
        requires
            old(self).wf(),
        ensures
            final(self).wf(),
            (*final(self), r) == old(self).after_write(value),
    {
        let register = self.current_register;
        if register == POWER_AND_DISPLAY_CONTROL {
            if value & POWER_AND_DISPLAY_CONTROL_UNSUPPORTED_BITS != 0 {
                return Err(Fault::UnsupportedValue(register as u32, value as u32));
            }
            self.lcd_on = (value & 0x80) != 0;
            self.update_display_on();
            Ok(())
        } else if register == MEMORY_READ_WRITE_COMMAND {
            self.write_char(value);
            Ok(())
        } else if register == PIXEL_CLOCK_SETTING {
            self.pixel_clock_setting = value & PIXEL_CLOCK_SETTING_BITS;
            self.update_status()
        } else if register == SYSTEM_CONFIGURATION {
            self.system_configuration = value & SYSTEM_CONFIGURATION_BITS;
            self.update_status()
        } else if register == LCD_HORIZONTAL_DISPLAY_WIDTH {
            self.lcd_horizontal_display_width = value;
            self.update_status()
        } else if register == LCD_HORIZONTAL_NON_DISPLAY_PERIOD_FINE_TUNING {
            self.lcd_horizontal_non_display_period_fine_tuning = value
                & LCD_HORIZONTAL_NON_DISPLAY_PERIOD_FINE_TUNING_BITS;
            self.update_status()
        } else if register == LCD_HORIZONTAL_NON_DISPLAY_PERIOD {
            self.lcd_horizontal_non_display_period = value & LCD_HORIZONTAL_NON_DISPLAY_PERIOD_BITS;
            self.update_status()
        } else if register == HSYNC_START_POSITION {
            self.hsync_start_position = value & HSYNC_START_POSITION_BITS;
            self.update_status()
        } else if register == LCD_VERTICAL_DISPLAY_HEIGHT0 {
            Self::set_low(&mut self.lcd_vertical_display_height, value, u32::MAX);
            self.update_status()
        } else if register == LCD_VERTICAL_DISPLAY_HEIGHT1 {
            Self::set_high(&mut self.lcd_vertical_display_height, value, u32::MAX);
            self.update_status()
        } else if register == LCD_VERTICAL_NON_DISPLAY_PERIOD0 {
            Self::set_low(&mut self.lcd_vertical_non_display_period, value, U9_MAX);
            self.update_status()
        } else if register == LCD_VERTICAL_NON_DISPLAY_PERIOD1 {
            Self::set_high(&mut self.lcd_vertical_non_display_period, value, U9_MAX);
            self.update_status()
        } else if register == VSYNC_START_POSITION0 {
            Self::set_low(&mut self.vsync_start_position, value, U9_MAX);
            self.update_status()
        } else if register == VSYNC_START_POSITION1 {
            Self::set_high(&mut self.vsync_start_position, value, U9_MAX);
            self.update_status()
        } else {
            self.write_other_data(value)
        }
    }

    /// Writes `value` to the current register, when it is not a register of the display
    /// timings.
    fn write_other_data(&mut self, value: u8) -> (r: Result<(), Fault>)
        requires
            old(self).wf(),
            !is_timing_register(old(self).current_register),
        ensures
            final(self).wf(),
            (*final(self), r) == old(self).after_write(value),
    {
        let register = self.current_register;
        if register == DISPLAY_CONFIGURATION_REGISTER {
            if value & !DISPLAY_CONFIGURATION_BITS != 0 {
                return Err(Fault::UnsupportedValue(register as u32, value as u32));
            }
            self.display_configuration = value;
            self.update_layers();
            Ok(())
        } else if register == FONT_WRITE_CURSOR_HORIZONTAL0 {
            Self::set_low(&mut self.text_cursor.x, value, U10_MAX);
            self.update_cursor();
            Ok(())
        } else if register == FONT_WRITE_CURSOR_HORIZONTAL1 {
            Self::set_high(&mut self.text_cursor.x, value, U10_MAX);
            self.update_cursor();
            Ok(())
        } else if register == FONT_WRITE_CURSOR_VERTICAL0 {
            Self::set_low(&mut self.text_cursor.y, value, U9_MAX);
            self.update_cursor();
            Ok(())
        } else if register == FONT_WRITE_CURSOR_VERTICAL1 {
            Self::set_high(&mut self.text_cursor.y, value, U9_MAX);
            self.update_cursor();
            Ok(())
        } else if register == HORIZONTAL_START_OF_ACTIVE_WINDOW0 {
            Self::set_low(&mut self.active_window_start.x, value, PIXEL_WIDTH - CHAR_WIDTH);
            Ok(())
        } else if register == HORIZONTAL_START_OF_ACTIVE_WINDOW1 {
            Self::set_high(&mut self.active_window_start.x, value, PIXEL_WIDTH - CHAR_WIDTH);
            Ok(())
        } else if register == VERTICAL_START_OF_ACTIVE_WINDOW0 {
            Self::set_low(&mut self.active_window_start.y, value, PIXEL_HEIGHT - CHAR_HEIGHT);
            Ok(())
        } else if register == VERTICAL_START_OF_ACTIVE_WINDOW1 {
            Self::set_high(&mut self.active_window_start.y, value, PIXEL_HEIGHT - CHAR_HEIGHT);
            Ok(())
        } else if register == HORIZONTAL_END_OF_ACTIVE_WINDOW0 {
            Self::set_low(&mut self.active_window_end.x, value, PIXEL_WIDTH);
            Ok(())
        } else if register == HORIZONTAL_END_OF_ACTIVE_WINDOW1 {
            Self::set_high(&mut self.active_window_end.x, value, PIXEL_WIDTH);
            Ok(())
        } else if register == VERTICAL_END_OF_ACTIVE_WINDOW0 {
            Self::set_low(&mut self.active_window_end.y, value, PIXEL_HEIGHT);
            Ok(())
        } else if register == VERTICAL_END_OF_ACTIVE_WINDOW1 {
            Self::set_high(&mut self.active_window_end.y, value, PIXEL_HEIGHT);
            Ok(())
        } else if register == MEMORY_WRITE_CONTROL0 {
            self.memory_write_control0 = value & MEMORY_WRITE_CONTROL0_BITS;
            self.update_cursor();
            self.update_status()
        } else if register == MEMORY_WRITE_CONTROL1 {
            if value & !MEMORY_WRITE_CONTROL1_BITS != 0 {
                return Err(Fault::UnsupportedValue(register as u32, value as u32));
            }
            self.memory_write_control1 = value;
            self.update_layers();
            Ok(())
        } else if register == BLINK_TIME_CONTROL {
            self.blink_time = value;
            self.update_cursor();
            Ok(())
        } else if register == LAYER_TRANSPARENCY_REGISTER0 {
            if value & !LAYER_TRANSPARENCY_BITS != 0 {
                return Err(Fault::UnsupportedValue(register as u32, value as u32));
            }
            self.layer_transparency = value;
            self.update_layers();
            Ok(())
        } else {
            self.write_color_or_control(value)
        }
    }

    /// Writes `value` to the current register, when it is a color or a control register.
    fn write_color_or_control(&mut self, value: u8) -> (r: Result<(), Fault>)
        requires
            old(self).wf(),
            !is_timing_register(old(self).current_register),
            !is_window_register(old(self).current_register),
        ensures
            final(self).wf(),
            (*final(self), r) == old(self).after_write(value),
    {
        let register = self.current_register;
        if register == BACKGROUND_COLOR0 {
            Self::set_high_n(&mut self.background_color.r, value, self.bits_per_pixel.r);
            Ok(())
        } else if register == BACKGROUND_COLOR1 {
            Self::set_high_n(&mut self.background_color.g, value, self.bits_per_pixel.g);
            Ok(())
        } else if register == BACKGROUND_COLOR2 {
            Self::set_high_n(&mut self.background_color.b, value, self.bits_per_pixel.b);
            Ok(())
        } else if register == FOREGROUND_COLOR0 {
            Self::set_high_n(&mut self.foreground_color.r, value, self.bits_per_pixel.r);
            Ok(())
        } else if register == FOREGROUND_COLOR1 {
            Self::set_high_n(&mut self.foreground_color.g, value, self.bits_per_pixel.g);
            Ok(())
        } else if register == FOREGROUND_COLOR2 {
            Self::set_high_n(&mut self.foreground_color.b, value, self.bits_per_pixel.b);
            Ok(())
        } else if register == PLL_CONTROL1 {
            self.pll_control1 = value & PLL_CONTROL1_BITS;
            self.update_status()
        } else if register == PLL_CONTROL2 {
            self.pll_control2 = value & PLL_CONTROL2_BITS;
            assert(value & PLL_CONTROL2_BITS <= PLL_CONTROL2_BITS) by (bit_vector);
            self.update_status()
        } else if register == PWM1_CONTROL {
            self.pwm1_control = value & PWM1_CONTROL_BITS;
            self.update_display_on();
            Ok(())
        } else if register == PWM1_DUTY_CYCLE {
            self.pwm1_duty_cyle = value;
            self.update_display_on();
            Ok(())
        } else if register == MEMORY_CLEAR_CONTROL {
            if value & 0x80 != 0 {
                self.clear(value & 0x40 == 0);
            }
            Ok(())
        } else if register == EXTRA_GENERAL_PURPOSE_IO {
            self.gpio_on = (value & 1) != 0;
            self.update_display_on();
            Ok(())
        } else {
            Err(Fault::UnsupportedRegister(register as u32))
        }
    }

    fn clear(&mut self, full_screen: bool)
        requires
            old(self).wf(),
        ensures
            *final(self) == old(self).with_clear(full_screen),
    {
        self.display.clear(&self.active_window_start, &self.active_window_end, full_screen);
    }
}

impl Default for GraphicsCard<TextDisplay> {
    /// A graphics card connected to a new text display.
    fn default() -> (r: Self)
        ensures
            r == Self::initial(r.display),
            r.display@ == TextDisplayState::initial(),
            r.wf(),
    {
        Self::new(TextDisplay::new())
    }
}

impl<D: Display> SpiDevice for GraphicsCard<D> {
    open spec fn spi_inv(&self) -> bool {
        self.wf()
    }

    /// The response to `data`: nothing if the chip select configuration is not the expected
    /// one, the value of the current register for a data read, 0 otherwise, or the reason why
    /// a data read or write is not supported.
    open spec fn spi_response(&self, data: u32, chip_select: u32) -> Result<Option<u32>, Fault> {
        if chip_select & CHIP_SELECT_REQUIRED_MASK != CHIP_SELECT_REQUIRED_VALUE {
            Ok(None)
        } else if data & HEADER_MASK == DATA_WRITE {
            match self.after_write(data as u8).1 {
                Ok(_) => Ok(Some(0u32)),
                Err(e) => Err(e),
            }
        } else if data & HEADER_MASK == DATA_READ {
            match self.read_value() {
                Ok(v) => Ok(Some(v as u32)),
                Err(e) => Err(e),
            }
        } else {
            Ok(Some(0u32))
        }
    }

    /// The state after `data`: a data write writes the current register, and a command write
    /// selects the current register.
    open spec fn spi_next(&self, data: u32, chip_select: u32) -> Self {
        if chip_select & CHIP_SELECT_REQUIRED_MASK != CHIP_SELECT_REQUIRED_VALUE {
            *self
        } else if data & HEADER_MASK == DATA_WRITE {
            self.after_write(data as u8).0
        } else if data & HEADER_MASK == COMMAND_WRITE {
            GraphicsCard { current_register: data as u8, ..*self }
        } else {
            *self
        }
    }

    fn data_received(&mut self, data: u32, chip_select: u32) -> (r: Result<Option<u32>, Fault>) {
        if chip_select & CHIP_SELECT_REQUIRED_MASK != CHIP_SELECT_REQUIRED_VALUE {
            return Ok(None);
        }
        if data & HEADER_MASK == DATA_WRITE {
            match self.write_data(data as u8) {
                Ok(()) => Ok(Some(0)),
                Err(e) => Err(e),
            }
        } else if data & HEADER_MASK == DATA_READ {
            match self.read_data() {
                Ok(v) => Ok(Some(v as u32)),
                Err(e) => Err(e),
            }
        } else if data & HEADER_MASK == COMMAND_WRITE {
            self.current_register = data as u8;
            Ok(Some(0))
        } else {
            Ok(Some(0))  // STATUS_READ
        }
    }
}

impl<D: Display> PioDevice for GraphicsCard<D> {
    open spec fn pio_inv(&self) -> bool {
        self.wf()
    }

    /// The state after a change of the pins: the display and the card are reset when the PB12
    /// pin is low.
    open spec fn pio_next(&self, pins: Seq<u32>) -> Self {
        if pins[1] & (1u32 << 12u32) == 0 {
            Self::initial(self.display.after(DisplayEvent::Reset))
        } else {
            *self
        }
    }

    fn pio_state_changed(&mut self, pins: &[u32; 4]) {
        if pins[1] & (1 << 12) == 0 {
            self.display.reset();
            self.reset_registers();
        }
    }
}

} // verus!
