use vstd::prelude::*;
use crate::cpu::Machine;
use crate::keyboard::RKKeyboard;
use crate::memory::Memory;

verus! {

/// The width of the screen, in characters.
pub const COLUMNS: usize = 78;

/// The height of the screen, in lines.
pub const LINES: usize = 30;

/// The address of the first character of the screen in the machine's memory.
pub const VIDEO_START: u16 = 0x36d0;

/// The address after the last character of the screen.
pub const VIDEO_END: u16 = 0x3ff4;

/// The address of the cursor's column.
pub const CURSOR_X: u16 = 0x3602;

/// The address of the cursor's line.
pub const CURSOR_Y: u16 = 0x3603;

/// A space.
pub const SPACE: u8 = 0x20;

/// A plus sign.
pub const PLUS: u8 = 0x2B;

/// A minus sign.
pub const MINUS: u8 = 0x2D;

/// The digit zero.
pub const ZERO: u8 = 0x30;

/// A question mark.
pub const QUESTION: u8 = 0x3F;

/// A vertical bar.
pub const BAR: u8 = 0x7C;

/// A carriage return.
pub const CR: u8 = 0x0D;

/// A line feed.
pub const LF: u8 = 0x0A;

/// The character that shows for a byte of the screen: a space for zero, the
/// byte itself if it is printable ASCII, and a question mark for the rest.
pub open spec fn glyph(b: u8) -> u8 {
    if b == 0 {
        SPACE
    } else if 32 <= b < 128 {
        b
    } else {
        QUESTION
    }
}

/// The top and the bottom line of the frame.
pub open spec fn border() -> Seq<u8> {
    seq![PLUS] + Seq::new(COLUMNS as nat, |x: int| MINUS) + seq![PLUS, CR, LF]
}

/// Line `y` of the screen between its two bars.
pub open spec fn framed_line(cells: Seq<u8>, y: int) -> Seq<u8> {
    seq![BAR] + Seq::new(COLUMNS as nat, |x: int| glyph(cells[y * COLUMNS + x])) + seq![
        BAR,
        CR,
        LF,
    ]
}

/// The first `n` lines of the screen, each between its two bars.
pub open spec fn framed_lines(cells: Seq<u8>, n: nat) -> Seq<u8>
    decreases n,
{
    if n == 0 {
        Seq::empty()
    } else {
        framed_lines(cells, (n - 1) as nat) + framed_line(cells, n - 1)
    }
}

/// The low four bits of `v` as four binary digits, the highest first.
pub open spec fn four_bits(v: u8) -> Seq<u8> {
    seq![
        (ZERO + (v / 8) % 2) as u8,
        (ZERO + (v / 4) % 2) as u8,
        (ZERO + (v / 2) % 2) as u8,
        (ZERO + v % 2) as u8,
    ]
}

/// The whole picture: the screen in its frame, and the indicators under it.
pub open spec fn picture(cells: Seq<u8>, indicators: u8) -> Seq<u8> {
    border() + framed_lines(cells, LINES as nat) + border() + four_bits(indicators)
}

/// A copy of what the machine shows: its screen, its cursor and the
/// keyboard's indicators. It remembers whether any of them changed since the
/// picture was last drawn.
pub struct RKDisplay {
    data: Vec<u8>,
    cursor_x: u8,
    cursor_y: u8,
    dirty: bool,
    indicators: u8,
}

impl RKDisplay {
    /// The characters of the screen, line after line.
    pub closed spec fn cells(&self) -> Seq<u8> {
        self.data@
    }

    /// The column and the line of the cursor.
    pub closed spec fn cursor(&self) -> (u8, u8) {
        (self.cursor_x, self.cursor_y)
    }

    /// The indicators, in the low four bits.
    pub closed spec fn lamps(&self) -> u8 {
        self.indicators
    }

    /// Whether something changed since the picture was last drawn.
    pub closed spec fn is_dirty(&self) -> bool {
        self.dirty
    }

    /// The copy holds a whole screen, and no indicators but the four.
    #[verifier::type_invariant]
    spec fn wf(self) -> bool {
        self.data@.len() == COLUMNS * LINES && self.indicators < 16
    }

    /// An empty screen with the cursor in the corner and the indicators off,
    /// yet to be drawn.
    pub fn new() -> (display: Self)
        ensures
            display.cells() == Seq::new((COLUMNS * LINES) as nat, |i: int| 0u8),
            display.cursor() == (0u8, 0u8),
            display.lamps() == 0,
            display.is_dirty(),
    {
        let display = Self {
            data: vec![0; COLUMNS * LINES],
            cursor_x: 0,
            cursor_y: 0,
            dirty: true,
            indicators: 0,
        };
        display
    }

    /// Takes the screen and the cursor from the machine's memory.
    pub fn copy_from_machine(&mut self, machine: &Machine)
        ensures
            final(self).cells() == machine@.memory.read_range(VIDEO_START, VIDEO_END),
            final(self).cursor() == (machine@.memory.read(CURSOR_X), machine@.memory.read(CURSOR_Y)),
            final(self).lamps() == old(self).lamps(),
            final(self).is_dirty() == (old(self).is_dirty() || final(self).cells() != old(
                self,
            ).cells() || final(self).cursor() != old(self).cursor()),
    {
        proof {
            use_type_invariant(&*self);
        }
        let video_ram = machine.memory.get_range(VIDEO_START, VIDEO_END);
        if !same_bytes(&video_ram, &self.data) {
            self.data = video_ram;
            self.dirty = true;
        }
        let cursor_x = machine.memory.get_u8(CURSOR_X);
        if self.cursor_x != cursor_x {
            self.cursor_x = cursor_x;
            self.dirty = true;
        }
        let cursor_y = machine.memory.get_u8(CURSOR_Y);
        if self.cursor_y != cursor_y {
            self.cursor_y = cursor_y;
            self.dirty = true;
        }
    }

    /// Takes the indicators from the keyboard.
    pub fn copy_from_keyboard(&mut self, keyboard: &RKKeyboard)
        ensures
            final(self).lamps() == keyboard.indicator_state() & 0x0F,
            final(self).cells() == old(self).cells(),
            final(self).cursor() == old(self).cursor(),
            final(self).is_dirty() == (old(self).is_dirty() || final(self).lamps() != old(
                self,
            ).lamps()),
    {
        proof {
            use_type_invariant(&*self);
        }
        let indicators = keyboard.get_indicators();
        if self.indicators != indicators {
            self.indicators = indicators;
            self.dirty = true;
        }
    }

    /// The column of the cursor.
    pub fn cursor_x(&self) -> (x: u8)
        ensures
            x == self.cursor().0,
    {
        self.cursor_x
    }

    /// The line of the cursor.
    pub fn cursor_y(&self) -> (y: u8)
        ensures
            y == self.cursor().1,
    {
        self.cursor_y
    }

    /// Whether a picture is due when `elapsed_millis` is the part below one
    /// second, in milliseconds, of the time since the last one was due: it is
    /// on every multiple of 25.
    pub fn due(elapsed_millis: u32) -> (due: bool)
        ensures
            due == (elapsed_millis % 25 == 0),
    {
        elapsed_millis % 25 == 0
    }

    /// The picture, if anything changed since it was last drawn, as ASCII
    /// text. After this nothing counts as changed.
    pub fn print(&mut self) -> (drawn: Option<Vec<u8>>)
        ensures
            !final(self).is_dirty(),
            final(self).cells() == old(self).cells(),
            final(self).cursor() == old(self).cursor(),
            final(self).lamps() == old(self).lamps(),
            old(self).is_dirty() ==> drawn is Some && drawn->0@ == picture(
                old(self).cells(),
                old(self).lamps(),
            ),
            !old(self).is_dirty() ==> drawn is None,
    {
        proof {
            use_type_invariant(&*self);
        }
        if !self.dirty {
            return None;
        }
        self.dirty = false;
        let mut text: Vec<u8> = Vec::new();
        push_border(&mut text);
        let mut y: usize = 0;
        while y < LINES
            invariant
                y <= LINES,
                self.data@.len() == COLUMNS * LINES,
                text@ == border() + framed_lines(self.data@, y as nat),
            decreases LINES - y,
        {
            let ghost before = text@;
            text.push(BAR);
            let mut x: usize = 0;
            while x < COLUMNS
                invariant
                    x <= COLUMNS,
                    y < LINES,
                    self.data@.len() == COLUMNS * LINES,
                    text@ == before + seq![BAR] + Seq::new(
                        x as nat,
                        |i: int| glyph(self.data@[y * COLUMNS + i]),
                    ),
                decreases COLUMNS - x,
            {
                let b: u8 = self.data[y * COLUMNS + x];
                let shown: u8 = if b == 0 {
                    SPACE
                } else if b >= 32 && b < 128 {
                    b
                } else {
                    QUESTION
                };
                text.push(shown);
                x = x + 1;
            }
            text.push(BAR);
            text.push(CR);
            text.push(LF);
            y = y + 1;
        }
        push_border(&mut text);
        let v = self.indicators;
        text.push(ZERO + (v / 8) % 2);
        text.push(ZERO + (v / 4) % 2);
        text.push(ZERO + (v / 2) % 2);
        text.push(ZERO + v % 2);
        Some(text)
    }
}

/// Whether two buffers hold the same bytes.
fn same_bytes(a: &Vec<u8>, b: &Vec<u8>) -> (same: bool)
    ensures
        same == (a@ == b@),
{
    if a.len() != b.len() {
        return false;
    }
    let mut i: usize = 0;
    while i < a.len()
        invariant
            i <= a@.len(),
            a@.len() == b@.len(),
            forall|j: int| 0 <= j < i ==> a@[j] == b@[j],
        decreases a@.len() - i,
    {
        if a[i] != b[i] {
            return false;
        }
        i = i + 1;
    }
    assert(a@ =~= b@);
    true
}

/// Appends a border line to `text`.
fn push_border(text: &mut Vec<u8>)
    ensures
        final(text)@ == old(text)@ + border(),
{
    text.push(PLUS);
    let mut x: usize = 0;
    while x < COLUMNS
        invariant
            x <= COLUMNS,
            text@ == old(text)@ + seq![PLUS] + Seq::new(x as nat, |i: int| MINUS),
        decreases COLUMNS - x,
    {
        text.push(MINUS);
        x = x + 1;
    }
    text.push(PLUS);
    text.push(CR);
    text.push(LF);
}

} // verus!
