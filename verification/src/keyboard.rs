use vstd::prelude::*;
use vstd::arithmetic::power2::{lemma2_to64, pow2};
use crate::memory::{Image, Memory};

verus! {

/// How long a key counts as held after it was pressed, in milliseconds.
pub const KEY_HOLD_MS: u64 = 1000;

/// A key of the keyboard matrix.
///
/// A key of the matrix proper has in `a` the scan line that finds it and in
/// `b` what the scan then reads back, and `c` zero. A modifier key has `a`
/// and `b` zero, and its bits in the high four bits of `c`.
#[derive(Clone, Copy, Debug, PartialEq, Eq, Structural)]
pub struct RKKey {
    pub a: u8,
    pub b: u8,
    pub c: u8,
}

/// A key press as a terminal reports it.
#[derive(Clone, Copy, Debug, PartialEq, Eq, Structural)]
pub enum KeyPress {
    /// A character key.
    Char(char),
    /// A character key with Control held.
    Ctrl(char),
    /// A function key, by its number.
    F(u8),
    Home,
    Backspace,
    Left,
    Right,
    Up,
    Down,
    /// Any other key.
    Other,
}

/// The keys of the matrix: `layout()[column][row]` is the key where the
/// scan line `row` crosses the sense line `column`, and `Other` where the
/// matrix has no key that a terminal can send.
pub open spec fn layout() -> Seq<Seq<KeyPress>> {
    seq![
        seq![
            KeyPress::Home,
            KeyPress::Char('\t'),
            KeyPress::Char('0'),
            KeyPress::Char('8'),
            KeyPress::Char('@'),
            KeyPress::Char('h'),
            KeyPress::Char('p'),
            KeyPress::Char('x'),
        ],
        seq![
            KeyPress::Other,
            KeyPress::Char('\r'),
            KeyPress::Char('1'),
            KeyPress::Char('9'),
            KeyPress::Char('a'),
            KeyPress::Char('i'),
            KeyPress::Char('q'),
            KeyPress::Char('y'),
        ],
        seq![
            KeyPress::Other,
            KeyPress::Char('\n'),
            KeyPress::Char('2'),
            KeyPress::Char(':'),
            KeyPress::Char('b'),
            KeyPress::Char('j'),
            KeyPress::Char('r'),
            KeyPress::Char('z'),
        ],
        seq![
            KeyPress::F(1),
            KeyPress::Backspace,
            KeyPress::Char('3'),
            KeyPress::Char(';'),
            KeyPress::Char('c'),
            KeyPress::Char('k'),
            KeyPress::Char('s'),
            KeyPress::Char('['),
        ],
        seq![
            KeyPress::F(2),
            KeyPress::Left,
            KeyPress::Char('4'),
            KeyPress::Char('<'),
            KeyPress::Char('d'),
            KeyPress::Char('l'),
            KeyPress::Char('t'),
            KeyPress::Char('\\'),
        ],
        seq![
            KeyPress::F(3),
            KeyPress::Up,
            KeyPress::Char('5'),
            KeyPress::Char('-'),
            KeyPress::Char('e'),
            KeyPress::Char('m'),
            KeyPress::Char('u'),
            KeyPress::Char(']'),
        ],
        seq![
            KeyPress::F(4),
            KeyPress::Right,
            KeyPress::Char('6'),
            KeyPress::Char('>'),
            KeyPress::Char('f'),
            KeyPress::Char('n'),
            KeyPress::Char('v'),
            KeyPress::Char('^'),
        ],
        seq![
            KeyPress::Other,
            KeyPress::Down,
            KeyPress::Char('7'),
            KeyPress::Char('/'),
            KeyPress::Char('g'),
            KeyPress::Char('o'),
            KeyPress::Char('w'),
            KeyPress::Char(' '),
        ],
    ]
}

/// The key of the matrix where scan line `row` crosses sense line `column`:
/// `a` has every bit set but bit `row`, and `b` every bit but bit `column`.
pub open spec fn matrix_key(column: int, row: int) -> RKKey {
    RKKey { a: (255 - pow2(row as nat)) as u8, b: (255 - pow2(column as nat)) as u8, c: 0 }
}

impl RKKey {
    /// The key of the keyboard that a key press of the terminal stands for,
    /// if it stands for one.
    pub open spec fn of(press: KeyPress) -> Option<RKKey> {
        match press {
            KeyPress::Char(ch) => if ch == 'x' {
                Some(RKKey { a: 0b0111_1111, b: 0b1111_1110, c: 0b0000_0000 })
            } else if ch == 'p' {
                Some(RKKey { a: 0b1011_1111, b: 0b1111_1110, c: 0b0000_0000 })
            } else if ch == 'h' {
                Some(RKKey { a: 0b1101_1111, b: 0b1111_1110, c: 0b0000_0000 })
            } else if ch == '@' {
                Some(RKKey { a: 0b1110_1111, b: 0b1111_1110, c: 0b0000_0000 })
            } else if ch == '8' {
                Some(RKKey { a: 0b1111_0111, b: 0b1111_1110, c: 0b0000_0000 })
            } else if ch == '0' {
                Some(RKKey { a: 0b1111_1011, b: 0b1111_1110, c: 0b0000_0000 })
            } else if ch == '\t' {
                Some(RKKey { a: 0b1111_1101, b: 0b1111_1110, c: 0b0000_0000 })
            } else if ch == 'y' {
                Some(RKKey { a: 0b0111_1111, b: 0b1111_1101, c: 0b0000_0000 })
            } else if ch == 'q' {
                Some(RKKey { a: 0b1011_1111, b: 0b1111_1101, c: 0b0000_0000 })
            } else if ch == 'i' {
                Some(RKKey { a: 0b1101_1111, b: 0b1111_1101, c: 0b0000_0000 })
            } else if ch == 'a' {
                Some(RKKey { a: 0b1110_1111, b: 0b1111_1101, c: 0b0000_0000 })
            } else if ch == '9' {
                Some(RKKey { a: 0b1111_0111, b: 0b1111_1101, c: 0b0000_0000 })
            } else if ch == '1' {
                Some(RKKey { a: 0b1111_1011, b: 0b1111_1101, c: 0b0000_0000 })
            } else if ch == '\r' {
                Some(RKKey { a: 0b1111_1101, b: 0b1111_1101, c: 0b0000_0000 })
            } else if ch == 'z' {
                Some(RKKey { a: 0b0111_1111, b: 0b1111_1011, c: 0b0000_0000 })
            } else if ch == 'r' {
                Some(RKKey { a: 0b1011_1111, b: 0b1111_1011, c: 0b0000_0000 })
            } else if ch == 'j' {
                Some(RKKey { a: 0b1101_1111, b: 0b1111_1011, c: 0b0000_0000 })
            } else if ch == 'b' {
                Some(RKKey { a: 0b1110_1111, b: 0b1111_1011, c: 0b0000_0000 })
            } else if ch == ':' {
                Some(RKKey { a: 0b1111_0111, b: 0b1111_1011, c: 0b0000_0000 })
            } else if ch == '2' {
                Some(RKKey { a: 0b1111_1011, b: 0b1111_1011, c: 0b0000_0000 })
            } else if ch == '\n' {
                Some(RKKey { a: 0b1111_1101, b: 0b1111_1011, c: 0b0000_0000 })
            } else if ch == '[' {
                Some(RKKey { a: 0b0111_1111, b: 0b1111_0111, c: 0b0000_0000 })
            } else if ch == 's' {
                Some(RKKey { a: 0b1011_1111, b: 0b1111_0111, c: 0b0000_0000 })
            } else if ch == 'k' {
                Some(RKKey { a: 0b1101_1111, b: 0b1111_0111, c: 0b0000_0000 })
            } else if ch == 'c' {
                Some(RKKey { a: 0b1110_1111, b: 0b1111_0111, c: 0b0000_0000 })
            } else if ch == ';' {
                Some(RKKey { a: 0b1111_0111, b: 0b1111_0111, c: 0b0000_0000 })
            } else if ch == '3' {
                Some(RKKey { a: 0b1111_1011, b: 0b1111_0111, c: 0b0000_0000 })
            } else if ch == '\\' {
                Some(RKKey { a: 0b0111_1111, b: 0b1110_1111, c: 0b0000_0000 })
            } else if ch == 't' {
                Some(RKKey { a: 0b1011_1111, b: 0b1110_1111, c: 0b0000_0000 })
            } else if ch == 'l' {
                Some(RKKey { a: 0b1101_1111, b: 0b1110_1111, c: 0b0000_0000 })
            } else if ch == 'd' {
                Some(RKKey { a: 0b1110_1111, b: 0b1110_1111, c: 0b0000_0000 })
            } else if ch == '<' {
                Some(RKKey { a: 0b1111_0111, b: 0b1110_1111, c: 0b0000_0000 })
            } else if ch == '4' {
                Some(RKKey { a: 0b1111_1011, b: 0b1110_1111, c: 0b0000_0000 })
            } else if ch == ']' {
                Some(RKKey { a: 0b0111_1111, b: 0b1101_1111, c: 0b0000_0000 })
            } else if ch == 'u' {
                Some(RKKey { a: 0b1011_1111, b: 0b1101_1111, c: 0b0000_0000 })
            } else if ch == 'm' {
                Some(RKKey { a: 0b1101_1111, b: 0b1101_1111, c: 0b0000_0000 })
            } else if ch == 'e' {
                Some(RKKey { a: 0b1110_1111, b: 0b1101_1111, c: 0b0000_0000 })
            } else if ch == '-' {
                Some(RKKey { a: 0b1111_0111, b: 0b1101_1111, c: 0b0000_0000 })
            } else if ch == '5' {
                Some(RKKey { a: 0b1111_1011, b: 0b1101_1111, c: 0b0000_0000 })
            } else if ch == '^' {
                Some(RKKey { a: 0b0111_1111, b: 0b1011_1111, c: 0b0000_0000 })
            } else if ch == 'v' {
                Some(RKKey { a: 0b1011_1111, b: 0b1011_1111, c: 0b0000_0000 })
            } else if ch == 'n' {
                Some(RKKey { a: 0b1101_1111, b: 0b1011_1111, c: 0b0000_0000 })
            } else if ch == 'f' {
                Some(RKKey { a: 0b1110_1111, b: 0b1011_1111, c: 0b0000_0000 })
            } else if ch == '>' {
                Some(RKKey { a: 0b1111_0111, b: 0b1011_1111, c: 0b0000_0000 })
            } else if ch == '6' {
                Some(RKKey { a: 0b1111_1011, b: 0b1011_1111, c: 0b0000_0000 })
            } else if ch == ' ' {
                Some(RKKey { a: 0b0111_1111, b: 0b0111_1111, c: 0b0000_0000 })
            } else if ch == 'w' {
                Some(RKKey { a: 0b1011_1111, b: 0b0111_1111, c: 0b0000_0000 })
            } else if ch == 'o' {
                Some(RKKey { a: 0b1101_1111, b: 0b0111_1111, c: 0b0000_0000 })
            } else if ch == 'g' {
                Some(RKKey { a: 0b1110_1111, b: 0b0111_1111, c: 0b0000_0000 })
            } else if ch == '/' {
                Some(RKKey { a: 0b1111_0111, b: 0b0111_1111, c: 0b0000_0000 })
            } else if ch == '7' {
                Some(RKKey { a: 0b1111_1011, b: 0b0111_1111, c: 0b0000_0000 })
            } else {
                None
            },
            KeyPress::Ctrl(ch) => if ch == 'a' {
                Some(RKKey { a: 0b0000_0000, b: 0b0000_0000, c: 0b0110_0000 })
            } else if ch == 'u' {
                Some(RKKey { a: 0b0000_0000, b: 0b0000_0000, c: 0b1100_0000 })
            } else if ch == 's' {
                Some(RKKey { a: 0b0000_0000, b: 0b0000_0000, c: 0b1100_0000 })
            } else {
                None
            },
            KeyPress::F(n) => if n == 1 {
                Some(RKKey { a: 0b1111_1110, b: 0b1111_0111, c: 0b0000_0000 })
            } else if n == 2 {
                Some(RKKey { a: 0b1111_1110, b: 0b1110_1111, c: 0b0000_0000 })
            } else if n == 3 {
                Some(RKKey { a: 0b1111_1110, b: 0b1101_1111, c: 0b0000_0000 })
            } else if n == 4 {
                Some(RKKey { a: 0b1111_1110, b: 0b1011_1111, c: 0b0000_0000 })
            } else {
                None
            },
            KeyPress::Home => Some(RKKey { a: 0b1111_1110, b: 0b1111_1110, c: 0b0000_0000 }),
            KeyPress::Backspace => Some(RKKey { a: 0b1111_1101, b: 0b1111_0111, c: 0b0000_0000 }),
            KeyPress::Left => Some(RKKey { a: 0b1111_1101, b: 0b1110_1111, c: 0b0000_0000 }),
            KeyPress::Up => Some(RKKey { a: 0b1111_1101, b: 0b1101_1111, c: 0b0000_0000 }),
            KeyPress::Right => Some(RKKey { a: 0b1111_1101, b: 0b1011_1111, c: 0b0000_0000 }),
            KeyPress::Down => Some(RKKey { a: 0b1111_1101, b: 0b0111_1111, c: 0b0000_0000 }),
            KeyPress::Other => None,
        }
    }

    /// The key of the keyboard that a key press of the terminal stands for,
    /// if it stands for one.
    pub fn try_from(press: KeyPress) -> (key: Option<RKKey>)
        ensures
            key == RKKey::of(press),
    {
        match press {
            KeyPress::Char(ch) => if ch == 'x' {
                Some(RKKey { a: 0b0111_1111, b: 0b1111_1110, c: 0b0000_0000 })
            } else if ch == 'p' {
                Some(RKKey { a: 0b1011_1111, b: 0b1111_1110, c: 0b0000_0000 })
            } else if ch == 'h' {
                Some(RKKey { a: 0b1101_1111, b: 0b1111_1110, c: 0b0000_0000 })
            } else if ch == '@' {
                Some(RKKey { a: 0b1110_1111, b: 0b1111_1110, c: 0b0000_0000 })
            } else if ch == '8' {
                Some(RKKey { a: 0b1111_0111, b: 0b1111_1110, c: 0b0000_0000 })
            } else if ch == '0' {
                Some(RKKey { a: 0b1111_1011, b: 0b1111_1110, c: 0b0000_0000 })
            } else if ch == '\t' {
                Some(RKKey { a: 0b1111_1101, b: 0b1111_1110, c: 0b0000_0000 })
            } else if ch == 'y' {
                Some(RKKey { a: 0b0111_1111, b: 0b1111_1101, c: 0b0000_0000 })
            } else if ch == 'q' {
                Some(RKKey { a: 0b1011_1111, b: 0b1111_1101, c: 0b0000_0000 })
            } else if ch == 'i' {
                Some(RKKey { a: 0b1101_1111, b: 0b1111_1101, c: 0b0000_0000 })
            } else if ch == 'a' {
                Some(RKKey { a: 0b1110_1111, b: 0b1111_1101, c: 0b0000_0000 })
            } else if ch == '9' {
                Some(RKKey { a: 0b1111_0111, b: 0b1111_1101, c: 0b0000_0000 })
            } else if ch == '1' {
                Some(RKKey { a: 0b1111_1011, b: 0b1111_1101, c: 0b0000_0000 })
            } else if ch == '\r' {
                Some(RKKey { a: 0b1111_1101, b: 0b1111_1101, c: 0b0000_0000 })
            } else if ch == 'z' {
                Some(RKKey { a: 0b0111_1111, b: 0b1111_1011, c: 0b0000_0000 })
            } else if ch == 'r' {
                Some(RKKey { a: 0b1011_1111, b: 0b1111_1011, c: 0b0000_0000 })
            } else if ch == 'j' {
                Some(RKKey { a: 0b1101_1111, b: 0b1111_1011, c: 0b0000_0000 })
            } else if ch == 'b' {
                Some(RKKey { a: 0b1110_1111, b: 0b1111_1011, c: 0b0000_0000 })
            } else if ch == ':' {
                Some(RKKey { a: 0b1111_0111, b: 0b1111_1011, c: 0b0000_0000 })
            } else if ch == '2' {
                Some(RKKey { a: 0b1111_1011, b: 0b1111_1011, c: 0b0000_0000 })
            } else if ch == '\n' {
                Some(RKKey { a: 0b1111_1101, b: 0b1111_1011, c: 0b0000_0000 })
            } else if ch == '[' {
                Some(RKKey { a: 0b0111_1111, b: 0b1111_0111, c: 0b0000_0000 })
            } else if ch == 's' {
                Some(RKKey { a: 0b1011_1111, b: 0b1111_0111, c: 0b0000_0000 })
            } else if ch == 'k' {
                Some(RKKey { a: 0b1101_1111, b: 0b1111_0111, c: 0b0000_0000 })
            } else if ch == 'c' {
                Some(RKKey { a: 0b1110_1111, b: 0b1111_0111, c: 0b0000_0000 })
            } else if ch == ';' {
                Some(RKKey { a: 0b1111_0111, b: 0b1111_0111, c: 0b0000_0000 })
            } else if ch == '3' {
                Some(RKKey { a: 0b1111_1011, b: 0b1111_0111, c: 0b0000_0000 })
            } else if ch == '\\' {
                Some(RKKey { a: 0b0111_1111, b: 0b1110_1111, c: 0b0000_0000 })
            } else if ch == 't' {
                Some(RKKey { a: 0b1011_1111, b: 0b1110_1111, c: 0b0000_0000 })
            } else if ch == 'l' {
                Some(RKKey { a: 0b1101_1111, b: 0b1110_1111, c: 0b0000_0000 })
            } else if ch == 'd' {
                Some(RKKey { a: 0b1110_1111, b: 0b1110_1111, c: 0b0000_0000 })
            } else if ch == '<' {
                Some(RKKey { a: 0b1111_0111, b: 0b1110_1111, c: 0b0000_0000 })
            } else if ch == '4' {
                Some(RKKey { a: 0b1111_1011, b: 0b1110_1111, c: 0b0000_0000 })
            } else if ch == ']' {
                Some(RKKey { a: 0b0111_1111, b: 0b1101_1111, c: 0b0000_0000 })
            } else if ch == 'u' {
                Some(RKKey { a: 0b1011_1111, b: 0b1101_1111, c: 0b0000_0000 })
            } else if ch == 'm' {
                Some(RKKey { a: 0b1101_1111, b: 0b1101_1111, c: 0b0000_0000 })
            } else if ch == 'e' {
                Some(RKKey { a: 0b1110_1111, b: 0b1101_1111, c: 0b0000_0000 })
            } else if ch == '-' {
                Some(RKKey { a: 0b1111_0111, b: 0b1101_1111, c: 0b0000_0000 })
            } else if ch == '5' {
                Some(RKKey { a: 0b1111_1011, b: 0b1101_1111, c: 0b0000_0000 })
            } else if ch == '^' {
                Some(RKKey { a: 0b0111_1111, b: 0b1011_1111, c: 0b0000_0000 })
            } else if ch == 'v' {
                Some(RKKey { a: 0b1011_1111, b: 0b1011_1111, c: 0b0000_0000 })
            } else if ch == 'n' {
                Some(RKKey { a: 0b1101_1111, b: 0b1011_1111, c: 0b0000_0000 })
            } else if ch == 'f' {
                Some(RKKey { a: 0b1110_1111, b: 0b1011_1111, c: 0b0000_0000 })
            } else if ch == '>' {
                Some(RKKey { a: 0b1111_0111, b: 0b1011_1111, c: 0b0000_0000 })
            } else if ch == '6' {
                Some(RKKey { a: 0b1111_1011, b: 0b1011_1111, c: 0b0000_0000 })
            } else if ch == ' ' {
                Some(RKKey { a: 0b0111_1111, b: 0b0111_1111, c: 0b0000_0000 })
            } else if ch == 'w' {
                Some(RKKey { a: 0b1011_1111, b: 0b0111_1111, c: 0b0000_0000 })
            } else if ch == 'o' {
                Some(RKKey { a: 0b1101_1111, b: 0b0111_1111, c: 0b0000_0000 })
            } else if ch == 'g' {
                Some(RKKey { a: 0b1110_1111, b: 0b0111_1111, c: 0b0000_0000 })
            } else if ch == '/' {
                Some(RKKey { a: 0b1111_0111, b: 0b0111_1111, c: 0b0000_0000 })
            } else if ch == '7' {
                Some(RKKey { a: 0b1111_1011, b: 0b0111_1111, c: 0b0000_0000 })
            } else {
                None
            },
            KeyPress::Ctrl(ch) => if ch == 'a' {
                Some(RKKey { a: 0b0000_0000, b: 0b0000_0000, c: 0b0110_0000 })
            } else if ch == 'u' {
                Some(RKKey { a: 0b0000_0000, b: 0b0000_0000, c: 0b1100_0000 })
            } else if ch == 's' {
                Some(RKKey { a: 0b0000_0000, b: 0b0000_0000, c: 0b1100_0000 })
            } else {
                None
            },
            KeyPress::F(n) => if n == 1 {
                Some(RKKey { a: 0b1111_1110, b: 0b1111_0111, c: 0b0000_0000 })
            } else if n == 2 {
                Some(RKKey { a: 0b1111_1110, b: 0b1110_1111, c: 0b0000_0000 })
            } else if n == 3 {
                Some(RKKey { a: 0b1111_1110, b: 0b1101_1111, c: 0b0000_0000 })
            } else if n == 4 {
                Some(RKKey { a: 0b1111_1110, b: 0b1011_1111, c: 0b0000_0000 })
            } else {
                None
            },
            KeyPress::Home => Some(RKKey { a: 0b1111_1110, b: 0b1111_1110, c: 0b0000_0000 }),
            KeyPress::Backspace => Some(RKKey { a: 0b1111_1101, b: 0b1111_0111, c: 0b0000_0000 }),
            KeyPress::Left => Some(RKKey { a: 0b1111_1101, b: 0b1110_1111, c: 0b0000_0000 }),
            KeyPress::Up => Some(RKKey { a: 0b1111_1101, b: 0b1101_1111, c: 0b0000_0000 }),
            KeyPress::Right => Some(RKKey { a: 0b1111_1101, b: 0b1011_1111, c: 0b0000_0000 }),
            KeyPress::Down => Some(RKKey { a: 0b1111_1101, b: 0b0111_1111, c: 0b0000_0000 }),
            KeyPress::Other => None,
        }
    }
}

/// The keyboard as the processor sees it: four ports of a parallel
/// interface, with the key matrix behind them.
///
/// Port 0 takes the scan line. Port 1 reads the matrix back. Port 2 holds the
/// indicators in its low four bits, and reads the modifier keys in its high
/// four. Port 3 takes commands that set or clear one bit of port 2. Every
/// other address reads `0xFF` and ignores writes.
///
/// The keyboard keeps the time it was last told. A key is held from the time
/// it was pressed until more than `KEY_HOLD_MS` after.
#[derive(Clone, Copy, Debug)]
pub struct RKKeyboard {
    current_key: Option<(RKKey, u64)>,
    current_line: u8,
    state: u8,
    now: u64,
}

/// What a port reads, given the key that is held, the scan line and the
/// indicators.
pub open spec fn port_read(key: Option<RKKey>, line: u8, state: u8, addr: u16) -> u8 {
    if addr == 1 {
        if line == 0 {
            if key is Some {
                0
            } else {
                0xFF
            }
        } else if key is Some && key->0.a == line {
            key->0.b
        } else {
            0xFF
        }
    } else if addr == 2 && key is Some && key->0.a == 0 && key->0.b == 0 {
        (key->0.c & 0xF0) | (state & 0x0F)
    } else {
        0xFF
    }
}

/// The indicators once `value` has been written to the port at `addr`.
///
/// Port 2 takes the low four bits of the value. Port 3, for a value with bit
/// 7 clear, sets the bit whose number is in bits 1 to 3 of the value to bit 0
/// of the value.
pub open spec fn state_written(state: u8, addr: u16, value: u8) -> u8 {
    if addr == 2 {
        value & 0x0F
    } else if addr == 3 && value & 0x80 == 0 {
        if value & 1 == 1 {
            state | (1u8 << ((value >> 1) & 7))
        } else {
            state & !(1u8 << ((value >> 1) & 7))
        }
    } else {
        state
    }
}

impl RKKeyboard {
    /// The key that was last pressed, and when, if any was.
    pub closed spec fn pressed(self) -> Option<(RKKey, u64)> {
        self.current_key
    }

    /// The scan line that was last written to port 0.
    pub closed spec fn line(self) -> u8 {
        self.current_line
    }

    /// The byte behind port 2. Its low four bits are the indicators.
    pub closed spec fn indicator_state(self) -> u8 {
        self.state
    }

    /// The time that the keyboard was last told.
    pub closed spec fn time(self) -> u64 {
        self.now
    }

    /// The key that is held: the one last pressed, unless that was more than
    /// `KEY_HOLD_MS` before the time that the keyboard was last told.
    pub open spec fn held(self) -> Option<RKKey> {
        match self.pressed() {
            Some((key, when)) => if self.time() - when <= KEY_HOLD_MS {
                Some(key)
            } else {
                None
            },
            None => None,
        }
    }

    /// The keyboard once `value` has been written to the port at `addr`.
    pub closed spec fn written(self, addr: u16, value: u8) -> RKKeyboard {
        RKKeyboard {
            current_line: if addr == 0 { value } else { self.current_line },
            state: state_written(self.state, addr, value),
            ..self
        }
    }

    /// The keyboard once all of `writes` have been applied, in order.
    pub open spec fn after(self, writes: Seq<(u16, u8)>) -> RKKeyboard
        decreases writes.len(),
    {
        if writes.len() == 0 {
            self
        } else {
            self.written(writes[0].0, writes[0].1).after(writes.drop_first())
        }
    }

    /// What the port at `addr` reads.
    pub open spec fn port(self, addr: u16) -> u8 {
        port_read(self.held(), self.line(), self.indicator_state(), addr)
    }

    /// A write to a port changes the scan line and the indicators as
    /// `state_written` says, and neither the key nor the time.
    pub proof fn lemma_written(self, addr: u16, value: u8)
        ensures
            self.written(addr, value).line() == (if addr == 0 { value } else { self.line() }),
            self.written(addr, value).indicator_state() == state_written(
                self.indicator_state(),
                addr,
                value,
            ),
            self.written(addr, value).pressed() == self.pressed(),
            self.written(addr, value).time() == self.time(),
    {
    }

    /// The image of the keyboard reads its ports, and a write to it is a
    /// write to a port.
    pub proof fn lemma_image(self, addr: u16, value: u8)
        ensures
            self@.read(addr) == self.port(addr),
            self@.write(addr, value) == self.written(addr, value)@,
    {
        let written = self@.write(addr, value);
        let direct = self.written(addr, value)@;
        assert forall|writes: Seq<(u16, u8)>, a: u16| #[trigger]
            (written.after)(writes, a) == (direct.after)(writes, a) by {
            let all = seq![(addr, value)] + writes;
            assert(all.drop_first() =~= writes);
        }
        assert(written.after =~= direct.after);
    }

    /// A keyboard with no key pressed, scan line 0, indicators off, at time
    /// 0.
    pub fn new() -> (keyboard: Self)
        ensures
            keyboard.pressed() is None,
            keyboard.line() == 0,
            keyboard.indicator_state() == 0,
            keyboard.time() == 0,
    {
        RKKeyboard { current_key: None, current_line: 0, state: 0, now: 0 }
    }

    /// Tells the keyboard the time, in milliseconds.
    pub fn set_time(&mut self, now: u64)
        ensures
            final(self).time() == now,
            final(self).pressed() == old(self).pressed(),
            final(self).line() == old(self).line(),
            final(self).indicator_state() == old(self).indicator_state(),
    {
        self.now = now;
    }

    /// Presses `key`, at the time that the keyboard was last told.
    pub fn press(&mut self, key: RKKey)
        ensures
            final(self).pressed() == Some((key, old(self).time())),
            final(self).held() == Some(key),
            final(self).time() == old(self).time(),
            final(self).line() == old(self).line(),
            final(self).indicator_state() == old(self).indicator_state(),
    {
        self.current_key = Some((key, self.now));
    }

    /// Takes a key press, if there is one, and says whether it asks to quit.
    ///
    /// Control with C or with Q asks to quit. Any other press that stands
    /// for a key of the keyboard presses that key, at the time that the
    /// keyboard was last told. The rest are ignored.
    pub fn process_key(&mut self, event: Option<KeyPress>) -> (quit: bool)
        ensures
            quit == (event == Some(KeyPress::Ctrl('c')) || event == Some(KeyPress::Ctrl('q'))),
            final(self).pressed() == (if !quit && event is Some && RKKey::of(event->0) is Some {
                Some((RKKey::of(event->0)->0, old(self).time()))
            } else {
                old(self).pressed()
            }),
            final(self).time() == old(self).time(),
            final(self).line() == old(self).line(),
            final(self).indicator_state() == old(self).indicator_state(),
    {
        if let Some(press) = event {
            if let KeyPress::Ctrl(ch) = press {
                if ch == 'c' || ch == 'q' {
                    return true;
                }
            }
            if let Some(key) = RKKey::try_from(press) {
                self.press(key);
            }
        }
        false
    }

    /// The key that is held, if one is.
    pub fn get_current_key(&self) -> (key: Option<RKKey>)
        ensures
            key == self.held(),
    {
        match self.current_key {
            Some((key, when)) => {
                if self.now > when && self.now - when > KEY_HOLD_MS {
                    None
                } else {
                    Some(key)
                }
            },
            None => None,
        }
    }

    /// The four indicators, in the low four bits.
    pub fn get_indicators(&self) -> (indicators: u8)
        ensures
            indicators == self.indicator_state() & 0x0F,
            indicators < 16,
    {
        let state = self.state;
        assert(state & 0x0F < 16) by (bit_vector);
        state & 0x0F
    }
}

impl Memory for RKKeyboard {
    open spec fn view(&self) -> Image {
        Image { after: |writes: Seq<(u16, u8)>, a: u16| self.after(writes).port(a) }
    }

    fn get_u8(&self, addr: u16) -> (value: u8)
        ensures
            value == self.port(addr),
    {
        proof {
            self.lemma_image(addr, 0);
        }
        if addr == 1 {
            let current_key = self.get_current_key();
            if self.current_line == 0 {
                if current_key.is_some() {
                    return 0;
                } else {
                    return 0xFF;
                }
            }
            if let Some(key) = current_key {
                if self.current_line == key.a {
                    return key.b;
                } else {
                    return 0xFF;
                }
            }
        } else if addr == 2 {
            if let Some(key) = self.get_current_key() {
                if key.a == 0 && key.b == 0 {
                    return key.c & 0xF0 | (self.state & 0x0F);
                }
            }
        }
        0xFF
    }

    fn set_u8(&mut self, addr: u16, value: u8)
        ensures
            *final(self) == old(self).written(addr, value),
            final(self).line() == (if addr == 0 { value } else { old(self).line() }),
            final(self).indicator_state() == state_written(
                old(self).indicator_state(),
                addr,
                value,
            ),
            final(self).pressed() == old(self).pressed(),
            final(self).time() == old(self).time(),
    {
        proof {
            self.lemma_image(addr, value);
            self.lemma_written(addr, value);
        }
        if addr == 0 {
            self.current_line = value;
        }
        if addr == 2 {
            self.state = value & 0x0F;
        }
        if addr == 3 && (value & 0x80) == 0 {
            let bit = (value >> 1) & 7;
            assert(((value >> 1) & 7) < 8) by (bit_vector);
            let mask = 1u8 << bit;
            let state = self.state;
            if value & 1 == 1 {
                self.state = state | mask;
            } else {
                self.state = state & !mask;
            }
        }
    }
}

/// Each key of the layout stands at its crossing of the matrix, and no key
/// press stands for a key of the matrix but those of the layout.
pub proof fn lemma_layout(column: int, row: int, press: KeyPress)
    requires
        0 <= column < 8,
        0 <= row < 8,
    ensures
        layout()[column][row] != KeyPress::Other ==> RKKey::of(layout()[column][row]) == Some(
            matrix_key(column, row),
        ),
        RKKey::of(press) == Some(matrix_key(column, row)) ==> layout()[column][row] == press,
{
    lemma2_to64();
}

/// A key press stands for a key of the matrix, for a modifier key, or for
/// none: a key has either `c` zero and one bit clear in each of `a` and `b`,
/// or `a` and `b` zero and `c` in the high four bits.
pub proof fn lemma_key_shapes(press: KeyPress)
    ensures
        RKKey::of(press) is Some ==> {
            let key = RKKey::of(press)->0;
            ||| exists|column: int, row: int|
                0 <= column < 8 && 0 <= row < 8 && key == #[trigger] matrix_key(column, row)
            ||| key.a == 0 && key.b == 0 && key.c != 0 && key.c % 16 == 0
        },
{
    lemma2_to64();
    if RKKey::of(press) is Some {
        let key = RKKey::of(press)->0;
        if key.c == 0 {
            let column: int = if key.b == 0xFE { 0 } else if key.b == 0xFD { 1 } else if key.b == 0xFB { 2 } else if key.b == 0xF7 { 3 } else if key.b == 0xEF { 4 } else if key.b == 0xDF { 5 } else if key.b == 0xBF { 6 } else { 7 };
            let row: int = if key.a == 0xFE { 0 } else if key.a == 0xFD { 1 } else if key.a == 0xFB { 2 } else if key.a == 0xF7 { 3 } else if key.a == 0xEF { 4 } else if key.a == 0xDF { 5 } else if key.a == 0xBF { 6 } else { 7 };
            assert(key == matrix_key(column, row));
        }
    }
}

} // verus!
