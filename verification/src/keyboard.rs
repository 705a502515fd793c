//! Keyboard input: modifier flags, key codes, and the character each key
//! code stands for on the US layout.

use vstd::prelude::*;

verus! {

pub const L_CONTROL: u8 = 0b0000_0001;

pub const L_SHIFT: u8 = 0b0000_0010;

pub const L_ALT: u8 = 0b0000_0100;

pub const L_GUI: u8 = 0b0000_1000;

pub const R_CONTROL: u8 = 0b0001_0000;

pub const R_SHIFT: u8 = 0b0010_0000;

pub const R_ALT: u8 = 0b0100_0000;

pub const R_GUI: u8 = 0b1000_0000;

/// The set of modifier keys held down, one bit per key.
#[derive(Copy, Clone, PartialEq, Eq, Hash, Debug, Structural)]
pub struct Modifiers {
    bits: u8,
}

impl Modifiers {
    pub closed spec fn spec_bits(&self) -> u8 {
        self.bits
    }

    pub fn from_bits_truncate(bits: u8) -> (m: Modifiers)
        ensures
            m.spec_bits() == bits,
    {
        Modifiers { bits }
    }

    pub fn intersects(&self, mask: u8) -> (r: bool)
        ensures
            r == (self.spec_bits() & mask != 0),
    {
        self.bits & mask != 0
    }
}

/// A raw key code together with the modifiers held when it arrived.
#[derive(Copy, Clone, PartialEq, Eq, Hash, Debug, Structural)]
pub struct KeyCode(pub Modifiers, pub u8);

/// The character a key code produces without shift held, `'\0'` when none.
pub open spec fn spec_char_noshift(code: u8) -> char {
    match code {
        0 => '\0',
        1 => '\0',
        2 => '\0',
        3 => '\0',
        4 => 'a',
        5 => 'b',
        6 => 'c',
        7 => 'd',
        8 => 'e',
        9 => 'f',
        10 => 'g',
        11 => 'h',
        12 => 'i',
        13 => 'j',
        14 => 'k',
        15 => 'l',
        16 => 'm',
        17 => 'n',
        18 => 'o',
        19 => 'p',
        20 => 'q',
        21 => 'r',
        22 => 's',
        23 => 't',
        24 => 'u',
        25 => 'v',
        26 => 'w',
        27 => 'x',
        28 => 'y',
        29 => 'z',
        30 => '1',
        31 => '2',
        32 => '3',
        33 => '4',
        34 => '5',
        35 => '6',
        36 => '7',
        37 => '8',
        38 => '9',
        39 => '0',
        40 => '\n',
        41 => '\x1b',
        42 => '\x08',
        43 => '\t',
        44 => ' ',
        45 => '-',
        46 => '=',
        47 => '[',
        48 => ']',
        49 => '\\',
        50 => '#',
        51 => ';',
        52 => '\'',
        53 => '`',
        54 => ',',
        55 => '.',
        56 => '/',
        57 => '\0',
        58 => '\0',
        59 => '\0',
        60 => '\0',
        61 => '\0',
        62 => '\0',
        63 => '\0',
        64 => '\0',
        65 => '\0',
        66 => '\0',
        67 => '\0',
        68 => '\0',
        69 => '\0',
        70 => '\0',
        71 => '\0',
        72 => '\0',
        73 => '\0',
        74 => '\0',
        75 => '\0',
        76 => '\0',
        77 => '\0',
        78 => '\0',
        79 => '\0',
        80 => '\0',
        81 => '\0',
        82 => '\0',
        83 => '\0',
        84 => '/',
        85 => '*',
        86 => '-',
        87 => '+',
        88 => '\n',
        89 => '1',
        90 => '2',
        91 => '3',
        92 => '4',
        93 => '5',
        94 => '6',
        95 => '7',
        96 => '8',
        97 => '9',
        98 => '0',
        99 => '.',
        100 => '\\',
        101 => '\0',
        102 => '\0',
        103 => '=',
        _ => '\0',
    }
}

/// The character a key code produces with shift held, `'\0'` when none.
pub open spec fn spec_char_shift(code: u8) -> char {
    match code {
        0 => '\0',
        1 => '\0',
        2 => '\0',
        3 => '\0',
        4 => 'A',
        5 => 'B',
        6 => 'C',
        7 => 'D',
        8 => 'E',
        9 => 'F',
        10 => 'G',
        11 => 'H',
        12 => 'I',
        13 => 'J',
        14 => 'K',
        15 => 'L',
        16 => 'M',
        17 => 'N',
        18 => 'O',
        19 => 'P',
        20 => 'Q',
        21 => 'R',
        22 => 'S',
        23 => 'T',
        24 => 'U',
        25 => 'V',
        26 => 'W',
        27 => 'X',
        28 => 'Y',
        29 => 'Z',
        30 => '!',
        31 => '@',
        32 => '#',
        33 => '$',
        34 => '%',
        35 => '^',
        36 => '&',
        37 => '*',
        38 => '(',
        39 => ')',
        40 => '\n',
        41 => '\x1b',
        42 => '\x08',
        43 => '\t',
        44 => ' ',
        45 => '_',
        46 => '+',
        47 => '{',
        48 => '}',
        49 => '|',
        50 => '~',
        51 => ':',
        52 => '"',
        53 => '~',
        54 => '<',
        55 => '>',
        56 => '?',
        57 => '\0',
        58 => '\0',
        59 => '\0',
        60 => '\0',
        61 => '\0',
        62 => '\0',
        63 => '\0',
        64 => '\0',
        65 => '\0',
        66 => '\0',
        67 => '\0',
        68 => '\0',
        69 => '\0',
        70 => '\0',
        71 => '\0',
        72 => '\0',
        73 => '\0',
        74 => '\0',
        75 => '\0',
        76 => '\0',
        77 => '\0',
        78 => '\0',
        79 => '\0',
        80 => '\0',
        81 => '\0',
        82 => '\0',
        83 => '\0',
        84 => '/',
        85 => '*',
        86 => '-',
        87 => '+',
        88 => '\n',
        89 => '1',
        90 => '2',
        91 => '3',
        92 => '4',
        93 => '5',
        94 => '6',
        95 => '7',
        96 => '8',
        97 => '9',
        98 => '0',
        99 => '.',
        100 => '\\',
        101 => '\0',
        102 => '\0',
        103 => '=',
        _ => '\0',
    }
}

/// The character a key code stands for: shift picks the table; codes past
/// the table and codes with no character give `None`.
pub open spec fn spec_to_char(k: KeyCode) -> Option<char> {
    if k.1 >= 104 {
        None
    } else {
        let c = if k.0.spec_bits() & (L_SHIFT | R_SHIFT) != 0 {
            spec_char_shift(k.1)
        } else {
            spec_char_noshift(k.1)
        };
        if c == '\0' {
            None
        } else {
            Some(c)
        }
    }
}

impl KeyCode {
    pub fn new(modifiers: Modifiers, code: u8) -> (k: KeyCode)
        ensures
            k.0 == modifiers,
            k.1 == code,
    {
        KeyCode(modifiers, code)
    }

    pub fn to_char(&self) -> (r: Option<char>)
        ensures
            r == spec_to_char(*self),
    {
        if self.1 >= 104 {
            return None;
        }
        let c = if self.0.intersects(L_SHIFT | R_SHIFT) {
            char_shift(self.1)
        } else {
            char_noshift(self.1)
        };
        if c == '\0' {
            None
        } else {
            Some(c)
        }
    }
}

fn char_noshift(code: u8) -> (c: char)
    ensures
        c == spec_char_noshift(code),
{
    match code {
        0 => '\0',
        1 => '\0',
        2 => '\0',
        3 => '\0',
        4 => 'a',
        5 => 'b',
        6 => 'c',
        7 => 'd',
        8 => 'e',
        9 => 'f',
        10 => 'g',
        11 => 'h',
        12 => 'i',
        13 => 'j',
        14 => 'k',
        15 => 'l',
        16 => 'm',
        17 => 'n',
        18 => 'o',
        19 => 'p',
        20 => 'q',
        21 => 'r',
        22 => 's',
        23 => 't',
        24 => 'u',
        25 => 'v',
        26 => 'w',
        27 => 'x',
        28 => 'y',
        29 => 'z',
        30 => '1',
        31 => '2',
        32 => '3',
        33 => '4',
        34 => '5',
        35 => '6',
        36 => '7',
        37 => '8',
        38 => '9',
        39 => '0',
        40 => '\n',
        41 => '\x1b',
        42 => '\x08',
        43 => '\t',
        44 => ' ',
        45 => '-',
        46 => '=',
        47 => '[',
        48 => ']',
        49 => '\\',
        50 => '#',
        51 => ';',
        52 => '\'',
        53 => '`',
        54 => ',',
        55 => '.',
        56 => '/',
        57 => '\0',
        58 => '\0',
        59 => '\0',
        60 => '\0',
        61 => '\0',
        62 => '\0',
        63 => '\0',
        64 => '\0',
        65 => '\0',
        66 => '\0',
        67 => '\0',
        68 => '\0',
        69 => '\0',
        70 => '\0',
        71 => '\0',
        72 => '\0',
        73 => '\0',
        74 => '\0',
        75 => '\0',
        76 => '\0',
        77 => '\0',
        78 => '\0',
        79 => '\0',
        80 => '\0',
        81 => '\0',
        82 => '\0',
        83 => '\0',
        84 => '/',
        85 => '*',
        86 => '-',
        87 => '+',
        88 => '\n',
        89 => '1',
        90 => '2',
        91 => '3',
        92 => '4',
        93 => '5',
        94 => '6',
        95 => '7',
        96 => '8',
        97 => '9',
        98 => '0',
        99 => '.',
        100 => '\\',
        101 => '\0',
        102 => '\0',
        103 => '=',
        _ => '\0',
    }
}

fn char_shift(code: u8) -> (c: char)
    ensures
        c == spec_char_shift(code),
{
    match code {
        0 => '\0',
        1 => '\0',
        2 => '\0',
        3 => '\0',
        4 => 'A',
        5 => 'B',
        6 => 'C',
        7 => 'D',
        8 => 'E',
        9 => 'F',
        10 => 'G',
        11 => 'H',
        12 => 'I',
        13 => 'J',
        14 => 'K',
        15 => 'L',
        16 => 'M',
        17 => 'N',
        18 => 'O',
        19 => 'P',
        20 => 'Q',
        21 => 'R',
        22 => 'S',
        23 => 'T',
        24 => 'U',
        25 => 'V',
        26 => 'W',
        27 => 'X',
        28 => 'Y',
        29 => 'Z',
        30 => '!',
        31 => '@',
        32 => '#',
        33 => '$',
        34 => '%',
        35 => '^',
        36 => '&',
        37 => '*',
        38 => '(',
        39 => ')',
        40 => '\n',
        41 => '\x1b',
        42 => '\x08',
        43 => '\t',
        44 => ' ',
        45 => '_',
        46 => '+',
        47 => '{',
        48 => '}',
        49 => '|',
        50 => '~',
        51 => ':',
        52 => '"',
        53 => '~',
        54 => '<',
        55 => '>',
        56 => '?',
        57 => '\0',
        58 => '\0',
        59 => '\0',
        60 => '\0',
        61 => '\0',
        62 => '\0',
        63 => '\0',
        64 => '\0',
        65 => '\0',
        66 => '\0',
        67 => '\0',
        68 => '\0',
        69 => '\0',
        70 => '\0',
        71 => '\0',
        72 => '\0',
        73 => '\0',
        74 => '\0',
        75 => '\0',
        76 => '\0',
        77 => '\0',
        78 => '\0',
        79 => '\0',
        80 => '\0',
        81 => '\0',
        82 => '\0',
        83 => '\0',
        84 => '/',
        85 => '*',
        86 => '-',
        87 => '+',
        88 => '\n',
        89 => '1',
        90 => '2',
        91 => '3',
        92 => '4',
        93 => '5',
        94 => '6',
        95 => '7',
        96 => '8',
        97 => '9',
        98 => '0',
        99 => '.',
        100 => '\\',
        101 => '\0',
        102 => '\0',
        103 => '=',
        _ => '\0',
    }
}

} // verus!
