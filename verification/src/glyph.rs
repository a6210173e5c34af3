//! The 5x8 font of the LED matrix displays.
use vstd::prelude::*;

verus! {

/// A glyph: its width in columns (1 to 5), and its columns packed into the
/// low 40 bits, one byte per column with the leftmost column in the highest
/// byte. In each column byte the most significant bit is the top row.
#[derive(Clone, Copy, Debug, PartialEq, Eq)]
pub struct Char(pub u8, pub u64);

/// The font: the glyph of each printable ASCII character; every other
/// character, the space among them, is drawn as three blank columns.
pub open spec fn glyph(c: char) -> (u8, u64) {
    match c {
        '!' => (1u8, 0b0101111100000000000000000000000000000000u64),
        '"' => (3u8, 0b0000001100000000000000110000000000000000u64),
        '#' => (5u8, 0b0001010000111110000101000011111000010100u64),
        '$' => (4u8, 0b0010010001101010001010110001001000000000u64),
        '%' => (5u8, 0b0110001100010011000010000110010001100011u64),
        '&' => (5u8, 0b0011011001001001010101100010000001010000u64),
        '\'' => (1u8, 0b0000001100000000000000000000000000000000u64),
        '(' => (3u8, 0b0001110000100010010000010000000000000000u64),
        ')' => (3u8, 0b0100000100100010000111000000000000000000u64),
        '*' => (5u8, 0b0010100000011000000011100001100000101000u64),
        '+' => (5u8, 0b0000100000001000001111100000100000001000u64),
        ',' => (2u8, 0b1011000001110000000000000000000000000000u64),
        '-' => (4u8, 0b0000100000001000000010000000100000000000u64),
        '.' => (2u8, 0b0110000001100000000000000000000000000000u64),
        '/' => (4u8, 0b0110000000011000000001100000000100000000u64),
        '0' => (4u8, 0b0011111001000001010000010011111000000000u64),
        '1' => (3u8, 0b0100001001111111010000000000000000000000u64),
        '2' => (4u8, 0b0110001001010001010010010100011000000000u64),
        '3' => (4u8, 0b0010001001000001010010010011011000000000u64),
        '4' => (4u8, 0b0001100000010100000100100111111100000000u64),
        '5' => (4u8, 0b0010011101000101010001010011100100000000u64),
        '6' => (4u8, 0b0011111001001001010010010011000000000000u64),
        '7' => (4u8, 0b0110000100010001000010010000011100000000u64),
        '8' => (4u8, 0b0011011001001001010010010011011000000000u64),
        '9' => (4u8, 0b0000011001001001010010010011111000000000u64),
        ':' => (2u8, 0b0101000000000000000000000000000000000000u64),
        ';' => (2u8, 0b1000000001010000000000000000000000000000u64),
        '<' => (3u8, 0b0001000000101000010001000000000000000000u64),
        '=' => (3u8, 0b0001010000010100000101000000000000000000u64),
        '>' => (3u8, 0b0100010000101000000100000000000000000000u64),
        '?' => (4u8, 0b0000001001011001000010010000011000000000u64),
        '@' => (5u8, 0b0011111001001001010101010101110100001110u64),
        'A' => (4u8, 0b0111111000010001000100010111111000000000u64),
        'B' => (4u8, 0b0111111101001001010010010011011000000000u64),
        'C' => (4u8, 0b0011111001000001010000010010001000000000u64),
        'D' => (4u8, 0b0111111101000001010000010011111000000000u64),
        'E' => (4u8, 0b0111111101001001010010010100000100000000u64),
        'F' => (4u8, 0b0111111100001001000010010000000100000000u64),
        'G' => (4u8, 0b0011111001000001010010010111101000000000u64),
        'H' => (4u8, 0b0111111100001000000010000111111100000000u64),
        'I' => (3u8, 0b0100000101111111010000010000000000000000u64),
        'J' => (4u8, 0b0011000001000000010000010011111100000000u64),
        'K' => (4u8, 0b0111111100001000000101000110001100000000u64),
        'L' => (4u8, 0b0111111101000000010000000100000000000000u64),
        'M' => (5u8, 0b0111111100000010000011000000001001111111u64),
        'N' => (5u8, 0b0111111100000100000010000001000001111111u64),
        'O' => (4u8, 0b0011111001000001010000010011111000000000u64),
        'P' => (4u8, 0b0111111100001001000010010000011000000000u64),
        'Q' => (4u8, 0b0011111001000001010000011011111000000000u64),
        'R' => (4u8, 0b0111111100001001000010010111011000000000u64),
        'S' => (4u8, 0b0100011001001001010010010011001000000000u64),
        'T' => (5u8, 0b0000000100000001011111110000000100000001u64),
        'U' => (4u8, 0b0011111101000000010000000011111100000000u64),
        'V' => (5u8, 0b0000111100110000010000000011000000001111u64),
        'W' => (5u8, 0b0011111101000000001110000100000000111111u64),
        'X' => (5u8, 0b0110001100010100000010000001010001100011u64),
        'Y' => (5u8, 0b0000011100001000011100000000100000000111u64),
        'Z' => (4u8, 0b0110000101010001010010010100011100000000u64),
        '[' => (2u8, 0b0111111101000001000000000000000000000000u64),
        '\\' => (4u8, 0b0000000100000110000110000110000000000000u64),
        ']' => (2u8, 0b0100000101111111000000000000000000000000u64),
        '^' => (3u8, 0b0000001000000001000000100000000000000000u64),
        '_' => (4u8, 0b0100000001000000010000000100000000000000u64),
        '`' => (2u8, 0b0000000100000010000000000000000000000000u64),
        'a' => (4u8, 0b0010000001010100010101000111100000000000u64),
        'b' => (4u8, 0b0111111101000100010001000011100000000000u64),
        'c' => (4u8, 0b0011100001000100010001000010100000000000u64),
        'd' => (4u8, 0b0011100001000100010001000111111100000000u64),
        'e' => (4u8, 0b0011100001010100010101000001100000000000u64),
        'f' => (3u8, 0b0000010001111110000001010000000000000000u64),
        'g' => (4u8, 0b1001100010100100101001000111100000000000u64),
        'h' => (4u8, 0b0111111100000100000001000111100000000000u64),
        'i' => (3u8, 0b0100010001111101010000000000000000000000u64),
        'j' => (4u8, 0b0100000010000000100001000111110100000000u64),
        'k' => (4u8, 0b0111111100010000001010000100010000000000u64),
        'l' => (3u8, 0b0100000101111111010000000000000000000000u64),
        'm' => (5u8, 0b0111110000000100011111000000010001111000u64),
        'n' => (4u8, 0b0111110000000100000001000111100000000000u64),
        'o' => (4u8, 0b0011100001000100010001000011100000000000u64),
        'p' => (4u8, 0b1111110000100100001001000001100000000000u64),
        'q' => (4u8, 0b0001100000100100001001001111110000000000u64),
        'r' => (4u8, 0b0111110000001000000001000000010000000000u64),
        's' => (4u8, 0b0100100001010100010101000010010000000000u64),
        't' => (3u8, 0b0000010000111111010001000000000000000000u64),
        'u' => (4u8, 0b0011110001000000010000000111110000000000u64),
        'v' => (5u8, 0b0001110000100000010000000010000000011100u64),
        'w' => (5u8, 0b0011110001000000001111000100000000111100u64),
        'x' => (5u8, 0b0100010000101000000100000010100001000100u64),
        'y' => (4u8, 0b1001110010100000101000000111110000000000u64),
        'z' => (3u8, 0b0110010001010100010011000000000000000000u64),
        '{' => (3u8, 0b0000100000110110010000010000000000000000u64),
        '|' => (1u8, 0b0111111100000000000000000000000000000000u64),
        '}' => (3u8, 0b0100000100110110000010000000000000000000u64),
        '~' => (4u8, 0b0000100000000100000010000000010000000000u64),
        _ => (3u8, 0u64),
    }
}

impl Char {
    /// The glyph of a character.
    pub fn from(c: char) -> (res: Char)
        ensures
            (res.0, res.1) == glyph(c),
            1 <= res.0 <= 5,
    {
        match c {
            '!' => Char(1, 0b0101111100000000000000000000000000000000),
            '"' => Char(3, 0b0000001100000000000000110000000000000000),
            '#' => Char(5, 0b0001010000111110000101000011111000010100),
            '$' => Char(4, 0b0010010001101010001010110001001000000000),
            '%' => Char(5, 0b0110001100010011000010000110010001100011),
            '&' => Char(5, 0b0011011001001001010101100010000001010000),
            '\'' => Char(1, 0b0000001100000000000000000000000000000000),
            '(' => Char(3, 0b0001110000100010010000010000000000000000),
            ')' => Char(3, 0b0100000100100010000111000000000000000000),
            '*' => Char(5, 0b0010100000011000000011100001100000101000),
            '+' => Char(5, 0b0000100000001000001111100000100000001000),
            ',' => Char(2, 0b1011000001110000000000000000000000000000),
            '-' => Char(4, 0b0000100000001000000010000000100000000000),
            '.' => Char(2, 0b0110000001100000000000000000000000000000),
            '/' => Char(4, 0b0110000000011000000001100000000100000000),
            '0' => Char(4, 0b0011111001000001010000010011111000000000),
            '1' => Char(3, 0b0100001001111111010000000000000000000000),
            '2' => Char(4, 0b0110001001010001010010010100011000000000),
            '3' => Char(4, 0b0010001001000001010010010011011000000000),
            '4' => Char(4, 0b0001100000010100000100100111111100000000),
            '5' => Char(4, 0b0010011101000101010001010011100100000000),
            '6' => Char(4, 0b0011111001001001010010010011000000000000),
            '7' => Char(4, 0b0110000100010001000010010000011100000000),
            '8' => Char(4, 0b0011011001001001010010010011011000000000),
            '9' => Char(4, 0b0000011001001001010010010011111000000000),
            ':' => Char(2, 0b0101000000000000000000000000000000000000),
            ';' => Char(2, 0b1000000001010000000000000000000000000000),
            '<' => Char(3, 0b0001000000101000010001000000000000000000),
            '=' => Char(3, 0b0001010000010100000101000000000000000000),
            '>' => Char(3, 0b0100010000101000000100000000000000000000),
            '?' => Char(4, 0b0000001001011001000010010000011000000000),
            '@' => Char(5, 0b0011111001001001010101010101110100001110),
            'A' => Char(4, 0b0111111000010001000100010111111000000000),
            'B' => Char(4, 0b0111111101001001010010010011011000000000),
            'C' => Char(4, 0b0011111001000001010000010010001000000000),
            'D' => Char(4, 0b0111111101000001010000010011111000000000),
            'E' => Char(4, 0b0111111101001001010010010100000100000000),
            'F' => Char(4, 0b0111111100001001000010010000000100000000),
            'G' => Char(4, 0b0011111001000001010010010111101000000000),
            'H' => Char(4, 0b0111111100001000000010000111111100000000),
            'I' => Char(3, 0b0100000101111111010000010000000000000000),
            'J' => Char(4, 0b0011000001000000010000010011111100000000),
            'K' => Char(4, 0b0111111100001000000101000110001100000000),
            'L' => Char(4, 0b0111111101000000010000000100000000000000),
            'M' => Char(5, 0b0111111100000010000011000000001001111111),
            'N' => Char(5, 0b0111111100000100000010000001000001111111),
            'O' => Char(4, 0b0011111001000001010000010011111000000000),
            'P' => Char(4, 0b0111111100001001000010010000011000000000),
            'Q' => Char(4, 0b0011111001000001010000011011111000000000),
            'R' => Char(4, 0b0111111100001001000010010111011000000000),
            'S' => Char(4, 0b0100011001001001010010010011001000000000),
            'T' => Char(5, 0b0000000100000001011111110000000100000001),
            'U' => Char(4, 0b0011111101000000010000000011111100000000),
            'V' => Char(5, 0b0000111100110000010000000011000000001111),
            'W' => Char(5, 0b0011111101000000001110000100000000111111),
            'X' => Char(5, 0b0110001100010100000010000001010001100011),
            'Y' => Char(5, 0b0000011100001000011100000000100000000111),
            'Z' => Char(4, 0b0110000101010001010010010100011100000000),
            '[' => Char(2, 0b0111111101000001000000000000000000000000),
            '\\' => Char(4, 0b0000000100000110000110000110000000000000),
            ']' => Char(2, 0b0100000101111111000000000000000000000000),
            '^' => Char(3, 0b0000001000000001000000100000000000000000),
            '_' => Char(4, 0b0100000001000000010000000100000000000000),
            '`' => Char(2, 0b0000000100000010000000000000000000000000),
            'a' => Char(4, 0b0010000001010100010101000111100000000000),
            'b' => Char(4, 0b0111111101000100010001000011100000000000),
            'c' => Char(4, 0b0011100001000100010001000010100000000000),
            'd' => Char(4, 0b0011100001000100010001000111111100000000),
            'e' => Char(4, 0b0011100001010100010101000001100000000000),
            'f' => Char(3, 0b0000010001111110000001010000000000000000),
            'g' => Char(4, 0b1001100010100100101001000111100000000000),
            'h' => Char(4, 0b0111111100000100000001000111100000000000),
            'i' => Char(3, 0b0100010001111101010000000000000000000000),
            'j' => Char(4, 0b0100000010000000100001000111110100000000),
            'k' => Char(4, 0b0111111100010000001010000100010000000000),
            'l' => Char(3, 0b0100000101111111010000000000000000000000),
            'm' => Char(5, 0b0111110000000100011111000000010001111000),
            'n' => Char(4, 0b0111110000000100000001000111100000000000),
            'o' => Char(4, 0b0011100001000100010001000011100000000000),
            'p' => Char(4, 0b1111110000100100001001000001100000000000),
            'q' => Char(4, 0b0001100000100100001001001111110000000000),
            'r' => Char(4, 0b0111110000001000000001000000010000000000),
            's' => Char(4, 0b0100100001010100010101000010010000000000),
            't' => Char(3, 0b0000010000111111010001000000000000000000),
            'u' => Char(4, 0b0011110001000000010000000111110000000000),
            'v' => Char(5, 0b0001110000100000010000000010000000011100),
            'w' => Char(5, 0b0011110001000000001111000100000000111100),
            'x' => Char(5, 0b0100010000101000000100000010100001000100),
            'y' => Char(4, 0b1001110010100000101000000111110000000000),
            'z' => Char(3, 0b0110010001010100010011000000000000000000),
            '{' => Char(3, 0b0000100000110110010000010000000000000000),
            '|' => Char(1, 0b0111111100000000000000000000000000000000),
            '}' => Char(3, 0b0100000100110110000010000000000000000000),
            '~' => Char(4, 0b0000100000000100000010000000010000000000),
            _ => Char(3, 0x0),
        }
    }
}

} // verus!
