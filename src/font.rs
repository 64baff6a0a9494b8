//! The built-in 5×5 font for printable ASCII.
use vstd::prelude::*;
use crate::image::BitImage;

verus! {

/// The first byte that has a glyph of its own (the space).
pub const FIRST_PRINTABLE: u8 = 0x20;

/// The last byte that has a glyph of its own (the tilde).
pub const LAST_PRINTABLE: u8 = 0x7e;

/// The rows of the glyph of each printable ASCII byte, from the space on.
pub const GLYPH_ROWS: [[u8; 5]; 95] = [
    [0b00000, 0b00000, 0b00000, 0b00000, 0b00000], // space
    [0b00100, 0b00100, 0b00100, 0b00000, 0b00100], // !
    [0b01010, 0b01010, 0b00000, 0b00000, 0b00000], // "
    [0b01010, 0b11111, 0b01010, 0b11111, 0b01010], // #
    [0b01111, 0b10100, 0b01110, 0b00101, 0b11110], // $
    [0b11001, 0b11010, 0b00100, 0b01011, 0b10011], // %
    [0b01100, 0b10010, 0b01101, 0b10010, 0b01101], // &
    [0b00100, 0b00100, 0b00000, 0b00000, 0b00000], // apostrophe
    [0b00010, 0b00100, 0b00100, 0b00100, 0b00010], // (
    [0b01000, 0b00100, 0b00100, 0b00100, 0b01000], // )
    [0b00000, 0b01010, 0b00100, 0b01010, 0b00000], // *
    [0b00000, 0b00100, 0b01110, 0b00100, 0b00000], // +
    [0b00000, 0b00000, 0b00000, 0b00100, 0b01000], // ,
    [0b00000, 0b00000, 0b01110, 0b00000, 0b00000], // -
    [0b00000, 0b00000, 0b00000, 0b00000, 0b00100], // .
    [0b00001, 0b00010, 0b00100, 0b01000, 0b10000], // /
    [0b01110, 0b10011, 0b10101, 0b11001, 0b01110], // 0
    [0b00100, 0b01100, 0b00100, 0b00100, 0b01110], // 1
    [0b11100, 0b00010, 0b01100, 0b10000, 0b11110], // 2
    [0b11110, 0b00010, 0b00100, 0b10010, 0b01100], // 3
    [0b00110, 0b01010, 0b10010, 0b11111, 0b00010], // 4
    [0b11111, 0b10000, 0b11110, 0b00001, 0b11110], // 5
    [0b00010, 0b00100, 0b01110, 0b10001, 0b01110], // 6
    [0b11111, 0b00010, 0b00100, 0b01000, 0b10000], // 7
    [0b01110, 0b10001, 0b01110, 0b10001, 0b01110], // 8
    [0b01110, 0b10001, 0b01110, 0b00100, 0b01000], // 9
    [0b00000, 0b00100, 0b00000, 0b00100, 0b00000], // :
    [0b00000, 0b00100, 0b00000, 0b00100, 0b01000], // ;
    [0b00010, 0b00100, 0b01000, 0b00100, 0b00010], // <
    [0b00000, 0b01110, 0b00000, 0b01110, 0b00000], // =
    [0b01000, 0b00100, 0b00010, 0b00100, 0b01000], // >
    [0b01110, 0b10001, 0b00010, 0b00000, 0b00100], // ?
    [0b01110, 0b10001, 0b10111, 0b10000, 0b01111], // @
    [0b01110, 0b10001, 0b11111, 0b10001, 0b10001], // A
    [0b11110, 0b10001, 0b11110, 0b10001, 0b11110], // B
    [0b01111, 0b10000, 0b10000, 0b10000, 0b01111], // C
    [0b11110, 0b10001, 0b10001, 0b10001, 0b11110], // D
    [0b11111, 0b10000, 0b11110, 0b10000, 0b11111], // E
    [0b11111, 0b10000, 0b11110, 0b10000, 0b10000], // F
    [0b01111, 0b10000, 0b10011, 0b10001, 0b01110], // G
    [0b10001, 0b10001, 0b11111, 0b10001, 0b10001], // H
    [0b11111, 0b00100, 0b00100, 0b00100, 0b11111], // I
    [0b11111, 0b00010, 0b00010, 0b10010, 0b01100], // J
    [0b10010, 0b10100, 0b11000, 0b10100, 0b10010], // K
    [0b10000, 0b10000, 0b10000, 0b10000, 0b11111], // L
    [0b10001, 0b11011, 0b10101, 0b10001, 0b10001], // M
    [0b10001, 0b11001, 0b10101, 0b10011, 0b10001], // N
    [0b01110, 0b10001, 0b10001, 0b10001, 0b01110], // O
    [0b11110, 0b10001, 0b11110, 0b10000, 0b10000], // P
    [0b01110, 0b10001, 0b10101, 0b10010, 0b01101], // Q
    [0b11110, 0b10001, 0b11110, 0b10010, 0b10001], // R
    [0b01111, 0b10000, 0b01110, 0b00001, 0b11110], // S
    [0b11111, 0b00100, 0b00100, 0b00100, 0b00100], // T
    [0b10001, 0b10001, 0b10001, 0b10001, 0b01110], // U
    [0b10001, 0b10001, 0b10001, 0b01010, 0b00100], // V
    [0b10001, 0b10001, 0b10101, 0b11011, 0b10001], // W
    [0b10001, 0b01010, 0b00100, 0b01010, 0b10001], // X
    [0b10001, 0b01010, 0b00100, 0b00100, 0b00100], // Y
    [0b11111, 0b00010, 0b00100, 0b01000, 0b11111], // Z
    [0b01110, 0b01000, 0b01000, 0b01000, 0b01110], // [
    [0b10000, 0b01000, 0b00100, 0b00010, 0b00001], // backslash
    [0b01110, 0b00010, 0b00010, 0b00010, 0b01110], // ]
    [0b00100, 0b01010, 0b00000, 0b00000, 0b00000], // ^
    [0b00000, 0b00000, 0b00000, 0b00000, 0b11111], // _
    [0b01000, 0b00100, 0b00000, 0b00000, 0b00000], // `
    [0b00000, 0b01110, 0b10010, 0b10010, 0b01111], // a
    [0b10000, 0b10000, 0b11100, 0b10010, 0b11100], // b
    [0b00000, 0b01110, 0b10000, 0b10000, 0b01110], // c
    [0b00010, 0b00010, 0b01110, 0b10010, 0b01110], // d
    [0b01100, 0b10010, 0b11100, 0b10000, 0b01110], // e
    [0b00110, 0b01000, 0b11100, 0b01000, 0b01000], // f
    [0b01110, 0b10010, 0b01110, 0b00010, 0b01100], // g
    [0b10000, 0b10000, 0b11100, 0b10010, 0b10010], // h
    [0b00100, 0b00000, 0b00100, 0b00100, 0b00100], // i
    [0b00010, 0b00000, 0b00010, 0b10010, 0b01100], // j
    [0b10000, 0b10010, 0b11100, 0b10010, 0b10010], // k
    [0b01000, 0b01000, 0b01000, 0b01000, 0b00110], // l
    [0b00000, 0b11011, 0b10101, 0b10001, 0b10001], // m
    [0b00000, 0b11100, 0b10010, 0b10010, 0b10010], // n
    [0b00000, 0b01100, 0b10010, 0b10010, 0b01100], // o
    [0b00000, 0b11100, 0b10010, 0b11100, 0b10000], // p
    [0b00000, 0b01110, 0b10010, 0b01110, 0b00010], // q
    [0b00000, 0b01110, 0b10000, 0b10000, 0b10000], // r
    [0b00000, 0b00110, 0b01000, 0b00100, 0b11000], // s
    [0b01000, 0b11100, 0b01000, 0b01000, 0b00110], // t
    [0b00000, 0b10010, 0b10010, 0b10010, 0b01111], // u
    [0b00000, 0b10001, 0b10001, 0b01010, 0b00100], // v
    [0b00000, 0b10001, 0b10001, 0b10101, 0b01010], // w
    [0b00000, 0b10010, 0b01100, 0b01100, 0b10010], // x
    [0b00000, 0b10001, 0b01010, 0b00100, 0b11000], // y
    [0b00000, 0b11110, 0b00100, 0b01000, 0b11110], // z
    [0b00110, 0b00100, 0b01100, 0b00100, 0b00110], // {
    [0b00100, 0b00100, 0b00100, 0b00100, 0b00100], // |
    [0b01100, 0b00100, 0b00110, 0b00100, 0b01100], // }
    [0b00000, 0b00000, 0b01101, 0b10010, 0b00000], // ~
];

/// The glyph shown for byte `c`: its entry in the table for printable ASCII,
/// the blank space glyph for every other byte.
pub open spec fn glyph(c: u8) -> BitImage {
    if FIRST_PRINTABLE <= c <= LAST_PRINTABLE {
        BitImage { rows: GLYPH_ROWS[c - FIRST_PRINTABLE] }
    } else {
        BitImage { rows: GLYPH_ROWS[0] }
    }
}

/// Looks up the glyph of byte `c`.
pub fn character(c: u8) -> (r: BitImage)
    ensures
        r == glyph(c),
{
    if FIRST_PRINTABLE <= c && c <= LAST_PRINTABLE {
        BitImage { rows: GLYPH_ROWS[(c - FIRST_PRINTABLE) as usize] }
    } else {
        BitImage { rows: GLYPH_ROWS[0] }
    }
}

} // verus!
