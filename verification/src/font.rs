//! Bitmap fonts for the overlay: a small 8-pixel font and a big 16-pixel
//! one, each with 128 glyphs (ASCII; higher bytes draw glyph 127), and the
//! pixels a glyph or a text sets.
use vstd::prelude::*;

verus! {

/// Where a glyph's bitmap lies and how it is placed: the pen advance, the
/// bitmap's size, its offset from the pen position (y is negative above the
/// baseline) and its first byte in the font data. Each bitmap row takes
/// `(width + 7) / 8` bytes; bit `px % 8` of byte `px / 8` is column `px`.
#[derive(Clone, Copy)]
pub struct FontGlyph {
    pub step_width: i32,
    pub width: i32,
    pub height: i32,
    pub x: i32,
    pub y: i32,
    pub data_offset: usize,
}

/// The two fonts.
#[derive(Clone, Copy, PartialEq, Eq, Structural, Debug)]
pub enum FontSize {
    Small,
    Big,
}

/// Line height of the small font.
pub const SMALL_FONT_H: i32 = 8;

/// Line height of the big font.
pub const BIG_FONT_H: i32 = 16;

/// Glyph bitmaps of the small font.
pub const SMALL_FONT_DATA: [u8; 586] = [
    0x03, 0x03, 0x03, 0x03, 0x03, 0x00, 0x03, 0x05, 0x05, 0x0A, 0x1F, 0x1F, 0x0A, 0x1F, 0x1F, 0x0A,
    0x0A, 0x1E, 0x0B, 0x0F, 0x1E, 0x1A, 0x0F, 0x0A, 0x13, 0x1B, 0x18, 0x0C, 0x04, 0x36, 0x32, 0x0E,
    0x1B, 0x0E, 0x2F, 0x3B, 0x3B, 0x2E, 0x01, 0x01, 0x04, 0x02, 0x03, 0x03, 0x03, 0x03, 0x02, 0x04,
    0x01, 0x02, 0x06, 0x06, 0x06, 0x06, 0x02, 0x01, 0x04, 0x15, 0x1F, 0x0E, 0x1F, 0x15, 0x04, 0x04,
    0x04, 0x1F, 0x04, 0x04, 0x02, 0x03, 0x01, 0x0F, 0x03, 0x03, 0x04, 0x04, 0x04, 0x06, 0x02, 0x03,
    0x03, 0x01, 0x0E, 0x1B, 0x1B, 0x1B, 0x1B, 0x1B, 0x0E, 0x06, 0x07, 0x06, 0x06, 0x06, 0x06, 0x06,
    0x0F, 0x18, 0x18, 0x0E, 0x03, 0x03, 0x1F, 0x0F, 0x18, 0x18, 0x0E, 0x18, 0x18, 0x0F, 0x18, 0x1C,
    0x1A, 0x19, 0x1F, 0x18, 0x18, 0x0F, 0x01, 0x0F, 0x18, 0x18, 0x18, 0x0F, 0x0E, 0x03, 0x0F, 0x1B,
    0x1B, 0x1B, 0x0E, 0x1F, 0x18, 0x0C, 0x0C, 0x06, 0x06, 0x06, 0x0E, 0x1B, 0x1B, 0x0E, 0x1B, 0x1B,
    0x0E, 0x0E, 0x1B, 0x1B, 0x1B, 0x1E, 0x18, 0x0E, 0x03, 0x03, 0x00, 0x03, 0x03, 0x03, 0x03, 0x00,
    0x02, 0x03, 0x01, 0x08, 0x0C, 0x06, 0x03, 0x06, 0x0C, 0x08, 0x0F, 0x00, 0x0F, 0x01, 0x03, 0x06,
    0x0C, 0x06, 0x03, 0x01, 0x0F, 0x18, 0x0C, 0x06, 0x06, 0x00, 0x06, 0x1E, 0x33, 0x3F, 0x3B, 0x3F,
    0x03, 0x1E, 0x0E, 0x1B, 0x1B, 0x1B, 0x1F, 0x1B, 0x1B, 0x0F, 0x1B, 0x0F, 0x1B, 0x1B, 0x1B, 0x0F,
    0x1E, 0x03, 0x03, 0x03, 0x03, 0x03, 0x1E, 0x0F, 0x1B, 0x1B, 0x1B, 0x1B, 0x1B, 0x0F, 0x1F, 0x03,
    0x0F, 0x03, 0x03, 0x03, 0x1F, 0x1F, 0x03, 0x0F, 0x03, 0x03, 0x03, 0x03, 0x0E, 0x03, 0x03, 0x1B,
    0x1B, 0x1B, 0x1E, 0x1B, 0x1B, 0x1F, 0x1B, 0x1B, 0x1B, 0x1B, 0x03, 0x03, 0x03, 0x03, 0x03, 0x03,
    0x03, 0x0C, 0x0C, 0x0C, 0x0C, 0x0C, 0x0C, 0x07, 0x33, 0x1B, 0x0F, 0x07, 0x0F, 0x1B, 0x33, 0x03,
    0x03, 0x03, 0x03, 0x03, 0x03, 0x0F, 0x41, 0x63, 0x77, 0x7F, 0x6B, 0x63, 0x63, 0x31, 0x33, 0x37,
    0x3F, 0x3B, 0x33, 0x23, 0x1E, 0x33, 0x33, 0x33, 0x33, 0x33, 0x1E, 0x0F, 0x1B, 0x1B, 0x1B, 0x0F,
    0x03, 0x03, 0x1E, 0x33, 0x33, 0x33, 0x33, 0x3B, 0x1E, 0x30, 0x0F, 0x1B, 0x1B, 0x1B, 0x0F, 0x0B,
    0x1B, 0x0E, 0x03, 0x03, 0x06, 0x0C, 0x0C, 0x07, 0x3F, 0x0C, 0x0C, 0x0C, 0x0C, 0x0C, 0x0C, 0x1B,
    0x1B, 0x1B, 0x1B, 0x1B, 0x1B, 0x0E, 0x33, 0x33, 0x33, 0x1E, 0x1E, 0x0C, 0x0C, 0x63, 0x63, 0x6B,
    0x7F, 0x3E, 0x3E, 0x36, 0x33, 0x33, 0x1E, 0x0C, 0x1E, 0x33, 0x33, 0x33, 0x33, 0x1E, 0x0C, 0x0C,
    0x0C, 0x0C, 0x1F, 0x18, 0x1C, 0x0E, 0x07, 0x03, 0x1F, 0x07, 0x03, 0x03, 0x03, 0x03, 0x03, 0x03,
    0x07, 0x01, 0x01, 0x01, 0x03, 0x02, 0x06, 0x06, 0x04, 0x07, 0x06, 0x06, 0x06, 0x06, 0x06, 0x06,
    0x07, 0x02, 0x07, 0x05, 0x3F, 0x01, 0x02, 0x0E, 0x18, 0x1E, 0x1B, 0x1E, 0x03, 0x03, 0x0F, 0x1B,
    0x1B, 0x1B, 0x0F, 0x0E, 0x03, 0x03, 0x03, 0x0E, 0x18, 0x18, 0x1E, 0x1B, 0x1B, 0x1B, 0x1E, 0x0E,
    0x1B, 0x1F, 0x03, 0x1E, 0x06, 0x03, 0x07, 0x03, 0x03, 0x03, 0x03, 0x1E, 0x1B, 0x1B, 0x1E, 0x18,
    0x0E, 0x03, 0x03, 0x0F, 0x1B, 0x1B, 0x1B, 0x1B, 0x03, 0x00, 0x03, 0x03, 0x03, 0x03, 0x03, 0x06,
    0x00, 0x06, 0x06, 0x06, 0x06, 0x06, 0x03, 0x03, 0x03, 0x1B, 0x0F, 0x07, 0x0F, 0x1B, 0x03, 0x03,
    0x03, 0x03, 0x03, 0x03, 0x03, 0x7F, 0xDB, 0xDB, 0xDB, 0xDB, 0x0F, 0x1B, 0x1B, 0x1B, 0x1B, 0x0E,
    0x1B, 0x1B, 0x1B, 0x0E, 0x0F, 0x1B, 0x1B, 0x0F, 0x03, 0x03, 0x1E, 0x1B, 0x1B, 0x1E, 0x18, 0x18,
    0x0B, 0x0F, 0x03, 0x03, 0x03, 0x0E, 0x03, 0x0F, 0x0C, 0x07, 0x03, 0x03, 0x07, 0x03, 0x03, 0x03,
    0x06, 0x1B, 0x1B, 0x1B, 0x1B, 0x1E, 0x1B, 0x1B, 0x0E, 0x0E, 0x04, 0x63, 0x6B, 0x6B, 0x3E, 0x36,
    0x1B, 0x1B, 0x0E, 0x1B, 0x1B, 0x1B, 0x1B, 0x1B, 0x1E, 0x18, 0x0E, 0x1F, 0x0C, 0x06, 0x03, 0x1F,
    0x07, 0x03, 0x03, 0x03, 0x03, 0x03, 0x03, 0x07, 0x03, 0x03, 0x03, 0x03, 0x03, 0x03, 0x03, 0x03,
    0x07, 0x06, 0x06, 0x06, 0x06, 0x06, 0x06, 0x07, 0x16, 0x0D,
];







/// Glyph bitmaps of the big font.
pub const BIG_FONT_DATA: [u8; 1036] = [
    0x1F, 0x11, 0x11, 0x11, 0x11, 0x11, 0x11, 0x11, 0x1F, 0x1F, 0x11, 0x11, 0x11, 0x11, 0x11, 0x11,
    0x11, 0x1F, 0x1F, 0x11, 0x11, 0x11, 0x11, 0x11, 0x11, 0x11, 0x1F, 0x1F, 0x11, 0x11, 0x11, 0x11,
    0x11, 0x11, 0x11, 0x1F, 0x1F, 0x11, 0x11, 0x11, 0x11, 0x11, 0x11, 0x11, 0x1F, 0x1F, 0x11, 0x11,
    0x11, 0x11, 0x11, 0x11, 0x11, 0x1F, 0x1F, 0x11, 0x11, 0x11, 0x11, 0x11, 0x11, 0x11, 0x1F, 0x1F,
    0x11, 0x11, 0x11, 0x11, 0x11, 0x11, 0x11, 0x1F, 0x1F, 0x11, 0x11, 0x11, 0x11, 0x11, 0x11, 0x11,
    0x1F, 0x1F, 0x11, 0x11, 0x11, 0x11, 0x11, 0x11, 0x11, 0x1F, 0x1F, 0x11, 0x11, 0x11, 0x11, 0x11,
    0x11, 0x11, 0x1F, 0x1F, 0x11, 0x11, 0x11, 0x11, 0x11, 0x11, 0x11, 0x1F, 0x1F, 0x11, 0x11, 0x11,
    0x11, 0x11, 0x11, 0x11, 0x1F, 0x1F, 0x11, 0x11, 0x11, 0x11, 0x11, 0x11, 0x11, 0x1F, 0x1F, 0x11,
    0x11, 0x11, 0x11, 0x11, 0x11, 0x11, 0x1F, 0x1F, 0x11, 0x11, 0x11, 0x11, 0x11, 0x11, 0x11, 0x1F,
    0x1F, 0x11, 0x11, 0x11, 0x11, 0x11, 0x11, 0x11, 0x1F, 0x1F, 0x11, 0x11, 0x11, 0x11, 0x11, 0x11,
    0x11, 0x1F, 0x1F, 0x11, 0x11, 0x11, 0x11, 0x11, 0x11, 0x11, 0x1F, 0x1F, 0x11, 0x11, 0x11, 0x11,
    0x11, 0x11, 0x11, 0x1F, 0x1F, 0x11, 0x11, 0x11, 0x11, 0x11, 0x11, 0x11, 0x1F, 0x1F, 0x11, 0x11,
    0x11, 0x11, 0x11, 0x11, 0x11, 0x1F, 0x1F, 0x11, 0x11, 0x11, 0x11, 0x11, 0x11, 0x11, 0x1F, 0x1F,
    0x11, 0x11, 0x11, 0x11, 0x11, 0x11, 0x11, 0x1F, 0x1F, 0x11, 0x11, 0x11, 0x11, 0x11, 0x11, 0x11,
    0x1F, 0x1F, 0x11, 0x11, 0x11, 0x11, 0x11, 0x11, 0x11, 0x1F, 0x1F, 0x11, 0x11, 0x11, 0x11, 0x11,
    0x11, 0x11, 0x1F, 0x1F, 0x11, 0x11, 0x11, 0x11, 0x11, 0x11, 0x11, 0x1F, 0x1F, 0x11, 0x11, 0x11,
    0x11, 0x11, 0x11, 0x11, 0x1F, 0x1F, 0x11, 0x11, 0x11, 0x11, 0x11, 0x11, 0x11, 0x1F, 0x1F, 0x11,
    0x11, 0x11, 0x11, 0x11, 0x11, 0x11, 0x1F, 0x1F, 0x11, 0x11, 0x11, 0x11, 0x11, 0x11, 0x11, 0x1F,
    0x01, 0x01, 0x01, 0x01, 0x01, 0x01, 0x01, 0x00, 0x01, 0x05, 0x05, 0x05, 0x12, 0x12, 0x3F, 0x12,
    0x12, 0x12, 0x3F, 0x12, 0x12, 0x04, 0x04, 0x0E, 0x15, 0x05, 0x05, 0x0E, 0x14, 0x14, 0x15, 0x0E,
    0x04, 0x04, 0x02, 0x05, 0x25, 0x12, 0x08, 0x24, 0x52, 0x50, 0x20, 0x0E, 0x11, 0x01, 0x01, 0x0E,
    0x11, 0x11, 0x11, 0x1E, 0x01, 0x01, 0x01, 0x04, 0x02, 0x01, 0x01, 0x01, 0x01, 0x01, 0x02, 0x04,
    0x01, 0x02, 0x04, 0x04, 0x04, 0x04, 0x04, 0x02, 0x01, 0x04, 0x15, 0x0E, 0x15, 0x04, 0x04, 0x04,
    0x1F, 0x04, 0x04, 0x02, 0x02, 0x01, 0x0F, 0x01, 0x04, 0x04, 0x04, 0x02, 0x02, 0x02, 0x01, 0x01,
    0x01, 0x0E, 0x11, 0x11, 0x19, 0x15, 0x13, 0x11, 0x11, 0x0E, 0x04, 0x06, 0x05, 0x04, 0x04, 0x04,
    0x04, 0x04, 0x1F, 0x0E, 0x11, 0x10, 0x08, 0x04, 0x02, 0x01, 0x01, 0x1F, 0x0E, 0x11, 0x10, 0x10,
    0x0C, 0x10, 0x10, 0x11, 0x0E, 0x10, 0x18, 0x14, 0x12, 0x11, 0x1F, 0x10, 0x10, 0x10, 0x1F, 0x01,
    0x01, 0x0F, 0x10, 0x10, 0x10, 0x11, 0x0E, 0x0E, 0x11, 0x01, 0x01, 0x0F, 0x11, 0x11, 0x11, 0x0E,
    0x1F, 0x10, 0x10, 0x08, 0x04, 0x02, 0x01, 0x01, 0x01, 0x0E, 0x11, 0x11, 0x11, 0x0E, 0x11, 0x11,
    0x11, 0x0E, 0x0E, 0x11, 0x11, 0x11, 0x1E, 0x10, 0x10, 0x11, 0x0E, 0x01, 0x00, 0x00, 0x00, 0x00,
    0x00, 0x01, 0x02, 0x00, 0x00, 0x00, 0x00, 0x00, 0x02, 0x02, 0x01, 0x04, 0x02, 0x01, 0x02, 0x04,
    0x0F, 0x00, 0x0F, 0x01, 0x02, 0x04, 0x02, 0x01, 0x0E, 0x11, 0x10, 0x08, 0x04, 0x04, 0x04, 0x00,
    0x04, 0x3E, 0x41, 0x59, 0x55, 0x55, 0x55, 0x39, 0x01, 0x3E, 0x0E, 0x11, 0x11, 0x11, 0x11, 0x1F,
    0x11, 0x11, 0x11, 0x0F, 0x11, 0x11, 0x11, 0x0F, 0x11, 0x11, 0x11, 0x0F, 0x0E, 0x11, 0x01, 0x01,
    0x01, 0x01, 0x01, 0x11, 0x0E, 0x0F, 0x11, 0x11, 0x11, 0x11, 0x11, 0x11, 0x11, 0x0F, 0x1F, 0x01,
    0x01, 0x01, 0x07, 0x01, 0x01, 0x01, 0x1F, 0x1F, 0x01, 0x01, 0x01, 0x07, 0x01, 0x01, 0x01, 0x01,
    0x0E, 0x11, 0x01, 0x01, 0x19, 0x11, 0x11, 0x11, 0x1E, 0x11, 0x11, 0x11, 0x11, 0x1F, 0x11, 0x11,
    0x11, 0x11, 0x1F, 0x04, 0x04, 0x04, 0x04, 0x04, 0x04, 0x04, 0x1F, 0x3C, 0x30, 0x10, 0x10, 0x10,
    0x10, 0x10, 0x11, 0x0E, 0x11, 0x11, 0x09, 0x05, 0x03, 0x05, 0x09, 0x11, 0x11, 0x01, 0x01, 0x01,
    0x01, 0x01, 0x01, 0x01, 0x01, 0x1F, 0x41, 0x41, 0x63, 0x55, 0x49, 0x41, 0x41, 0x41, 0x41, 0x11,
    0x11, 0x11, 0x13, 0x15, 0x19, 0x11, 0x11, 0x11, 0x0E, 0x11, 0x11, 0x11, 0x11, 0x11, 0x11, 0x11,
    0x0E, 0x0F, 0x11, 0x11, 0x11, 0x0F, 0x01, 0x01, 0x01, 0x01, 0x0E, 0x11, 0x11, 0x11, 0x11, 0x11,
    0x15, 0x09, 0x16, 0x0F, 0x11, 0x11, 0x11, 0x0F, 0x05, 0x09, 0x11, 0x11, 0x0E, 0x11, 0x01, 0x01,
    0x0E, 0x10, 0x10, 0x11, 0x0E, 0x1F, 0x04, 0x04, 0x04, 0x04, 0x04, 0x04, 0x04, 0x04, 0x11, 0x11,
    0x11, 0x11, 0x11, 0x11, 0x11, 0x11, 0x0E, 0x11, 0x11, 0x11, 0x11, 0x11, 0x11, 0x11, 0x0A, 0x04,
    0x41, 0x41, 0x49, 0x49, 0x49, 0x49, 0x49, 0x49, 0x36, 0x11, 0x11, 0x11, 0x0A, 0x04, 0x0A, 0x11,
    0x11, 0x11, 0x11, 0x11, 0x11, 0x0A, 0x04, 0x04, 0x04, 0x04, 0x04, 0x1F, 0x10, 0x10, 0x08, 0x04,
    0x02, 0x01, 0x01, 0x1F, 0x07, 0x01, 0x01, 0x01, 0x01, 0x01, 0x01, 0x01, 0x07, 0x01, 0x01, 0x01,
    0x02, 0x02, 0x02, 0x04, 0x04, 0x04, 0x07, 0x04, 0x04, 0x04, 0x04, 0x04, 0x04, 0x04, 0x07, 0x04,
    0x0A, 0x11, 0xFF, 0x01, 0x02, 0x0E, 0x11, 0x10, 0x1E, 0x11, 0x11, 0x1E, 0x01, 0x01, 0x0F, 0x11,
    0x11, 0x11, 0x11, 0x11, 0x0F, 0x0E, 0x11, 0x01, 0x01, 0x01, 0x11, 0x0E, 0x10, 0x10, 0x1E, 0x11,
    0x11, 0x11, 0x11, 0x11, 0x1E, 0x0E, 0x11, 0x11, 0x1F, 0x01, 0x11, 0x0E, 0x0C, 0x02, 0x02, 0x0F,
    0x02, 0x02, 0x02, 0x02, 0x02, 0x1E, 0x11, 0x11, 0x11, 0x11, 0x1E, 0x10, 0x11, 0x0E, 0x01, 0x01,
    0x0F, 0x11, 0x11, 0x11, 0x11, 0x11, 0x11, 0x04, 0x00, 0x07, 0x04, 0x04, 0x04, 0x04, 0x04, 0x1F,
    0x10, 0x00, 0x1C, 0x10, 0x10, 0x10, 0x10, 0x10, 0x10, 0x11, 0x0E, 0x01, 0x01, 0x11, 0x09, 0x05,
    0x03, 0x05, 0x09, 0x11, 0x07, 0x04, 0x04, 0x04, 0x04, 0x04, 0x04, 0x04, 0x1F, 0x37, 0x49, 0x49,
    0x49, 0x49, 0x41, 0x41, 0x0F, 0x11, 0x11, 0x11, 0x11, 0x11, 0x11, 0x0E, 0x11, 0x11, 0x11, 0x11,
    0x11, 0x0E, 0x0F, 0x11, 0x11, 0x11, 0x11, 0x11, 0x0F, 0x01, 0x01, 0x1E, 0x11, 0x11, 0x11, 0x11,
    0x11, 0x1E, 0x10, 0x10, 0x19, 0x05, 0x03, 0x01, 0x01, 0x01, 0x01, 0x0E, 0x11, 0x01, 0x0E, 0x10,
    0x11, 0x0E, 0x02, 0x0F, 0x02, 0x02, 0x02, 0x02, 0x02, 0x0C, 0x11, 0x11, 0x11, 0x11, 0x11, 0x11,
    0x0E, 0x11, 0x11, 0x11, 0x11, 0x11, 0x0A, 0x04, 0x41, 0x41, 0x49, 0x49, 0x49, 0x49, 0x36, 0x11,
    0x11, 0x0A, 0x04, 0x0A, 0x11, 0x11, 0x11, 0x11, 0x11, 0x11, 0x11, 0x1E, 0x10, 0x11, 0x0E, 0x1F,
    0x10, 0x08, 0x04, 0x02, 0x01, 0x1F, 0x0C, 0x02, 0x02, 0x02, 0x01, 0x02, 0x02, 0x02, 0x0C, 0x01,
    0x01, 0x01, 0x01, 0x01, 0x01, 0x01, 0x01, 0x01, 0x03, 0x04, 0x04, 0x04, 0x08, 0x04, 0x04, 0x04,
    0x03, 0x26, 0x19, 0x1F, 0x11, 0x11, 0x11, 0x11, 0x11, 0x11, 0x11, 0x1F,
];







/// Glyph `i` (0 to 127) of the small font.
pub open spec fn small_glyph_at(i: int) -> FontGlyph {
    if i <= 32 {
        FontGlyph { step_width: 3, width: 0, height: 0, x: 0, y: 0, data_offset: 0 }
    } else if i <= 33 {
        FontGlyph { step_width: 3, width: 2, height: 7, x: 0, y: -7i32, data_offset: 0 }
    } else if i <= 34 {
        FontGlyph { step_width: 4, width: 3, height: 2, x: 0, y: -7i32, data_offset: 7 }
    } else if i <= 35 {
        FontGlyph { step_width: 6, width: 5, height: 7, x: 0, y: -7i32, data_offset: 9 }
    } else if i <= 36 {
        FontGlyph { step_width: 6, width: 5, height: 8, x: 0, y: -7i32, data_offset: 16 }
    } else if i <= 37 {
        FontGlyph { step_width: 7, width: 6, height: 7, x: 0, y: -7i32, data_offset: 24 }
    } else if i <= 38 {
        FontGlyph { step_width: 7, width: 6, height: 7, x: 0, y: -7i32, data_offset: 31 }
    } else if i <= 39 {
        FontGlyph { step_width: 2, width: 1, height: 2, x: 0, y: -7i32, data_offset: 38 }
    } else if i <= 40 {
        FontGlyph { step_width: 4, width: 3, height: 8, x: 0, y: -7i32, data_offset: 40 }
    } else if i <= 41 {
        FontGlyph { step_width: 4, width: 3, height: 8, x: 0, y: -7i32, data_offset: 48 }
    } else if i <= 42 {
        FontGlyph { step_width: 6, width: 5, height: 7, x: 0, y: -7i32, data_offset: 56 }
    } else if i <= 43 {
        FontGlyph { step_width: 6, width: 5, height: 5, x: 0, y: -6i32, data_offset: 63 }
    } else if i <= 44 {
        FontGlyph { step_width: 3, width: 2, height: 3, x: 0, y: -2i32, data_offset: 68 }
    } else if i <= 45 {
        FontGlyph { step_width: 5, width: 4, height: 1, x: 0, y: -4i32, data_offset: 71 }
    } else if i <= 46 {
        FontGlyph { step_width: 3, width: 2, height: 2, x: 0, y: -2i32, data_offset: 72 }
    } else if i <= 47 {
        FontGlyph { step_width: 4, width: 3, height: 8, x: 0, y: -8i32, data_offset: 74 }
    } else if i <= 48 {
        FontGlyph { step_width: 6, width: 5, height: 7, x: 0, y: -7i32, data_offset: 82 }
    } else if i <= 49 {
        FontGlyph { step_width: 4, width: 3, height: 7, x: 0, y: -7i32, data_offset: 89 }
    } else if i <= 50 {
        FontGlyph { step_width: 6, width: 5, height: 7, x: 0, y: -7i32, data_offset: 96 }
    } else if i <= 51 {
        FontGlyph { step_width: 6, width: 5, height: 7, x: 0, y: -7i32, data_offset: 103 }
    } else if i <= 52 {
        FontGlyph { step_width: 6, width: 5, height: 7, x: 0, y: -7i32, data_offset: 110 }
    } else if i <= 53 {
        FontGlyph { step_width: 6, width: 5, height: 7, x: 0, y: -7i32, data_offset: 117 }
    } else if i <= 54 {
        FontGlyph { step_width: 6, width: 5, height: 7, x: 0, y: -7i32, data_offset: 124 }
    } else if i <= 55 {
        FontGlyph { step_width: 6, width: 5, height: 7, x: 0, y: -7i32, data_offset: 131 }
    } else if i <= 56 {
        FontGlyph { step_width: 6, width: 5, height: 7, x: 0, y: -7i32, data_offset: 138 }
    } else if i <= 57 {
        FontGlyph { step_width: 6, width: 5, height: 7, x: 0, y: -7i32, data_offset: 145 }
    } else if i <= 58 {
        FontGlyph { step_width: 3, width: 2, height: 5, x: 0, y: -5i32, data_offset: 152 }
    } else if i <= 59 {
        FontGlyph { step_width: 3, width: 2, height: 6, x: 0, y: -5i32, data_offset: 157 }
    } else if i <= 60 {
        FontGlyph { step_width: 5, width: 4, height: 7, x: 0, y: -7i32, data_offset: 163 }
    } else if i <= 61 {
        FontGlyph { step_width: 5, width: 4, height: 3, x: 0, y: -4i32, data_offset: 170 }
    } else if i <= 62 {
        FontGlyph { step_width: 5, width: 4, height: 7, x: 0, y: -7i32, data_offset: 173 }
    } else if i <= 63 {
        FontGlyph { step_width: 6, width: 5, height: 7, x: 0, y: -7i32, data_offset: 180 }
    } else if i <= 64 {
        FontGlyph { step_width: 7, width: 6, height: 7, x: 0, y: -6i32, data_offset: 187 }
    } else if i <= 65 {
        FontGlyph { step_width: 6, width: 5, height: 7, x: 0, y: -7i32, data_offset: 194 }
    } else if i <= 66 {
        FontGlyph { step_width: 6, width: 5, height: 7, x: 0, y: -7i32, data_offset: 201 }
    } else if i <= 67 {
        FontGlyph { step_width: 6, width: 5, height: 7, x: 0, y: -7i32, data_offset: 208 }
    } else if i <= 68 {
        FontGlyph { step_width: 6, width: 5, height: 7, x: 0, y: -7i32, data_offset: 215 }
    } else if i <= 69 {
        FontGlyph { step_width: 6, width: 5, height: 7, x: 0, y: -7i32, data_offset: 222 }
    } else if i <= 70 {
        FontGlyph { step_width: 6, width: 5, height: 7, x: 0, y: -7i32, data_offset: 229 }
    } else if i <= 71 {
        FontGlyph { step_width: 6, width: 5, height: 7, x: 0, y: -7i32, data_offset: 236 }
    } else if i <= 72 {
        FontGlyph { step_width: 6, width: 5, height: 7, x: 0, y: -7i32, data_offset: 243 }
    } else if i <= 73 {
        FontGlyph { step_width: 3, width: 2, height: 7, x: 0, y: -7i32, data_offset: 250 }
    } else if i <= 74 {
        FontGlyph { step_width: 5, width: 4, height: 7, x: 0, y: -7i32, data_offset: 257 }
    } else if i <= 75 {
        FontGlyph { step_width: 7, width: 6, height: 7, x: 0, y: -7i32, data_offset: 264 }
    } else if i <= 76 {
        FontGlyph { step_width: 5, width: 4, height: 7, x: 0, y: -7i32, data_offset: 271 }
    } else if i <= 77 {
        FontGlyph { step_width: 8, width: 7, height: 7, x: 0, y: -7i32, data_offset: 278 }
    } else if i <= 78 {
        FontGlyph { step_width: 7, width: 6, height: 7, x: 0, y: -7i32, data_offset: 285 }
    } else if i <= 79 {
        FontGlyph { step_width: 7, width: 6, height: 7, x: 0, y: -7i32, data_offset: 292 }
    } else if i <= 80 {
        FontGlyph { step_width: 6, width: 5, height: 7, x: 0, y: -7i32, data_offset: 299 }
    } else if i <= 81 {
        FontGlyph { step_width: 7, width: 6, height: 8, x: 0, y: -7i32, data_offset: 306 }
    } else if i <= 82 {
        FontGlyph { step_width: 6, width: 5, height: 7, x: 0, y: -7i32, data_offset: 314 }
    } else if i <= 83 {
        FontGlyph { step_width: 5, width: 4, height: 7, x: 0, y: -7i32, data_offset: 321 }
    } else if i <= 84 {
        FontGlyph { step_width: 7, width: 6, height: 7, x: 0, y: -7i32, data_offset: 328 }
    } else if i <= 85 {
        FontGlyph { step_width: 6, width: 5, height: 7, x: 0, y: -7i32, data_offset: 335 }
    } else if i <= 86 {
        FontGlyph { step_width: 7, width: 6, height: 7, x: 0, y: -7i32, data_offset: 342 }
    } else if i <= 87 {
        FontGlyph { step_width: 8, width: 7, height: 7, x: 0, y: -7i32, data_offset: 349 }
    } else if i <= 88 {
        FontGlyph { step_width: 7, width: 6, height: 7, x: 0, y: -7i32, data_offset: 356 }
    } else if i <= 89 {
        FontGlyph { step_width: 7, width: 6, height: 7, x: 0, y: -7i32, data_offset: 363 }
    } else if i <= 90 {
        FontGlyph { step_width: 6, width: 5, height: 7, x: 0, y: -7i32, data_offset: 370 }
    } else if i <= 91 {
        FontGlyph { step_width: 4, width: 3, height: 8, x: 0, y: -7i32, data_offset: 377 }
    } else if i <= 92 {
        FontGlyph { step_width: 4, width: 3, height: 8, x: 0, y: -8i32, data_offset: 385 }
    } else if i <= 93 {
        FontGlyph { step_width: 4, width: 3, height: 8, x: 0, y: -7i32, data_offset: 393 }
    } else if i <= 94 {
        FontGlyph { step_width: 4, width: 3, height: 3, x: 0, y: -7i32, data_offset: 401 }
    } else if i <= 95 {
        FontGlyph { step_width: 6, width: 6, height: 1, x: 0, y: -1i32, data_offset: 404 }
    } else if i <= 96 {
        FontGlyph { step_width: 3, width: 2, height: 2, x: 0, y: -7i32, data_offset: 405 }
    } else if i <= 97 {
        FontGlyph { step_width: 6, width: 5, height: 5, x: 0, y: -5i32, data_offset: 407 }
    } else if i <= 98 {
        FontGlyph { step_width: 6, width: 5, height: 7, x: 0, y: -7i32, data_offset: 412 }
    } else if i <= 99 {
        FontGlyph { step_width: 5, width: 4, height: 5, x: 0, y: -5i32, data_offset: 419 }
    } else if i <= 100 {
        FontGlyph { step_width: 6, width: 5, height: 7, x: 0, y: -7i32, data_offset: 424 }
    } else if i <= 101 {
        FontGlyph { step_width: 6, width: 5, height: 5, x: 0, y: -5i32, data_offset: 431 }
    } else if i <= 102 {
        FontGlyph { step_width: 4, width: 3, height: 7, x: 0, y: -7i32, data_offset: 436 }
    } else if i <= 103 {
        FontGlyph { step_width: 6, width: 5, height: 6, x: 0, y: -5i32, data_offset: 443 }
    } else if i <= 104 {
        FontGlyph { step_width: 6, width: 5, height: 7, x: 0, y: -7i32, data_offset: 449 }
    } else if i <= 105 {
        FontGlyph { step_width: 3, width: 2, height: 7, x: 0, y: -7i32, data_offset: 456 }
    } else if i <= 106 {
        FontGlyph { step_width: 4, width: 3, height: 8, x: 0, y: -7i32, data_offset: 463 }
    } else if i <= 107 {
        FontGlyph { step_width: 6, width: 5, height: 7, x: 0, y: -7i32, data_offset: 471 }
    } else if i <= 108 {
        FontGlyph { step_width: 3, width: 2, height: 7, x: 0, y: -7i32, data_offset: 478 }
    } else if i <= 109 {
        FontGlyph { step_width: 9, width: 8, height: 5, x: 0, y: -5i32, data_offset: 485 }
    } else if i <= 110 {
        FontGlyph { step_width: 6, width: 5, height: 5, x: 0, y: -5i32, data_offset: 490 }
    } else if i <= 111 {
        FontGlyph { step_width: 6, width: 5, height: 5, x: 0, y: -5i32, data_offset: 495 }
    } else if i <= 112 {
        FontGlyph { step_width: 6, width: 5, height: 6, x: 0, y: -5i32, data_offset: 500 }
    } else if i <= 113 {
        FontGlyph { step_width: 6, width: 5, height: 6, x: 0, y: -5i32, data_offset: 506 }
    } else if i <= 114 {
        FontGlyph { step_width: 5, width: 4, height: 5, x: 0, y: -5i32, data_offset: 512 }
    } else if i <= 115 {
        FontGlyph { step_width: 5, width: 4, height: 5, x: 0, y: -5i32, data_offset: 517 }
    } else if i <= 116 {
        FontGlyph { step_width: 4, width: 3, height: 7, x: 0, y: -7i32, data_offset: 522 }
    } else if i <= 117 {
        FontGlyph { step_width: 6, width: 5, height: 5, x: 0, y: -5i32, data_offset: 529 }
    } else if i <= 118 {
        FontGlyph { step_width: 6, width: 5, height: 5, x: 0, y: -5i32, data_offset: 534 }
    } else if i <= 119 {
        FontGlyph { step_width: 8, width: 7, height: 5, x: 0, y: -5i32, data_offset: 539 }
    } else if i <= 120 {
        FontGlyph { step_width: 6, width: 5, height: 5, x: 0, y: -5i32, data_offset: 544 }
    } else if i <= 121 {
        FontGlyph { step_width: 6, width: 5, height: 6, x: 0, y: -5i32, data_offset: 549 }
    } else if i <= 122 {
        FontGlyph { step_width: 6, width: 5, height: 5, x: 0, y: -5i32, data_offset: 555 }
    } else if i <= 123 {
        FontGlyph { step_width: 4, width: 3, height: 8, x: 0, y: -7i32, data_offset: 560 }
    } else if i <= 124 {
        FontGlyph { step_width: 3, width: 2, height: 8, x: 0, y: -7i32, data_offset: 568 }
    } else if i <= 125 {
        FontGlyph { step_width: 4, width: 3, height: 8, x: 0, y: -7i32, data_offset: 576 }
    } else if i <= 126 {
        FontGlyph { step_width: 6, width: 5, height: 2, x: 0, y: -7i32, data_offset: 584 }
    } else {
        FontGlyph { step_width: 3, width: 0, height: 0, x: 0, y: 0, data_offset: 586 }
    }
}

/// Glyph `i` (0 to 127) of the small font.
fn small_glyph(i: usize) -> (g: FontGlyph)
    requires
        i < 128,
    ensures
        g == small_glyph_at(i as int),
{
    match i {
        0..=32 => FontGlyph { step_width: 3, width: 0, height: 0, x: 0, y: 0, data_offset: 0 },
        33 => FontGlyph { step_width: 3, width: 2, height: 7, x: 0, y: -7i32, data_offset: 0 },
        34 => FontGlyph { step_width: 4, width: 3, height: 2, x: 0, y: -7i32, data_offset: 7 },
        35 => FontGlyph { step_width: 6, width: 5, height: 7, x: 0, y: -7i32, data_offset: 9 },
        36 => FontGlyph { step_width: 6, width: 5, height: 8, x: 0, y: -7i32, data_offset: 16 },
        37 => FontGlyph { step_width: 7, width: 6, height: 7, x: 0, y: -7i32, data_offset: 24 },
        38 => FontGlyph { step_width: 7, width: 6, height: 7, x: 0, y: -7i32, data_offset: 31 },
        39 => FontGlyph { step_width: 2, width: 1, height: 2, x: 0, y: -7i32, data_offset: 38 },
        40 => FontGlyph { step_width: 4, width: 3, height: 8, x: 0, y: -7i32, data_offset: 40 },
        41 => FontGlyph { step_width: 4, width: 3, height: 8, x: 0, y: -7i32, data_offset: 48 },
        42 => FontGlyph { step_width: 6, width: 5, height: 7, x: 0, y: -7i32, data_offset: 56 },
        43 => FontGlyph { step_width: 6, width: 5, height: 5, x: 0, y: -6i32, data_offset: 63 },
        44 => FontGlyph { step_width: 3, width: 2, height: 3, x: 0, y: -2i32, data_offset: 68 },
        45 => FontGlyph { step_width: 5, width: 4, height: 1, x: 0, y: -4i32, data_offset: 71 },
        46 => FontGlyph { step_width: 3, width: 2, height: 2, x: 0, y: -2i32, data_offset: 72 },
        47 => FontGlyph { step_width: 4, width: 3, height: 8, x: 0, y: -8i32, data_offset: 74 },
        48 => FontGlyph { step_width: 6, width: 5, height: 7, x: 0, y: -7i32, data_offset: 82 },
        49 => FontGlyph { step_width: 4, width: 3, height: 7, x: 0, y: -7i32, data_offset: 89 },
        50 => FontGlyph { step_width: 6, width: 5, height: 7, x: 0, y: -7i32, data_offset: 96 },
        51 => FontGlyph { step_width: 6, width: 5, height: 7, x: 0, y: -7i32, data_offset: 103 },
        52 => FontGlyph { step_width: 6, width: 5, height: 7, x: 0, y: -7i32, data_offset: 110 },
        53 => FontGlyph { step_width: 6, width: 5, height: 7, x: 0, y: -7i32, data_offset: 117 },
        54 => FontGlyph { step_width: 6, width: 5, height: 7, x: 0, y: -7i32, data_offset: 124 },
        55 => FontGlyph { step_width: 6, width: 5, height: 7, x: 0, y: -7i32, data_offset: 131 },
        56 => FontGlyph { step_width: 6, width: 5, height: 7, x: 0, y: -7i32, data_offset: 138 },
        57 => FontGlyph { step_width: 6, width: 5, height: 7, x: 0, y: -7i32, data_offset: 145 },
        58 => FontGlyph { step_width: 3, width: 2, height: 5, x: 0, y: -5i32, data_offset: 152 },
        59 => FontGlyph { step_width: 3, width: 2, height: 6, x: 0, y: -5i32, data_offset: 157 },
        60 => FontGlyph { step_width: 5, width: 4, height: 7, x: 0, y: -7i32, data_offset: 163 },
        61 => FontGlyph { step_width: 5, width: 4, height: 3, x: 0, y: -4i32, data_offset: 170 },
        62 => FontGlyph { step_width: 5, width: 4, height: 7, x: 0, y: -7i32, data_offset: 173 },
        63 => FontGlyph { step_width: 6, width: 5, height: 7, x: 0, y: -7i32, data_offset: 180 },
        64 => FontGlyph { step_width: 7, width: 6, height: 7, x: 0, y: -6i32, data_offset: 187 },
        65 => FontGlyph { step_width: 6, width: 5, height: 7, x: 0, y: -7i32, data_offset: 194 },
        66 => FontGlyph { step_width: 6, width: 5, height: 7, x: 0, y: -7i32, data_offset: 201 },
        67 => FontGlyph { step_width: 6, width: 5, height: 7, x: 0, y: -7i32, data_offset: 208 },
        68 => FontGlyph { step_width: 6, width: 5, height: 7, x: 0, y: -7i32, data_offset: 215 },
        69 => FontGlyph { step_width: 6, width: 5, height: 7, x: 0, y: -7i32, data_offset: 222 },
        70 => FontGlyph { step_width: 6, width: 5, height: 7, x: 0, y: -7i32, data_offset: 229 },
        71 => FontGlyph { step_width: 6, width: 5, height: 7, x: 0, y: -7i32, data_offset: 236 },
        72 => FontGlyph { step_width: 6, width: 5, height: 7, x: 0, y: -7i32, data_offset: 243 },
        73 => FontGlyph { step_width: 3, width: 2, height: 7, x: 0, y: -7i32, data_offset: 250 },
        74 => FontGlyph { step_width: 5, width: 4, height: 7, x: 0, y: -7i32, data_offset: 257 },
        75 => FontGlyph { step_width: 7, width: 6, height: 7, x: 0, y: -7i32, data_offset: 264 },
        76 => FontGlyph { step_width: 5, width: 4, height: 7, x: 0, y: -7i32, data_offset: 271 },
        77 => FontGlyph { step_width: 8, width: 7, height: 7, x: 0, y: -7i32, data_offset: 278 },
        78 => FontGlyph { step_width: 7, width: 6, height: 7, x: 0, y: -7i32, data_offset: 285 },
        79 => FontGlyph { step_width: 7, width: 6, height: 7, x: 0, y: -7i32, data_offset: 292 },
        80 => FontGlyph { step_width: 6, width: 5, height: 7, x: 0, y: -7i32, data_offset: 299 },
        81 => FontGlyph { step_width: 7, width: 6, height: 8, x: 0, y: -7i32, data_offset: 306 },
        82 => FontGlyph { step_width: 6, width: 5, height: 7, x: 0, y: -7i32, data_offset: 314 },
        83 => FontGlyph { step_width: 5, width: 4, height: 7, x: 0, y: -7i32, data_offset: 321 },
        84 => FontGlyph { step_width: 7, width: 6, height: 7, x: 0, y: -7i32, data_offset: 328 },
        85 => FontGlyph { step_width: 6, width: 5, height: 7, x: 0, y: -7i32, data_offset: 335 },
        86 => FontGlyph { step_width: 7, width: 6, height: 7, x: 0, y: -7i32, data_offset: 342 },
        87 => FontGlyph { step_width: 8, width: 7, height: 7, x: 0, y: -7i32, data_offset: 349 },
        88 => FontGlyph { step_width: 7, width: 6, height: 7, x: 0, y: -7i32, data_offset: 356 },
        89 => FontGlyph { step_width: 7, width: 6, height: 7, x: 0, y: -7i32, data_offset: 363 },
        90 => FontGlyph { step_width: 6, width: 5, height: 7, x: 0, y: -7i32, data_offset: 370 },
        91 => FontGlyph { step_width: 4, width: 3, height: 8, x: 0, y: -7i32, data_offset: 377 },
        92 => FontGlyph { step_width: 4, width: 3, height: 8, x: 0, y: -8i32, data_offset: 385 },
        93 => FontGlyph { step_width: 4, width: 3, height: 8, x: 0, y: -7i32, data_offset: 393 },
        94 => FontGlyph { step_width: 4, width: 3, height: 3, x: 0, y: -7i32, data_offset: 401 },
        95 => FontGlyph { step_width: 6, width: 6, height: 1, x: 0, y: -1i32, data_offset: 404 },
        96 => FontGlyph { step_width: 3, width: 2, height: 2, x: 0, y: -7i32, data_offset: 405 },
        97 => FontGlyph { step_width: 6, width: 5, height: 5, x: 0, y: -5i32, data_offset: 407 },
        98 => FontGlyph { step_width: 6, width: 5, height: 7, x: 0, y: -7i32, data_offset: 412 },
        99 => FontGlyph { step_width: 5, width: 4, height: 5, x: 0, y: -5i32, data_offset: 419 },
        100 => FontGlyph { step_width: 6, width: 5, height: 7, x: 0, y: -7i32, data_offset: 424 },
        101 => FontGlyph { step_width: 6, width: 5, height: 5, x: 0, y: -5i32, data_offset: 431 },
        102 => FontGlyph { step_width: 4, width: 3, height: 7, x: 0, y: -7i32, data_offset: 436 },
        103 => FontGlyph { step_width: 6, width: 5, height: 6, x: 0, y: -5i32, data_offset: 443 },
        104 => FontGlyph { step_width: 6, width: 5, height: 7, x: 0, y: -7i32, data_offset: 449 },
        105 => FontGlyph { step_width: 3, width: 2, height: 7, x: 0, y: -7i32, data_offset: 456 },
        106 => FontGlyph { step_width: 4, width: 3, height: 8, x: 0, y: -7i32, data_offset: 463 },
        107 => FontGlyph { step_width: 6, width: 5, height: 7, x: 0, y: -7i32, data_offset: 471 },
        108 => FontGlyph { step_width: 3, width: 2, height: 7, x: 0, y: -7i32, data_offset: 478 },
        109 => FontGlyph { step_width: 9, width: 8, height: 5, x: 0, y: -5i32, data_offset: 485 },
        110 => FontGlyph { step_width: 6, width: 5, height: 5, x: 0, y: -5i32, data_offset: 490 },
        111 => FontGlyph { step_width: 6, width: 5, height: 5, x: 0, y: -5i32, data_offset: 495 },
        112 => FontGlyph { step_width: 6, width: 5, height: 6, x: 0, y: -5i32, data_offset: 500 },
        113 => FontGlyph { step_width: 6, width: 5, height: 6, x: 0, y: -5i32, data_offset: 506 },
        114 => FontGlyph { step_width: 5, width: 4, height: 5, x: 0, y: -5i32, data_offset: 512 },
        115 => FontGlyph { step_width: 5, width: 4, height: 5, x: 0, y: -5i32, data_offset: 517 },
        116 => FontGlyph { step_width: 4, width: 3, height: 7, x: 0, y: -7i32, data_offset: 522 },
        117 => FontGlyph { step_width: 6, width: 5, height: 5, x: 0, y: -5i32, data_offset: 529 },
        118 => FontGlyph { step_width: 6, width: 5, height: 5, x: 0, y: -5i32, data_offset: 534 },
        119 => FontGlyph { step_width: 8, width: 7, height: 5, x: 0, y: -5i32, data_offset: 539 },
        120 => FontGlyph { step_width: 6, width: 5, height: 5, x: 0, y: -5i32, data_offset: 544 },
        121 => FontGlyph { step_width: 6, width: 5, height: 6, x: 0, y: -5i32, data_offset: 549 },
        122 => FontGlyph { step_width: 6, width: 5, height: 5, x: 0, y: -5i32, data_offset: 555 },
        123 => FontGlyph { step_width: 4, width: 3, height: 8, x: 0, y: -7i32, data_offset: 560 },
        124 => FontGlyph { step_width: 3, width: 2, height: 8, x: 0, y: -7i32, data_offset: 568 },
        125 => FontGlyph { step_width: 4, width: 3, height: 8, x: 0, y: -7i32, data_offset: 576 },
        126 => FontGlyph { step_width: 6, width: 5, height: 2, x: 0, y: -7i32, data_offset: 584 },
        _ => FontGlyph { step_width: 3, width: 0, height: 0, x: 0, y: 0, data_offset: 586 },
    }
}

/// Glyph `i` (0 to 127) of the big font.
pub open spec fn big_glyph_at(i: int) -> FontGlyph {
    if i <= 0 {
        FontGlyph { step_width: 8, width: 5, height: 9, x: 1, y: -9i32, data_offset: 0 }
    } else if i <= 1 {
        FontGlyph { step_width: 8, width: 5, height: 9, x: 1, y: -9i32, data_offset: 9 }
    } else if i <= 2 {
        FontGlyph { step_width: 8, width: 5, height: 9, x: 1, y: -9i32, data_offset: 18 }
    } else if i <= 3 {
        FontGlyph { step_width: 8, width: 5, height: 9, x: 1, y: -9i32, data_offset: 27 }
    } else if i <= 4 {
        FontGlyph { step_width: 8, width: 5, height: 9, x: 1, y: -9i32, data_offset: 36 }
    } else if i <= 5 {
        FontGlyph { step_width: 8, width: 5, height: 9, x: 1, y: -9i32, data_offset: 45 }
    } else if i <= 6 {
        FontGlyph { step_width: 8, width: 5, height: 9, x: 1, y: -9i32, data_offset: 54 }
    } else if i <= 7 {
        FontGlyph { step_width: 8, width: 5, height: 9, x: 1, y: -9i32, data_offset: 63 }
    } else if i <= 8 {
        FontGlyph { step_width: 8, width: 5, height: 9, x: 1, y: -9i32, data_offset: 72 }
    } else if i <= 9 {
        FontGlyph { step_width: 8, width: 5, height: 9, x: 1, y: -9i32, data_offset: 81 }
    } else if i <= 10 {
        FontGlyph { step_width: 8, width: 5, height: 9, x: 1, y: -9i32, data_offset: 90 }
    } else if i <= 11 {
        FontGlyph { step_width: 8, width: 5, height: 9, x: 1, y: -9i32, data_offset: 99 }
    } else if i <= 12 {
        FontGlyph { step_width: 8, width: 5, height: 9, x: 1, y: -9i32, data_offset: 108 }
    } else if i <= 13 {
        FontGlyph { step_width: 8, width: 5, height: 9, x: 1, y: -9i32, data_offset: 117 }
    } else if i <= 14 {
        FontGlyph { step_width: 8, width: 5, height: 9, x: 1, y: -9i32, data_offset: 126 }
    } else if i <= 15 {
        FontGlyph { step_width: 8, width: 5, height: 9, x: 1, y: -9i32, data_offset: 135 }
    } else if i <= 16 {
        FontGlyph { step_width: 8, width: 5, height: 9, x: 1, y: -9i32, data_offset: 144 }
    } else if i <= 17 {
        FontGlyph { step_width: 8, width: 5, height: 9, x: 1, y: -9i32, data_offset: 153 }
    } else if i <= 18 {
        FontGlyph { step_width: 8, width: 5, height: 9, x: 1, y: -9i32, data_offset: 162 }
    } else if i <= 19 {
        FontGlyph { step_width: 8, width: 5, height: 9, x: 1, y: -9i32, data_offset: 171 }
    } else if i <= 20 {
        FontGlyph { step_width: 8, width: 5, height: 9, x: 1, y: -9i32, data_offset: 180 }
    } else if i <= 21 {
        FontGlyph { step_width: 8, width: 5, height: 9, x: 1, y: -9i32, data_offset: 189 }
    } else if i <= 22 {
        FontGlyph { step_width: 8, width: 5, height: 9, x: 1, y: -9i32, data_offset: 198 }
    } else if i <= 23 {
        FontGlyph { step_width: 8, width: 5, height: 9, x: 1, y: -9i32, data_offset: 207 }
    } else if i <= 24 {
        FontGlyph { step_width: 8, width: 5, height: 9, x: 1, y: -9i32, data_offset: 216 }
    } else if i <= 25 {
        FontGlyph { step_width: 8, width: 5, height: 9, x: 1, y: -9i32, data_offset: 225 }
    } else if i <= 26 {
        FontGlyph { step_width: 8, width: 5, height: 9, x: 1, y: -9i32, data_offset: 234 }
    } else if i <= 27 {
        FontGlyph { step_width: 8, width: 5, height: 9, x: 1, y: -9i32, data_offset: 243 }
    } else if i <= 28 {
        FontGlyph { step_width: 8, width: 5, height: 9, x: 1, y: -9i32, data_offset: 252 }
    } else if i <= 29 {
        FontGlyph { step_width: 8, width: 5, height: 9, x: 1, y: -9i32, data_offset: 261 }
    } else if i <= 30 {
        FontGlyph { step_width: 8, width: 5, height: 9, x: 1, y: -9i32, data_offset: 270 }
    } else if i <= 31 {
        FontGlyph { step_width: 8, width: 5, height: 9, x: 1, y: -9i32, data_offset: 279 }
    } else if i <= 32 {
        FontGlyph { step_width: 8, width: 0, height: 0, x: 0, y: 0, data_offset: 288 }
    } else if i <= 33 {
        FontGlyph { step_width: 8, width: 1, height: 9, x: 3, y: -9i32, data_offset: 288 }
    } else if i <= 34 {
        FontGlyph { step_width: 8, width: 3, height: 3, x: 2, y: -9i32, data_offset: 297 }
    } else if i <= 35 {
        FontGlyph { step_width: 8, width: 6, height: 9, x: 1, y: -9i32, data_offset: 300 }
    } else if i <= 36 {
        FontGlyph { step_width: 8, width: 5, height: 13, x: 1, y: -11i32, data_offset: 309 }
    } else if i <= 37 {
        FontGlyph { step_width: 8, width: 7, height: 9, x: 0, y: -9i32, data_offset: 322 }
    } else if i <= 38 {
        FontGlyph { step_width: 8, width: 5, height: 9, x: 1, y: -9i32, data_offset: 331 }
    } else if i <= 39 {
        FontGlyph { step_width: 8, width: 1, height: 3, x: 3, y: -9i32, data_offset: 340 }
    } else if i <= 40 {
        FontGlyph { step_width: 8, width: 3, height: 9, x: 3, y: -9i32, data_offset: 343 }
    } else if i <= 41 {
        FontGlyph { step_width: 8, width: 3, height: 9, x: 1, y: -9i32, data_offset: 352 }
    } else if i <= 42 {
        FontGlyph { step_width: 8, width: 5, height: 5, x: 1, y: -9i32, data_offset: 361 }
    } else if i <= 43 {
        FontGlyph { step_width: 8, width: 5, height: 5, x: 1, y: -7i32, data_offset: 366 }
    } else if i <= 44 {
        FontGlyph { step_width: 8, width: 2, height: 3, x: 2, y: -1i32, data_offset: 371 }
    } else if i <= 45 {
        FontGlyph { step_width: 8, width: 4, height: 1, x: 2, y: -5i32, data_offset: 374 }
    } else if i <= 46 {
        FontGlyph { step_width: 8, width: 1, height: 1, x: 3, y: -1i32, data_offset: 375 }
    } else if i <= 47 {
        FontGlyph { step_width: 8, width: 3, height: 9, x: 2, y: -9i32, data_offset: 376 }
    } else if i <= 48 {
        FontGlyph { step_width: 8, width: 5, height: 9, x: 1, y: -9i32, data_offset: 385 }
    } else if i <= 49 {
        FontGlyph { step_width: 8, width: 5, height: 9, x: 1, y: -9i32, data_offset: 394 }
    } else if i <= 50 {
        FontGlyph { step_width: 8, width: 5, height: 9, x: 1, y: -9i32, data_offset: 403 }
    } else if i <= 51 {
        FontGlyph { step_width: 8, width: 5, height: 9, x: 1, y: -9i32, data_offset: 412 }
    } else if i <= 52 {
        FontGlyph { step_width: 8, width: 5, height: 9, x: 1, y: -9i32, data_offset: 421 }
    } else if i <= 53 {
        FontGlyph { step_width: 8, width: 5, height: 9, x: 1, y: -9i32, data_offset: 430 }
    } else if i <= 54 {
        FontGlyph { step_width: 8, width: 5, height: 9, x: 1, y: -9i32, data_offset: 439 }
    } else if i <= 55 {
        FontGlyph { step_width: 8, width: 5, height: 9, x: 1, y: -9i32, data_offset: 448 }
    } else if i <= 56 {
        FontGlyph { step_width: 8, width: 5, height: 9, x: 1, y: -9i32, data_offset: 457 }
    } else if i <= 57 {
        FontGlyph { step_width: 8, width: 5, height: 9, x: 1, y: -9i32, data_offset: 466 }
    } else if i <= 58 {
        FontGlyph { step_width: 8, width: 1, height: 7, x: 3, y: -7i32, data_offset: 475 }
    } else if i <= 59 {
        FontGlyph { step_width: 8, width: 2, height: 9, x: 2, y: -7i32, data_offset: 482 }
    } else if i <= 60 {
        FontGlyph { step_width: 8, width: 3, height: 5, x: 2, y: -7i32, data_offset: 491 }
    } else if i <= 61 {
        FontGlyph { step_width: 8, width: 4, height: 3, x: 2, y: -6i32, data_offset: 496 }
    } else if i <= 62 {
        FontGlyph { step_width: 8, width: 3, height: 5, x: 2, y: -7i32, data_offset: 499 }
    } else if i <= 63 {
        FontGlyph { step_width: 8, width: 5, height: 9, x: 1, y: -9i32, data_offset: 504 }
    } else if i <= 64 {
        FontGlyph { step_width: 8, width: 7, height: 9, x: 0, y: -9i32, data_offset: 513 }
    } else if i <= 65 {
        FontGlyph { step_width: 8, width: 5, height: 9, x: 1, y: -9i32, data_offset: 522 }
    } else if i <= 66 {
        FontGlyph { step_width: 8, width: 5, height: 9, x: 1, y: -9i32, data_offset: 531 }
    } else if i <= 67 {
        FontGlyph { step_width: 8, width: 5, height: 9, x: 1, y: -9i32, data_offset: 540 }
    } else if i <= 68 {
        FontGlyph { step_width: 8, width: 5, height: 9, x: 1, y: -9i32, data_offset: 549 }
    } else if i <= 69 {
        FontGlyph { step_width: 8, width: 5, height: 9, x: 1, y: -9i32, data_offset: 558 }
    } else if i <= 70 {
        FontGlyph { step_width: 8, width: 5, height: 9, x: 1, y: -9i32, data_offset: 567 }
    } else if i <= 71 {
        FontGlyph { step_width: 8, width: 5, height: 9, x: 1, y: -9i32, data_offset: 576 }
    } else if i <= 72 {
        FontGlyph { step_width: 8, width: 5, height: 9, x: 1, y: -9i32, data_offset: 585 }
    } else if i <= 73 {
        FontGlyph { step_width: 8, width: 5, height: 9, x: 1, y: -9i32, data_offset: 594 }
    } else if i <= 74 {
        FontGlyph { step_width: 8, width: 6, height: 9, x: 1, y: -9i32, data_offset: 603 }
    } else if i <= 75 {
        FontGlyph { step_width: 8, width: 5, height: 9, x: 1, y: -9i32, data_offset: 612 }
    } else if i <= 76 {
        FontGlyph { step_width: 8, width: 5, height: 9, x: 1, y: -9i32, data_offset: 621 }
    } else if i <= 77 {
        FontGlyph { step_width: 8, width: 7, height: 9, x: 0, y: -9i32, data_offset: 630 }
    } else if i <= 78 {
        FontGlyph { step_width: 8, width: 5, height: 9, x: 1, y: -9i32, data_offset: 639 }
    } else if i <= 79 {
        FontGlyph { step_width: 8, width: 5, height: 9, x: 1, y: -9i32, data_offset: 648 }
    } else if i <= 80 {
        FontGlyph { step_width: 8, width: 5, height: 9, x: 1, y: -9i32, data_offset: 657 }
    } else if i <= 81 {
        FontGlyph { step_width: 8, width: 5, height: 9, x: 1, y: -9i32, data_offset: 666 }
    } else if i <= 82 {
        FontGlyph { step_width: 8, width: 5, height: 9, x: 1, y: -9i32, data_offset: 675 }
    } else if i <= 83 {
        FontGlyph { step_width: 8, width: 5, height: 9, x: 1, y: -9i32, data_offset: 684 }
    } else if i <= 84 {
        FontGlyph { step_width: 8, width: 5, height: 9, x: 1, y: -9i32, data_offset: 693 }
    } else if i <= 85 {
        FontGlyph { step_width: 8, width: 5, height: 9, x: 1, y: -9i32, data_offset: 702 }
    } else if i <= 86 {
        FontGlyph { step_width: 8, width: 5, height: 9, x: 1, y: -9i32, data_offset: 711 }
    } else if i <= 87 {
        FontGlyph { step_width: 8, width: 7, height: 9, x: 0, y: -9i32, data_offset: 720 }
    } else if i <= 88 {
        FontGlyph { step_width: 8, width: 5, height: 9, x: 1, y: -9i32, data_offset: 729 }
    } else if i <= 89 {
        FontGlyph { step_width: 8, width: 5, height: 9, x: 1, y: -9i32, data_offset: 738 }
    } else if i <= 90 {
        FontGlyph { step_width: 8, width: 5, height: 9, x: 1, y: -9i32, data_offset: 747 }
    } else if i <= 91 {
        FontGlyph { step_width: 8, width: 3, height: 9, x: 3, y: -9i32, data_offset: 756 }
    } else if i <= 92 {
        FontGlyph { step_width: 8, width: 3, height: 9, x: 2, y: -9i32, data_offset: 765 }
    } else if i <= 93 {
        FontGlyph { step_width: 8, width: 3, height: 9, x: 1, y: -9i32, data_offset: 774 }
    } else if i <= 94 {
        FontGlyph { step_width: 8, width: 5, height: 3, x: 1, y: -9i32, data_offset: 783 }
    } else if i <= 95 {
        FontGlyph { step_width: 8, width: 8, height: 1, x: 0, y: 1, data_offset: 786 }
    } else if i <= 96 {
        FontGlyph { step_width: 8, width: 2, height: 2, x: 2, y: -9i32, data_offset: 787 }
    } else if i <= 97 {
        FontGlyph { step_width: 8, width: 5, height: 7, x: 1, y: -7i32, data_offset: 789 }
    } else if i <= 98 {
        FontGlyph { step_width: 8, width: 5, height: 9, x: 1, y: -9i32, data_offset: 796 }
    } else if i <= 99 {
        FontGlyph { step_width: 8, width: 5, height: 7, x: 1, y: -7i32, data_offset: 805 }
    } else if i <= 100 {
        FontGlyph { step_width: 8, width: 5, height: 9, x: 1, y: -9i32, data_offset: 812 }
    } else if i <= 101 {
        FontGlyph { step_width: 8, width: 5, height: 7, x: 1, y: -7i32, data_offset: 821 }
    } else if i <= 102 {
        FontGlyph { step_width: 8, width: 4, height: 9, x: 2, y: -9i32, data_offset: 828 }
    } else if i <= 103 {
        FontGlyph { step_width: 8, width: 5, height: 9, x: 1, y: -7i32, data_offset: 837 }
    } else if i <= 104 {
        FontGlyph { step_width: 8, width: 5, height: 9, x: 1, y: -9i32, data_offset: 846 }
    } else if i <= 105 {
        FontGlyph { step_width: 8, width: 5, height: 9, x: 1, y: -9i32, data_offset: 855 }
    } else if i <= 106 {
        FontGlyph { step_width: 8, width: 5, height: 11, x: 1, y: -9i32, data_offset: 864 }
    } else if i <= 107 {
        FontGlyph { step_width: 8, width: 5, height: 9, x: 1, y: -9i32, data_offset: 875 }
    } else if i <= 108 {
        FontGlyph { step_width: 8, width: 5, height: 9, x: 1, y: -9i32, data_offset: 884 }
    } else if i <= 109 {
        FontGlyph { step_width: 8, width: 7, height: 7, x: 0, y: -7i32, data_offset: 893 }
    } else if i <= 110 {
        FontGlyph { step_width: 8, width: 5, height: 7, x: 1, y: -7i32, data_offset: 900 }
    } else if i <= 111 {
        FontGlyph { step_width: 8, width: 5, height: 7, x: 1, y: -7i32, data_offset: 907 }
    } else if i <= 112 {
        FontGlyph { step_width: 8, width: 5, height: 9, x: 1, y: -7i32, data_offset: 914 }
    } else if i <= 113 {
        FontGlyph { step_width: 8, width: 5, height: 9, x: 1, y: -7i32, data_offset: 923 }
    } else if i <= 114 {
        FontGlyph { step_width: 8, width: 5, height: 7, x: 1, y: -7i32, data_offset: 932 }
    } else if i <= 115 {
        FontGlyph { step_width: 8, width: 5, height: 7, x: 1, y: -7i32, data_offset: 939 }
    } else if i <= 116 {
        FontGlyph { step_width: 8, width: 4, height: 8, x: 2, y: -8i32, data_offset: 946 }
    } else if i <= 117 {
        FontGlyph { step_width: 8, width: 5, height: 7, x: 1, y: -7i32, data_offset: 954 }
    } else if i <= 118 {
        FontGlyph { step_width: 8, width: 5, height: 7, x: 1, y: -7i32, data_offset: 961 }
    } else if i <= 119 {
        FontGlyph { step_width: 8, width: 7, height: 7, x: 0, y: -7i32, data_offset: 968 }
    } else if i <= 120 {
        FontGlyph { step_width: 8, width: 5, height: 7, x: 1, y: -7i32, data_offset: 975 }
    } else if i <= 121 {
        FontGlyph { step_width: 8, width: 5, height: 9, x: 1, y: -7i32, data_offset: 982 }
    } else if i <= 122 {
        FontGlyph { step_width: 8, width: 5, height: 7, x: 1, y: -7i32, data_offset: 991 }
    } else if i <= 123 {
        FontGlyph { step_width: 8, width: 4, height: 9, x: 2, y: -9i32, data_offset: 998 }
    } else if i <= 124 {
        FontGlyph { step_width: 8, width: 1, height: 9, x: 3, y: -9i32, data_offset: 1007 }
    } else if i <= 125 {
        FontGlyph { step_width: 8, width: 4, height: 9, x: 1, y: -9i32, data_offset: 1016 }
    } else if i <= 126 {
        FontGlyph { step_width: 8, width: 6, height: 2, x: 1, y: -9i32, data_offset: 1025 }
    } else {
        FontGlyph { step_width: 8, width: 5, height: 9, x: 1, y: -9i32, data_offset: 1027 }
    }
}

/// Glyph `i` (0 to 127) of the big font.
fn big_glyph(i: usize) -> (g: FontGlyph)
    requires
        i < 128,
    ensures
        g == big_glyph_at(i as int),
{
    match i {
        0 => FontGlyph { step_width: 8, width: 5, height: 9, x: 1, y: -9i32, data_offset: 0 },
        1 => FontGlyph { step_width: 8, width: 5, height: 9, x: 1, y: -9i32, data_offset: 9 },
        2 => FontGlyph { step_width: 8, width: 5, height: 9, x: 1, y: -9i32, data_offset: 18 },
        3 => FontGlyph { step_width: 8, width: 5, height: 9, x: 1, y: -9i32, data_offset: 27 },
        4 => FontGlyph { step_width: 8, width: 5, height: 9, x: 1, y: -9i32, data_offset: 36 },
        5 => FontGlyph { step_width: 8, width: 5, height: 9, x: 1, y: -9i32, data_offset: 45 },
        6 => FontGlyph { step_width: 8, width: 5, height: 9, x: 1, y: -9i32, data_offset: 54 },
        7 => FontGlyph { step_width: 8, width: 5, height: 9, x: 1, y: -9i32, data_offset: 63 },
        8 => FontGlyph { step_width: 8, width: 5, height: 9, x: 1, y: -9i32, data_offset: 72 },
        9 => FontGlyph { step_width: 8, width: 5, height: 9, x: 1, y: -9i32, data_offset: 81 },
        10 => FontGlyph { step_width: 8, width: 5, height: 9, x: 1, y: -9i32, data_offset: 90 },
        11 => FontGlyph { step_width: 8, width: 5, height: 9, x: 1, y: -9i32, data_offset: 99 },
        12 => FontGlyph { step_width: 8, width: 5, height: 9, x: 1, y: -9i32, data_offset: 108 },
        13 => FontGlyph { step_width: 8, width: 5, height: 9, x: 1, y: -9i32, data_offset: 117 },
        14 => FontGlyph { step_width: 8, width: 5, height: 9, x: 1, y: -9i32, data_offset: 126 },
        15 => FontGlyph { step_width: 8, width: 5, height: 9, x: 1, y: -9i32, data_offset: 135 },
        16 => FontGlyph { step_width: 8, width: 5, height: 9, x: 1, y: -9i32, data_offset: 144 },
        17 => FontGlyph { step_width: 8, width: 5, height: 9, x: 1, y: -9i32, data_offset: 153 },
        18 => FontGlyph { step_width: 8, width: 5, height: 9, x: 1, y: -9i32, data_offset: 162 },
        19 => FontGlyph { step_width: 8, width: 5, height: 9, x: 1, y: -9i32, data_offset: 171 },
        20 => FontGlyph { step_width: 8, width: 5, height: 9, x: 1, y: -9i32, data_offset: 180 },
        21 => FontGlyph { step_width: 8, width: 5, height: 9, x: 1, y: -9i32, data_offset: 189 },
        22 => FontGlyph { step_width: 8, width: 5, height: 9, x: 1, y: -9i32, data_offset: 198 },
        23 => FontGlyph { step_width: 8, width: 5, height: 9, x: 1, y: -9i32, data_offset: 207 },
        24 => FontGlyph { step_width: 8, width: 5, height: 9, x: 1, y: -9i32, data_offset: 216 },
        25 => FontGlyph { step_width: 8, width: 5, height: 9, x: 1, y: -9i32, data_offset: 225 },
        26 => FontGlyph { step_width: 8, width: 5, height: 9, x: 1, y: -9i32, data_offset: 234 },
        27 => FontGlyph { step_width: 8, width: 5, height: 9, x: 1, y: -9i32, data_offset: 243 },
        28 => FontGlyph { step_width: 8, width: 5, height: 9, x: 1, y: -9i32, data_offset: 252 },
        29 => FontGlyph { step_width: 8, width: 5, height: 9, x: 1, y: -9i32, data_offset: 261 },
        30 => FontGlyph { step_width: 8, width: 5, height: 9, x: 1, y: -9i32, data_offset: 270 },
        31 => FontGlyph { step_width: 8, width: 5, height: 9, x: 1, y: -9i32, data_offset: 279 },
        32 => FontGlyph { step_width: 8, width: 0, height: 0, x: 0, y: 0, data_offset: 288 },
        33 => FontGlyph { step_width: 8, width: 1, height: 9, x: 3, y: -9i32, data_offset: 288 },
        34 => FontGlyph { step_width: 8, width: 3, height: 3, x: 2, y: -9i32, data_offset: 297 },
        35 => FontGlyph { step_width: 8, width: 6, height: 9, x: 1, y: -9i32, data_offset: 300 },
        36 => FontGlyph { step_width: 8, width: 5, height: 13, x: 1, y: -11i32, data_offset: 309 },
        37 => FontGlyph { step_width: 8, width: 7, height: 9, x: 0, y: -9i32, data_offset: 322 },
        38 => FontGlyph { step_width: 8, width: 5, height: 9, x: 1, y: -9i32, data_offset: 331 },
        39 => FontGlyph { step_width: 8, width: 1, height: 3, x: 3, y: -9i32, data_offset: 340 },
        40 => FontGlyph { step_width: 8, width: 3, height: 9, x: 3, y: -9i32, data_offset: 343 },
        41 => FontGlyph { step_width: 8, width: 3, height: 9, x: 1, y: -9i32, data_offset: 352 },
        42 => FontGlyph { step_width: 8, width: 5, height: 5, x: 1, y: -9i32, data_offset: 361 },
        43 => FontGlyph { step_width: 8, width: 5, height: 5, x: 1, y: -7i32, data_offset: 366 },
        44 => FontGlyph { step_width: 8, width: 2, height: 3, x: 2, y: -1i32, data_offset: 371 },
        45 => FontGlyph { step_width: 8, width: 4, height: 1, x: 2, y: -5i32, data_offset: 374 },
        46 => FontGlyph { step_width: 8, width: 1, height: 1, x: 3, y: -1i32, data_offset: 375 },
        47 => FontGlyph { step_width: 8, width: 3, height: 9, x: 2, y: -9i32, data_offset: 376 },
        48 => FontGlyph { step_width: 8, width: 5, height: 9, x: 1, y: -9i32, data_offset: 385 },
        49 => FontGlyph { step_width: 8, width: 5, height: 9, x: 1, y: -9i32, data_offset: 394 },
        50 => FontGlyph { step_width: 8, width: 5, height: 9, x: 1, y: -9i32, data_offset: 403 },
        51 => FontGlyph { step_width: 8, width: 5, height: 9, x: 1, y: -9i32, data_offset: 412 },
        52 => FontGlyph { step_width: 8, width: 5, height: 9, x: 1, y: -9i32, data_offset: 421 },
        53 => FontGlyph { step_width: 8, width: 5, height: 9, x: 1, y: -9i32, data_offset: 430 },
        54 => FontGlyph { step_width: 8, width: 5, height: 9, x: 1, y: -9i32, data_offset: 439 },
        55 => FontGlyph { step_width: 8, width: 5, height: 9, x: 1, y: -9i32, data_offset: 448 },
        56 => FontGlyph { step_width: 8, width: 5, height: 9, x: 1, y: -9i32, data_offset: 457 },
        57 => FontGlyph { step_width: 8, width: 5, height: 9, x: 1, y: -9i32, data_offset: 466 },
        58 => FontGlyph { step_width: 8, width: 1, height: 7, x: 3, y: -7i32, data_offset: 475 },
        59 => FontGlyph { step_width: 8, width: 2, height: 9, x: 2, y: -7i32, data_offset: 482 },
        60 => FontGlyph { step_width: 8, width: 3, height: 5, x: 2, y: -7i32, data_offset: 491 },
        61 => FontGlyph { step_width: 8, width: 4, height: 3, x: 2, y: -6i32, data_offset: 496 },
        62 => FontGlyph { step_width: 8, width: 3, height: 5, x: 2, y: -7i32, data_offset: 499 },
        63 => FontGlyph { step_width: 8, width: 5, height: 9, x: 1, y: -9i32, data_offset: 504 },
        64 => FontGlyph { step_width: 8, width: 7, height: 9, x: 0, y: -9i32, data_offset: 513 },
        65 => FontGlyph { step_width: 8, width: 5, height: 9, x: 1, y: -9i32, data_offset: 522 },
        66 => FontGlyph { step_width: 8, width: 5, height: 9, x: 1, y: -9i32, data_offset: 531 },
        67 => FontGlyph { step_width: 8, width: 5, height: 9, x: 1, y: -9i32, data_offset: 540 },
        68 => FontGlyph { step_width: 8, width: 5, height: 9, x: 1, y: -9i32, data_offset: 549 },
        69 => FontGlyph { step_width: 8, width: 5, height: 9, x: 1, y: -9i32, data_offset: 558 },
        70 => FontGlyph { step_width: 8, width: 5, height: 9, x: 1, y: -9i32, data_offset: 567 },
        71 => FontGlyph { step_width: 8, width: 5, height: 9, x: 1, y: -9i32, data_offset: 576 },
        72 => FontGlyph { step_width: 8, width: 5, height: 9, x: 1, y: -9i32, data_offset: 585 },
        73 => FontGlyph { step_width: 8, width: 5, height: 9, x: 1, y: -9i32, data_offset: 594 },
        74 => FontGlyph { step_width: 8, width: 6, height: 9, x: 1, y: -9i32, data_offset: 603 },
        75 => FontGlyph { step_width: 8, width: 5, height: 9, x: 1, y: -9i32, data_offset: 612 },
        76 => FontGlyph { step_width: 8, width: 5, height: 9, x: 1, y: -9i32, data_offset: 621 },
        77 => FontGlyph { step_width: 8, width: 7, height: 9, x: 0, y: -9i32, data_offset: 630 },
        78 => FontGlyph { step_width: 8, width: 5, height: 9, x: 1, y: -9i32, data_offset: 639 },
        79 => FontGlyph { step_width: 8, width: 5, height: 9, x: 1, y: -9i32, data_offset: 648 },
        80 => FontGlyph { step_width: 8, width: 5, height: 9, x: 1, y: -9i32, data_offset: 657 },
        81 => FontGlyph { step_width: 8, width: 5, height: 9, x: 1, y: -9i32, data_offset: 666 },
        82 => FontGlyph { step_width: 8, width: 5, height: 9, x: 1, y: -9i32, data_offset: 675 },
        83 => FontGlyph { step_width: 8, width: 5, height: 9, x: 1, y: -9i32, data_offset: 684 },
        84 => FontGlyph { step_width: 8, width: 5, height: 9, x: 1, y: -9i32, data_offset: 693 },
        85 => FontGlyph { step_width: 8, width: 5, height: 9, x: 1, y: -9i32, data_offset: 702 },
        86 => FontGlyph { step_width: 8, width: 5, height: 9, x: 1, y: -9i32, data_offset: 711 },
        87 => FontGlyph { step_width: 8, width: 7, height: 9, x: 0, y: -9i32, data_offset: 720 },
        88 => FontGlyph { step_width: 8, width: 5, height: 9, x: 1, y: -9i32, data_offset: 729 },
        89 => FontGlyph { step_width: 8, width: 5, height: 9, x: 1, y: -9i32, data_offset: 738 },
        90 => FontGlyph { step_width: 8, width: 5, height: 9, x: 1, y: -9i32, data_offset: 747 },
        91 => FontGlyph { step_width: 8, width: 3, height: 9, x: 3, y: -9i32, data_offset: 756 },
        92 => FontGlyph { step_width: 8, width: 3, height: 9, x: 2, y: -9i32, data_offset: 765 },
        93 => FontGlyph { step_width: 8, width: 3, height: 9, x: 1, y: -9i32, data_offset: 774 },
        94 => FontGlyph { step_width: 8, width: 5, height: 3, x: 1, y: -9i32, data_offset: 783 },
        95 => FontGlyph { step_width: 8, width: 8, height: 1, x: 0, y: 1, data_offset: 786 },
        96 => FontGlyph { step_width: 8, width: 2, height: 2, x: 2, y: -9i32, data_offset: 787 },
        97 => FontGlyph { step_width: 8, width: 5, height: 7, x: 1, y: -7i32, data_offset: 789 },
        98 => FontGlyph { step_width: 8, width: 5, height: 9, x: 1, y: -9i32, data_offset: 796 },
        99 => FontGlyph { step_width: 8, width: 5, height: 7, x: 1, y: -7i32, data_offset: 805 },
        100 => FontGlyph { step_width: 8, width: 5, height: 9, x: 1, y: -9i32, data_offset: 812 },
        101 => FontGlyph { step_width: 8, width: 5, height: 7, x: 1, y: -7i32, data_offset: 821 },
        102 => FontGlyph { step_width: 8, width: 4, height: 9, x: 2, y: -9i32, data_offset: 828 },
        103 => FontGlyph { step_width: 8, width: 5, height: 9, x: 1, y: -7i32, data_offset: 837 },
        104 => FontGlyph { step_width: 8, width: 5, height: 9, x: 1, y: -9i32, data_offset: 846 },
        105 => FontGlyph { step_width: 8, width: 5, height: 9, x: 1, y: -9i32, data_offset: 855 },
        106 => FontGlyph { step_width: 8, width: 5, height: 11, x: 1, y: -9i32, data_offset: 864 },
        107 => FontGlyph { step_width: 8, width: 5, height: 9, x: 1, y: -9i32, data_offset: 875 },
        108 => FontGlyph { step_width: 8, width: 5, height: 9, x: 1, y: -9i32, data_offset: 884 },
        109 => FontGlyph { step_width: 8, width: 7, height: 7, x: 0, y: -7i32, data_offset: 893 },
        110 => FontGlyph { step_width: 8, width: 5, height: 7, x: 1, y: -7i32, data_offset: 900 },
        111 => FontGlyph { step_width: 8, width: 5, height: 7, x: 1, y: -7i32, data_offset: 907 },
        112 => FontGlyph { step_width: 8, width: 5, height: 9, x: 1, y: -7i32, data_offset: 914 },
        113 => FontGlyph { step_width: 8, width: 5, height: 9, x: 1, y: -7i32, data_offset: 923 },
        114 => FontGlyph { step_width: 8, width: 5, height: 7, x: 1, y: -7i32, data_offset: 932 },
        115 => FontGlyph { step_width: 8, width: 5, height: 7, x: 1, y: -7i32, data_offset: 939 },
        116 => FontGlyph { step_width: 8, width: 4, height: 8, x: 2, y: -8i32, data_offset: 946 },
        117 => FontGlyph { step_width: 8, width: 5, height: 7, x: 1, y: -7i32, data_offset: 954 },
        118 => FontGlyph { step_width: 8, width: 5, height: 7, x: 1, y: -7i32, data_offset: 961 },
        119 => FontGlyph { step_width: 8, width: 7, height: 7, x: 0, y: -7i32, data_offset: 968 },
        120 => FontGlyph { step_width: 8, width: 5, height: 7, x: 1, y: -7i32, data_offset: 975 },
        121 => FontGlyph { step_width: 8, width: 5, height: 9, x: 1, y: -7i32, data_offset: 982 },
        122 => FontGlyph { step_width: 8, width: 5, height: 7, x: 1, y: -7i32, data_offset: 991 },
        123 => FontGlyph { step_width: 8, width: 4, height: 9, x: 2, y: -9i32, data_offset: 998 },
        124 => FontGlyph { step_width: 8, width: 1, height: 9, x: 3, y: -9i32, data_offset: 1007 },
        125 => FontGlyph { step_width: 8, width: 4, height: 9, x: 1, y: -9i32, data_offset: 1016 },
        126 => FontGlyph { step_width: 8, width: 6, height: 2, x: 1, y: -9i32, data_offset: 1025 },
        _ => FontGlyph { step_width: 8, width: 5, height: 9, x: 1, y: -9i32, data_offset: 1027 },
    }
}

/// The glyph a byte draws: bytes above 127 draw glyph 127.
pub open spec fn glyph_index(ch: u8) -> int {
    if ch > 127 {
        127
    } else {
        ch as int
    }
}

/// Glyph `i` of a font.
#[verifier::opaque]
pub open spec fn spec_glyph(size: FontSize, i: int) -> FontGlyph {
    match size {
        FontSize::Small => small_glyph_at(i),
        FontSize::Big => big_glyph_at(i),
    }
}

/// A font's bitmap bytes.
#[verifier::opaque]
pub open spec fn spec_font_data(size: FontSize) -> Seq<u8> {
    match size {
        FontSize::Small => SMALL_FONT_DATA@,
        FontSize::Big => BIG_FONT_DATA@,
    }
}

/// The glyph that byte `ch` draws in a font.
pub fn glyph(size: FontSize, ch: u8) -> (g: FontGlyph)
    ensures
        g == spec_glyph(size, glyph_index(ch)),
{
    reveal(spec_glyph);
    let i: usize = if ch > 127 { 127 } else { ch as usize };
    match size {
        FontSize::Small => small_glyph(i),
        FontSize::Big => big_glyph(i),
    }
}

/// Every glyph advances the pen by 2 to 9 pixels.
pub proof fn lemma_step_widths_bounded(size: FontSize, i: int)
    requires
        0 <= i < 128,
    ensures
        2 <= spec_glyph(size, i).step_width <= 9,
{
    reveal(spec_glyph);
}

/// The width of a text in a font: the sum of its glyphs' pen advances.
pub open spec fn text_width(size: FontSize, text: Seq<u8>) -> int
    decreases text.len(),
{
    if text.len() == 0 {
        0
    } else {
        text_width(size, text.drop_last()) + spec_glyph(size, glyph_index(text.last())).step_width
    }
}

/// A text is between 2 and 9 pixels wide per byte.
pub proof fn lemma_text_width_bounds(size: FontSize, text: Seq<u8>)
    ensures
        2 * text.len() <= text_width(size, text) <= 9 * text.len(),
    decreases text.len(),
{
    if text.len() > 0 {
        lemma_text_width_bounds(size, text.drop_last());
        lemma_step_widths_bounded(size, glyph_index(text.last()));
    }
}

/// The width of two texts one after the other is the sum of their widths.
pub proof fn text_width_concat(size: FontSize, a: Seq<u8>, b: Seq<u8>)
    ensures
        text_width(size, a + b) == text_width(size, a) + text_width(size, b),
    decreases b.len(),
{
    if b.len() == 0 {
        assert(a + b =~= a);
    } else {
        assert((a + b).drop_last() =~= a + b.drop_last());
        assert((a + b).last() == b.last());
        text_width_concat(size, a, b.drop_last());
    }
}

/// A prefix of a text is no wider than the text.
pub proof fn lemma_text_width_prefix(size: FontSize, text: Seq<u8>, k: int)
    requires
        0 <= k <= text.len(),
    ensures
        0 <= text_width(size, text.take(k)) <= text_width(size, text),
    decreases text.len() - k,
{
    lemma_text_width_bounds(size, text.take(k));
    if k < text.len() {
        lemma_text_width_prefix(size, text, k + 1);
        assert(text.take(k + 1).drop_last() =~= text.take(k));
        lemma_step_widths_bounded(size, glyph_index(text.take(k + 1).last()));
    } else {
        assert(text.take(k) =~= text);
    }
}

/// The width in pixels of `text` in the given font.
fn measure(size: FontSize, text: &[u8]) -> (width: i32)
    requires
        text_width(size, text@) <= i32::MAX,
    ensures
        width == text_width(size, text@),
{
    let mut width: i32 = 0;
    let mut i: usize = 0;
    while i < text.len()
        invariant
            0 <= i <= text@.len(),
            text_width(size, text@) <= i32::MAX,
            width == text_width(size, text@.take(i as int)),
        decreases text@.len() - i,
    {
        proof {
            assert(text@.take(i + 1).drop_last() =~= text@.take(i as int));
            lemma_text_width_prefix(size, text@, i + 1);
        }
        width = width + glyph(size, text[i]).step_width;
        i = i + 1;
    }
    assert(text@.take(i as int) =~= text@);
    width
}

/// The width in pixels of `text` in the small font.
pub fn measure_text(text: &[u8]) -> (width: i32)
    requires
        text_width(FontSize::Small, text@) <= i32::MAX,
    ensures
        width == text_width(FontSize::Small, text@),
{
    measure(FontSize::Small, text)
}

/// The width in pixels of `text` in the big font.
pub fn measure_text_big(text: &[u8]) -> (width: i32)
    requires
        text_width(FontSize::Big, text@) <= i32::MAX,
    ensures
        width == text_width(FontSize::Big, text@),
{
    measure(FontSize::Big, text)
}

/// The small font's glyph bitmaps are at most 8 wide and 16 high, sit at
/// most 3 pixels right of and 12 above the pen, and start inside its data.
#[verifier::spinoff_prover]
proof fn lemma_small_glyph_bounds(i: int)
    requires
        0 <= i < 128,
    ensures
        0 <= small_glyph_at(i).width <= 8,
        0 <= small_glyph_at(i).height <= 16,
        0 <= small_glyph_at(i).x <= 3,
        -12 <= small_glyph_at(i).y <= 1,
        small_glyph_at(i).data_offset <= 586,
{
}

/// The big font's glyph bitmaps are at most 8 wide and 16 high, sit at most
/// 3 pixels right of and 12 above the pen, and start inside its data.
#[verifier::rlimit(100)]
#[verifier::spinoff_prover]
proof fn lemma_big_glyph_bounds(i: int)
    requires
        0 <= i < 128,
    ensures
        0 <= big_glyph_at(i).width <= 8,
        0 <= big_glyph_at(i).height <= 16,
        0 <= big_glyph_at(i).x <= 3,
        -12 <= big_glyph_at(i).y <= 1,
        big_glyph_at(i).data_offset <= 1036,
{
}

/// The fonts' data sizes.
proof fn lemma_font_data_len(size: FontSize)
    ensures
        spec_font_data(size).len() == (match size {
            FontSize::Small => 586int,
            FontSize::Big => 1036int,
        }),
{
    reveal(spec_font_data);
}

/// Glyph bitmaps are at most 8 wide and 16 high, sit at most 3 pixels
/// right of and 12 above the pen, and start inside the font data.
pub proof fn lemma_glyph_bounds(size: FontSize, i: int)
    requires
        0 <= i < 128,
    ensures
        0 <= spec_glyph(size, i).width <= 8,
        0 <= spec_glyph(size, i).height <= 16,
        0 <= spec_glyph(size, i).x <= 3,
        -12 <= spec_glyph(size, i).y <= 1,
        spec_glyph(size, i).data_offset <= spec_font_data(size).len(),
{
    reveal(spec_glyph);
    lemma_font_data_len(size);
    match size {
        FontSize::Small => lemma_small_glyph_bounds(i),
        FontSize::Big => lemma_big_glyph_bounds(i),
    }
}

/// A pixel write: column, row and color.
pub type PixelWrite = (int, int, u32);

/// Whether column `px` of row `py` of glyph `g` is set in `data`: bit
/// `px % 8` of the row's byte `px / 8`, rows being `(width + 7) / 8` bytes
/// from the glyph's first byte (bits outside the data are clear).
pub open spec fn glyph_bit(data: Seq<u8>, g: FontGlyph, px: int, py: int) -> bool {
    let idx = g.data_offset + py * ((g.width + 7) / 8) + px / 8;
    idx < data.len() && (data[idx] >> ((px % 8) as u8)) & 1u8 != 0
}

/// The writes for bitmap pixel (px, py) of a glyph drawn with its pen at
/// (x, y): the pixel in `color` when it lies at non-negative coordinates,
/// then, with `shadow`, the pixel below right in `shadow_color`.
pub open spec fn glyph_pixel_writes(
    data: Seq<u8>,
    g: FontGlyph,
    x: int,
    y: int,
    px: int,
    py: int,
    color: u32,
    shadow_color: u32,
    shadow: bool,
) -> Seq<PixelWrite> {
    if glyph_bit(data, g, px, py) {
        let mx = x + px + g.x;
        let my = y + py + g.y;
        let main = if mx >= 0 && my >= 0 { seq![(mx, my, color)] } else { Seq::empty() };
        let below = if shadow && mx + 1 >= 0 && my + 1 >= 0 {
            seq![(mx + 1, my + 1, shadow_color)]
        } else {
            Seq::empty()
        };
        main + below
    } else {
        Seq::empty()
    }
}

/// The writes for the first `n` columns of bitmap row `py`.
pub open spec fn glyph_row_writes(
    data: Seq<u8>,
    g: FontGlyph,
    x: int,
    y: int,
    py: int,
    n: int,
    color: u32,
    shadow_color: u32,
    shadow: bool,
) -> Seq<PixelWrite>
    decreases n,
{
    if n <= 0 {
        Seq::empty()
    } else {
        glyph_row_writes(data, g, x, y, py, n - 1, color, shadow_color, shadow)
            + glyph_pixel_writes(data, g, x, y, n - 1, py, color, shadow_color, shadow)
    }
}

/// The writes for the first `n` bitmap rows of a glyph, row by row.
pub open spec fn glyph_writes(
    data: Seq<u8>,
    g: FontGlyph,
    x: int,
    y: int,
    n: int,
    color: u32,
    shadow_color: u32,
    shadow: bool,
) -> Seq<PixelWrite>
    decreases n,
{
    if n <= 0 {
        Seq::empty()
    } else {
        glyph_writes(data, g, x, y, n - 1, color, shadow_color, shadow)
            + glyph_row_writes(data, g, x, y, n - 1, g.width as int, color, shadow_color, shadow)
    }
}

/// The writes drawing byte `ch` with its pen at (x, y).
pub open spec fn char_writes(
    size: FontSize,
    ch: u8,
    x: int,
    y: int,
    color: u32,
    shadow_color: u32,
    shadow: bool,
) -> Seq<PixelWrite> {
    let g = spec_glyph(size, glyph_index(ch));
    glyph_writes(spec_font_data(size), g, x, y, g.height as int, color, shadow_color, shadow)
}

/// The writes drawing a text from pen position (x, y): each byte's glyph in
/// turn, the pen moving right by the glyph's advance.
pub open spec fn text_writes(size: FontSize, text: Seq<u8>, x: int, y: int, color: u32) -> Seq<PixelWrite>
    decreases text.len(),
{
    if text.len() == 0 {
        Seq::empty()
    } else {
        text_writes(size, text.drop_last(), x, y, color)
            + char_writes(size, text.last(), x + text_width(size, text.drop_last()), y, color, 0, false)
    }
}

/// The writes filling [x1, x2) x [y1, y2) row by row (`rows` rows from y1).
pub open spec fn rect_writes(x1: int, x2: int, y1: int, rows: int, color: u32) -> Seq<PixelWrite>
    decreases rows,
{
    if rows <= 0 {
        Seq::empty()
    } else {
        rect_writes(x1, x2, y1, rows - 1, color) + hline_writes(x1, x2, y1 + rows - 1, color)
    }
}

/// The writes drawing row `y` over [x1, x2), left to right.
pub open spec fn hline_writes(x1: int, x2: int, y: int, color: u32) -> Seq<PixelWrite>
    decreases x2 - x1,
{
    if x2 <= x1 {
        Seq::empty()
    } else {
        hline_writes(x1, x2 - 1, y, color).push((x2 - 1, y, color))
    }
}

/// The writes drawing column `x` over [y1, y2), top to bottom.
pub open spec fn vline_writes(x: int, y1: int, y2: int, color: u32) -> Seq<PixelWrite>
    decreases y2 - y1,
{
    if y2 <= y1 {
        Seq::empty()
    } else {
        vline_writes(x, y1, y2 - 1, color).push((x, y2 - 1, color))
    }
}

/// Byte `idx` of a font's bitmap data.
pub fn font_byte(size: FontSize, idx: usize) -> (b: u8)
    requires
        idx < spec_font_data(size).len(),
    ensures
        b == spec_font_data(size)[idx as int],
{
    proof {
        reveal(spec_font_data);
    }
    match size {
        FontSize::Small => SMALL_FONT_DATA[idx],
        FontSize::Big => BIG_FONT_DATA[idx],
    }
}

/// Number of bitmap bytes of a font.
pub fn font_data_len(size: FontSize) -> (n: usize)
    ensures
        n == spec_font_data(size).len(),
        n <= 1036,
{
    proof {
        lemma_font_data_len(size);
    }
    match size {
        FontSize::Small => 586,
        FontSize::Big => 1036,
    }
}

/// Whether bitmap pixel (px, py) of glyph `g` of a font is set.
pub fn glyph_pixel_on(size: FontSize, g: FontGlyph, px: i32, py: i32) -> (on: bool)
    requires
        0 <= g.width <= 8,
        0 <= px < 8,
        0 <= py < 16,
        g.data_offset <= spec_font_data(size).len(),
    ensures
        on == glyph_bit(spec_font_data(size), g, px as int, py as int),
{
    let n = font_data_len(size);
    let step: usize = ((g.width + 7) / 8) as usize;
    assert((py as usize) * step <= 15) by (nonlinear_arith)
        requires
            0 <= py < 16,
            step <= 1,
    ;
    let idx: usize = g.data_offset + (py as usize) * step + (px / 8) as usize;
    if idx < font_data_len(size) {
        let byte = font_byte(size, idx);
        (byte >> ((px % 8) as u8)) & 1 != 0
    } else {
        false
    }
}

} // verus!
