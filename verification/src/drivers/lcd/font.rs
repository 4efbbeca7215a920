//! The minimal font: 5 by 8 glyphs that scale by whole factors.
//!
//! A glyph is 40 bits, row by row from the top, each row left to right,
//! packed into five bytes from the most significant bit down. When
//! writing a line, one column of the same scale separates adjacent
//! characters.

use vstd::prelude::*;
use vstd::string::StringSliceAdditionalSpecFns;
use crate::drivers::lcd::lcd;
use crate::mcu::spi::{high_byte, low_byte};
use crate::drivers::lcd::lcd_api;
use crate::drivers::lcd::lcd_api::{span_ok, Color};
use crate::drivers::lcd::st7789::Command;
use crate::mcu::{Action, ActionView};

verus! {

#[derive(Clone, Copy, Debug, PartialEq, Eq)]
pub struct MinimalCharacter {
    pub bytes: [u8; 5],
}

pub const MINIMAL_CHARACTER_WIDTH: u16 = 5;

pub const MINIMAL_CHARACTER_HEIGHT: u16 = 8;

/// The glyph of `c`; blank for a character the font does not have.
pub open spec fn minimal_character(c: char) -> MinimalCharacter {
    match c {
        'A' => MinimalCharacter { bytes: [0x22, 0xA3, 0x1F, 0xC6, 0x20] },
        'B' => MinimalCharacter { bytes: [0xF4, 0x63, 0xE8, 0xC7, 0xC0] },
        'C' => MinimalCharacter { bytes: [0x74, 0x61, 0x08, 0x45, 0xC0] },
        'D' => MinimalCharacter { bytes: [0xF4, 0x63, 0x18, 0xC7, 0xC0] },
        'E' => MinimalCharacter { bytes: [0xFC, 0x21, 0xE8, 0x43, 0xE0] },
        'F' => MinimalCharacter { bytes: [0xFC, 0x21, 0xE8, 0x42, 0x00] },
        'G' => MinimalCharacter { bytes: [0x74, 0x21, 0x38, 0xC5, 0xC0] },
        'H' => MinimalCharacter { bytes: [0x8C, 0x63, 0xF8, 0xC6, 0x20] },
        'I' => MinimalCharacter { bytes: [0xF9, 0x08, 0x42, 0x13, 0xE0] },
        'J' => MinimalCharacter { bytes: [0x08, 0x42, 0x18, 0xC5, 0xC0] },
        'K' => MinimalCharacter { bytes: [0x8C, 0x65, 0xC9, 0x46, 0x20] },
        'L' => MinimalCharacter { bytes: [0x84, 0x21, 0x08, 0x43, 0xE0] },
        'M' => MinimalCharacter { bytes: [0x8E, 0xEB, 0x58, 0xC6, 0x20] },
        'N' => MinimalCharacter { bytes: [0x8E, 0x6B, 0x38, 0xC6, 0x20] },
        'O' => MinimalCharacter { bytes: [0x74, 0x63, 0x18, 0xC5, 0xC0] },
        'P' => MinimalCharacter { bytes: [0xF4, 0x63, 0xE8, 0x42, 0x00] },
        'Q' => MinimalCharacter { bytes: [0x74, 0x63, 0x1A, 0xC9, 0xA0] },
        'R' => MinimalCharacter { bytes: [0xF4, 0x63, 0xE8, 0xC6, 0x20] },
        'S' => MinimalCharacter { bytes: [0x74, 0x60, 0xE0, 0xC5, 0xC0] },
        'T' => MinimalCharacter { bytes: [0xF9, 0x08, 0x42, 0x10, 0x80] },
        'U' => MinimalCharacter { bytes: [0x8C, 0x63, 0x18, 0xC5, 0xC0] },
        'V' => MinimalCharacter { bytes: [0x8C, 0x63, 0x18, 0xA8, 0x80] },
        'W' => MinimalCharacter { bytes: [0xAD, 0x6B, 0x5A, 0xD5, 0x40] },
        'X' => MinimalCharacter { bytes: [0x8C, 0x54, 0x45, 0x46, 0x20] },
        'Y' => MinimalCharacter { bytes: [0x8C, 0x62, 0xA2, 0x10, 0x80] },
        'Z' => MinimalCharacter { bytes: [0xF8, 0x44, 0x44, 0x43, 0xE0] },
        'a' => MinimalCharacter { bytes: [0x00, 0x1C, 0x17, 0xC5, 0xE0] },
        'b' => MinimalCharacter { bytes: [0x84, 0x3D, 0x18, 0xC7, 0xC0] },
        'c' => MinimalCharacter { bytes: [0x00, 0x1D, 0x08, 0x41, 0xC0] },
        'd' => MinimalCharacter { bytes: [0x08, 0x5F, 0x18, 0xC5, 0xE0] },
        'e' => MinimalCharacter { bytes: [0x00, 0x1D, 0x1F, 0x41, 0xE0] },
        'f' => MinimalCharacter { bytes: [0x11, 0x1C, 0x42, 0x10, 0x80] },
        'g' => MinimalCharacter { bytes: [0x03, 0x25, 0x27, 0x09, 0x80] },
        'h' => MinimalCharacter { bytes: [0x84, 0x2D, 0x98, 0xC6, 0x20] },
        'i' => MinimalCharacter { bytes: [0x01, 0x00, 0x42, 0x10, 0x80] },
        'j' => MinimalCharacter { bytes: [0x10, 0x04, 0x21, 0x28, 0x80] },
        'k' => MinimalCharacter { bytes: [0x84, 0x25, 0x4C, 0x52, 0x40] },
        'l' => MinimalCharacter { bytes: [0x21, 0x08, 0x42, 0x10, 0x80] },
        'm' => MinimalCharacter { bytes: [0x00, 0x35, 0x5A, 0xD6, 0xA0] },
        'n' => MinimalCharacter { bytes: [0x00, 0x19, 0x29, 0x4A, 0x40] },
        'o' => MinimalCharacter { bytes: [0x00, 0x19, 0x29, 0x49, 0x80] },
        'p' => MinimalCharacter { bytes: [0x03, 0x25, 0x2E, 0x42, 0x00] },
        'q' => MinimalCharacter { bytes: [0x03, 0x25, 0x27, 0x08, 0x60] },
        'r' => MinimalCharacter { bytes: [0x00, 0x2D, 0x88, 0x42, 0x00] },
        's' => MinimalCharacter { bytes: [0x00, 0x1D, 0x06, 0x0B, 0x80] },
        't' => MinimalCharacter { bytes: [0x02, 0x3C, 0x84, 0x20, 0xC0] },
        'u' => MinimalCharacter { bytes: [0x00, 0x23, 0x18, 0xC5, 0xE0] },
        'v' => MinimalCharacter { bytes: [0x00, 0x23, 0x18, 0xA8, 0x80] },
        'w' => MinimalCharacter { bytes: [0x00, 0x23, 0x18, 0xD5, 0x40] },
        'x' => MinimalCharacter { bytes: [0x00, 0x22, 0xA2, 0x2A, 0x20] },
        'y' => MinimalCharacter { bytes: [0x00, 0x12, 0x93, 0x84, 0xC0] },
        'z' => MinimalCharacter { bytes: [0x00, 0x3E, 0x22, 0x23, 0xE0] },
        '1' => MinimalCharacter { bytes: [0x23, 0x08, 0x42, 0x11, 0xC0] },
        '2' => MinimalCharacter { bytes: [0x74, 0x42, 0x64, 0x43, 0xE0] },
        '3' => MinimalCharacter { bytes: [0x74, 0x42, 0xE0, 0xC5, 0xC0] },
        '4' => MinimalCharacter { bytes: [0x4A, 0x52, 0xF0, 0x84, 0x20] },
        '5' => MinimalCharacter { bytes: [0xFC, 0x21, 0xE0, 0xC5, 0xC0] },
        '6' => MinimalCharacter { bytes: [0x74, 0x21, 0xE8, 0xC5, 0xC0] },
        '7' => MinimalCharacter { bytes: [0x78, 0x44, 0x42, 0x10, 0x80] },
        '8' => MinimalCharacter { bytes: [0x74, 0x62, 0xE8, 0xC5, 0xC0] },
        '9' => MinimalCharacter { bytes: [0x74, 0x62, 0xF0, 0x84, 0x20] },
        '0' => MinimalCharacter { bytes: [0x74, 0x67, 0x5C, 0xC5, 0xC0] },
        '.' => MinimalCharacter { bytes: [0x00, 0x00, 0x00, 0x10, 0x00] },
        ',' => MinimalCharacter { bytes: [0x00, 0x00, 0x00, 0x11, 0x00] },
        '?' => MinimalCharacter { bytes: [0x74, 0x42, 0x22, 0x00, 0x80] },
        '!' => MinimalCharacter { bytes: [0x21, 0x08, 0x42, 0x00, 0x80] },
        '*' => MinimalCharacter { bytes: [0x00, 0x14, 0x45, 0x00, 0x00] },
        '-' => MinimalCharacter { bytes: [0x00, 0x01, 0xF0, 0x00, 0x00] },
        ':' => MinimalCharacter { bytes: [0x00, 0x08, 0x02, 0x00, 0x00] },
        _ => MinimalCharacter { bytes: [0x00, 0x00, 0x00, 0x00, 0x00] },
    }
}

pub fn get_minimal_character(c: char) -> (glyph: MinimalCharacter)
    ensures
        glyph == minimal_character(c),
{
    match c {
        'A' => MinimalCharacter { bytes: [0x22, 0xA3, 0x1F, 0xC6, 0x20] },
        'B' => MinimalCharacter { bytes: [0xF4, 0x63, 0xE8, 0xC7, 0xC0] },
        'C' => MinimalCharacter { bytes: [0x74, 0x61, 0x08, 0x45, 0xC0] },
        'D' => MinimalCharacter { bytes: [0xF4, 0x63, 0x18, 0xC7, 0xC0] },
        'E' => MinimalCharacter { bytes: [0xFC, 0x21, 0xE8, 0x43, 0xE0] },
        'F' => MinimalCharacter { bytes: [0xFC, 0x21, 0xE8, 0x42, 0x00] },
        'G' => MinimalCharacter { bytes: [0x74, 0x21, 0x38, 0xC5, 0xC0] },
        'H' => MinimalCharacter { bytes: [0x8C, 0x63, 0xF8, 0xC6, 0x20] },
        'I' => MinimalCharacter { bytes: [0xF9, 0x08, 0x42, 0x13, 0xE0] },
        'J' => MinimalCharacter { bytes: [0x08, 0x42, 0x18, 0xC5, 0xC0] },
        'K' => MinimalCharacter { bytes: [0x8C, 0x65, 0xC9, 0x46, 0x20] },
        'L' => MinimalCharacter { bytes: [0x84, 0x21, 0x08, 0x43, 0xE0] },
        'M' => MinimalCharacter { bytes: [0x8E, 0xEB, 0x58, 0xC6, 0x20] },
        'N' => MinimalCharacter { bytes: [0x8E, 0x6B, 0x38, 0xC6, 0x20] },
        'O' => MinimalCharacter { bytes: [0x74, 0x63, 0x18, 0xC5, 0xC0] },
        'P' => MinimalCharacter { bytes: [0xF4, 0x63, 0xE8, 0x42, 0x00] },
        'Q' => MinimalCharacter { bytes: [0x74, 0x63, 0x1A, 0xC9, 0xA0] },
        'R' => MinimalCharacter { bytes: [0xF4, 0x63, 0xE8, 0xC6, 0x20] },
        'S' => MinimalCharacter { bytes: [0x74, 0x60, 0xE0, 0xC5, 0xC0] },
        'T' => MinimalCharacter { bytes: [0xF9, 0x08, 0x42, 0x10, 0x80] },
        'U' => MinimalCharacter { bytes: [0x8C, 0x63, 0x18, 0xC5, 0xC0] },
        'V' => MinimalCharacter { bytes: [0x8C, 0x63, 0x18, 0xA8, 0x80] },
        'W' => MinimalCharacter { bytes: [0xAD, 0x6B, 0x5A, 0xD5, 0x40] },
        'X' => MinimalCharacter { bytes: [0x8C, 0x54, 0x45, 0x46, 0x20] },
        'Y' => MinimalCharacter { bytes: [0x8C, 0x62, 0xA2, 0x10, 0x80] },
        'Z' => MinimalCharacter { bytes: [0xF8, 0x44, 0x44, 0x43, 0xE0] },
        'a' => MinimalCharacter { bytes: [0x00, 0x1C, 0x17, 0xC5, 0xE0] },
        'b' => MinimalCharacter { bytes: [0x84, 0x3D, 0x18, 0xC7, 0xC0] },
        'c' => MinimalCharacter { bytes: [0x00, 0x1D, 0x08, 0x41, 0xC0] },
        'd' => MinimalCharacter { bytes: [0x08, 0x5F, 0x18, 0xC5, 0xE0] },
        'e' => MinimalCharacter { bytes: [0x00, 0x1D, 0x1F, 0x41, 0xE0] },
        'f' => MinimalCharacter { bytes: [0x11, 0x1C, 0x42, 0x10, 0x80] },
        'g' => MinimalCharacter { bytes: [0x03, 0x25, 0x27, 0x09, 0x80] },
        'h' => MinimalCharacter { bytes: [0x84, 0x2D, 0x98, 0xC6, 0x20] },
        'i' => MinimalCharacter { bytes: [0x01, 0x00, 0x42, 0x10, 0x80] },
        'j' => MinimalCharacter { bytes: [0x10, 0x04, 0x21, 0x28, 0x80] },
        'k' => MinimalCharacter { bytes: [0x84, 0x25, 0x4C, 0x52, 0x40] },
        'l' => MinimalCharacter { bytes: [0x21, 0x08, 0x42, 0x10, 0x80] },
        'm' => MinimalCharacter { bytes: [0x00, 0x35, 0x5A, 0xD6, 0xA0] },
        'n' => MinimalCharacter { bytes: [0x00, 0x19, 0x29, 0x4A, 0x40] },
        'o' => MinimalCharacter { bytes: [0x00, 0x19, 0x29, 0x49, 0x80] },
        'p' => MinimalCharacter { bytes: [0x03, 0x25, 0x2E, 0x42, 0x00] },
        'q' => MinimalCharacter { bytes: [0x03, 0x25, 0x27, 0x08, 0x60] },
        'r' => MinimalCharacter { bytes: [0x00, 0x2D, 0x88, 0x42, 0x00] },
        's' => MinimalCharacter { bytes: [0x00, 0x1D, 0x06, 0x0B, 0x80] },
        't' => MinimalCharacter { bytes: [0x02, 0x3C, 0x84, 0x20, 0xC0] },
        'u' => MinimalCharacter { bytes: [0x00, 0x23, 0x18, 0xC5, 0xE0] },
        'v' => MinimalCharacter { bytes: [0x00, 0x23, 0x18, 0xA8, 0x80] },
        'w' => MinimalCharacter { bytes: [0x00, 0x23, 0x18, 0xD5, 0x40] },
        'x' => MinimalCharacter { bytes: [0x00, 0x22, 0xA2, 0x2A, 0x20] },
        'y' => MinimalCharacter { bytes: [0x00, 0x12, 0x93, 0x84, 0xC0] },
        'z' => MinimalCharacter { bytes: [0x00, 0x3E, 0x22, 0x23, 0xE0] },
        '1' => MinimalCharacter { bytes: [0x23, 0x08, 0x42, 0x11, 0xC0] },
        '2' => MinimalCharacter { bytes: [0x74, 0x42, 0x64, 0x43, 0xE0] },
        '3' => MinimalCharacter { bytes: [0x74, 0x42, 0xE0, 0xC5, 0xC0] },
        '4' => MinimalCharacter { bytes: [0x4A, 0x52, 0xF0, 0x84, 0x20] },
        '5' => MinimalCharacter { bytes: [0xFC, 0x21, 0xE0, 0xC5, 0xC0] },
        '6' => MinimalCharacter { bytes: [0x74, 0x21, 0xE8, 0xC5, 0xC0] },
        '7' => MinimalCharacter { bytes: [0x78, 0x44, 0x42, 0x10, 0x80] },
        '8' => MinimalCharacter { bytes: [0x74, 0x62, 0xE8, 0xC5, 0xC0] },
        '9' => MinimalCharacter { bytes: [0x74, 0x62, 0xF0, 0x84, 0x20] },
        '0' => MinimalCharacter { bytes: [0x74, 0x67, 0x5C, 0xC5, 0xC0] },
        '.' => MinimalCharacter { bytes: [0x00, 0x00, 0x00, 0x10, 0x00] },
        ',' => MinimalCharacter { bytes: [0x00, 0x00, 0x00, 0x11, 0x00] },
        '?' => MinimalCharacter { bytes: [0x74, 0x42, 0x22, 0x00, 0x80] },
        '!' => MinimalCharacter { bytes: [0x21, 0x08, 0x42, 0x00, 0x80] },
        '*' => MinimalCharacter { bytes: [0x00, 0x14, 0x45, 0x00, 0x00] },
        '-' => MinimalCharacter { bytes: [0x00, 0x01, 0xF0, 0x00, 0x00] },
        ':' => MinimalCharacter { bytes: [0x00, 0x08, 0x02, 0x00, 0x00] },
        _ => MinimalCharacter { bytes: [0x00, 0x00, 0x00, 0x00, 0x00] },
    }
}

/// Whether the pixel in row `row` (0 to 7) and column `col` (0 to 4) of
/// `glyph` is lit: bit `row * 5 + col` of its 40 bits.
pub open spec fn pixel_is_on(glyph: MinimalCharacter, row: int, col: int) -> bool {
    glyph.bytes@[(row * 5 + col) / 8] & (0x80u8 >> (((row * 5 + col) % 8) as u8)) != 0
}

fn pixel(glyph: &MinimalCharacter, row: usize, col: usize) -> (on: bool)
    requires
        row < 8,
        col < 5,
    ensures
        on == pixel_is_on(*glyph, row as int, col as int),
{
    let bit: usize = row * 5 + col;
    let mask: u8 = 0x80u8 >> ((bit % 8) as u8);
    glyph.bytes[bit / 8] & mask != 0
}

/// The two bytes of one pixel of `color`, high byte first.
pub open spec fn pixel_bytes(color: Color) -> Seq<u8> {
    seq![high_byte(color.spec_code()), low_byte(color.spec_code())]
}

/// `piece` repeated `times` times.
pub open spec fn repeat(piece: Seq<ActionView>, times: nat) -> Seq<ActionView>
    decreases times,
{
    if times == 0 {
        Seq::empty()
    } else {
        repeat(piece, (times - 1) as nat) + piece
    }
}

/// One glyph pixel drawn at `scale`: `scale` display pixels in a row.
pub open spec fn pixel_actions(color: Color, scale: u16) -> Seq<ActionView> {
    repeat(lcd::write_data_actions(pixel_bytes(color)), scale as nat)
}

/// One display row of the first `cols` columns of row `row` of `glyph`.
pub open spec fn line_actions(
    glyph: MinimalCharacter,
    row: int,
    cols: nat,
    fg: Color,
    bg: Color,
    scale: u16,
) -> Seq<ActionView>
    decreases cols,
{
    if cols == 0 {
        Seq::empty()
    } else {
        line_actions(glyph, row, (cols - 1) as nat, fg, bg, scale) + pixel_actions(
            if pixel_is_on(glyph, row, cols - 1) {
                fg
            } else {
                bg
            },
            scale,
        )
    }
}

/// The first `rows` rows of `glyph`, each drawn as `scale` display rows.
pub open spec fn glyph_actions(glyph: MinimalCharacter, rows: nat, fg: Color, bg: Color, scale: u16) -> Seq<
    ActionView,
>
    decreases rows,
{
    if rows == 0 {
        Seq::empty()
    } else {
        glyph_actions(glyph, (rows - 1) as nat, fg, bg, scale) + repeat(
            line_actions(glyph, rows - 1, 5, fg, bg, scale),
            scale as nat,
        )
    }
}

/// Whether a glyph drawn at `scale` with its top left corner at
/// (`x`, `y`) has a window that 16-bit coordinates can name.
pub open spec fn glyph_fits(x: u16, y: u16, scale: u16) -> bool {
    &&& 8 * scale <= u16::MAX
    &&& span_ok(x, (5 * scale) as u16)
    &&& span_ok(y, (8 * scale) as u16)
}

#[verifier::opaque]
pub open spec fn write_minimal_character_actions(
    c: char,
    x: u16,
    y: u16,
    fg: Color,
    bg: Color,
    scale: u16,
) -> Seq<ActionView> {
    lcd_api::set_window_actions(x, (5 * scale) as u16, y, (8 * scale) as u16)
        + lcd::write_command_actions(Command::MemoryWrite) + glyph_actions(
        minimal_character(c),
        8,
        fg,
        bg,
        scale,
    )
}

fn write_pixel(hw: &mut Vec<Action>, color: Color, scale: u16)
    ensures
        final(hw).deep_view() == old(hw).deep_view() + pixel_actions(color, scale),
{
    let code: u16 = color.code();
    let bytes: [u8; 2] = [(code / 256) as u8, (code % 256) as u8];
    assert(bytes@ =~= pixel_bytes(color));
    let mut done: u16 = 0;
    assert(hw.deep_view() =~= old(hw).deep_view() + pixel_actions(color, 0));
    while done < scale
        invariant
            done <= scale,
            bytes@ == pixel_bytes(color),
            hw.deep_view() == old(hw).deep_view() + pixel_actions(color, done),
        decreases scale - done,
    {
        lcd::write_data(hw, &bytes);
        done += 1;
        assert(hw.deep_view() =~= old(hw).deep_view() + pixel_actions(color, done));
    }
}

fn write_line(hw: &mut Vec<Action>, glyph: &MinimalCharacter, row: usize, fg: Color, bg: Color, scale: u16)
    requires
        row < 8,
    ensures
        final(hw).deep_view() == old(hw).deep_view() + line_actions(
            *glyph,
            row as int,
            5,
            fg,
            bg,
            scale,
        ),
{
    let mut col: usize = 0;
    assert(hw.deep_view() =~= old(hw).deep_view() + line_actions(*glyph, row as int, 0, fg, bg, scale));
    while col < 5
        invariant
            col <= 5,
            row < 8,
            hw.deep_view() == old(hw).deep_view() + line_actions(
                *glyph,
                row as int,
                col as nat,
                fg,
                bg,
                scale,
            ),
        decreases 5 - col,
    {
        let color = if pixel(glyph, row, col) {
            fg
        } else {
            bg
        };
        write_pixel(hw, color, scale);
        col += 1;
        assert(hw.deep_view() =~= old(hw).deep_view() + line_actions(
            *glyph,
            row as int,
            col as nat,
            fg,
            bg,
            scale,
        ));
    }
}

fn write_row(hw: &mut Vec<Action>, glyph: &MinimalCharacter, row: usize, fg: Color, bg: Color, scale: u16)
    requires
        row < 8,
    ensures
        final(hw).deep_view() == old(hw).deep_view() + repeat(
            line_actions(*glyph, row as int, 5, fg, bg, scale),
            scale as nat,
        ),
{
    let mut done: u16 = 0;
    let ghost line = line_actions(*glyph, row as int, 5, fg, bg, scale);
    assert(hw.deep_view() =~= old(hw).deep_view() + repeat(line, 0));
    while done < scale
        invariant
            done <= scale,
            row < 8,
            line == line_actions(*glyph, row as int, 5, fg, bg, scale),
            hw.deep_view() == old(hw).deep_view() + repeat(line, done as nat),
        decreases scale - done,
    {
        write_line(hw, glyph, row, fg, bg, scale);
        done += 1;
        assert(hw.deep_view() =~= old(hw).deep_view() + repeat(line, done as nat));
    }
}

/// Draws the glyph of `c` with its top left corner at (`x`, `y`), each
/// glyph pixel as a `scale` by `scale` square, lit pixels in `fg` and the
/// others in `bg`.
pub fn write_minimal_character(
    hw: &mut Vec<Action>,
    c: char,
    x: u16,
    y: u16,
    fg: Color,
    bg: Color,
    scale: u16,
)
    requires
        glyph_fits(x, y, scale),
    ensures
        final(hw).deep_view() == old(hw).deep_view() + write_minimal_character_actions(
            c,
            x,
            y,
            fg,
            bg,
            scale,
        ),
{
    reveal(write_minimal_character_actions);
    let char_width: u16 = MINIMAL_CHARACTER_WIDTH * scale;
    let char_height: u16 = MINIMAL_CHARACTER_HEIGHT * scale;

    lcd_api::set_window(hw, x, char_width, y, char_height);
    lcd::write_command(hw, Command::MemoryWrite);
    let glyph = get_minimal_character(c);
    let ghost start = hw.deep_view();
    let mut row: usize = 0;
    assert(hw.deep_view() =~= start + glyph_actions(glyph, 0, fg, bg, scale));
    while row < 8
        invariant
            row <= 8,
            hw.deep_view() == start + glyph_actions(glyph, row as nat, fg, bg, scale),
        decreases 8 - row,
    {
        write_row(hw, &glyph, row, fg, bg, scale);
        row += 1;
        assert(hw.deep_view() =~= start + glyph_actions(glyph, row as nat, fg, bg, scale));
    }
    assert(hw.deep_view() =~= old(hw).deep_view() + write_minimal_character_actions(
        c,
        x,
        y,
        fg,
        bg,
        scale,
    ));
}

/// Distance between the left edges of adjacent characters of a line, in
/// glyph pixels: the glyph's width and one separating column.
pub const MINIMAL_CHARACTER_PITCH: u16 = 6;

/// Whether every character of a line of `len` characters drawn at `scale`
/// from (`x`, `y`) has a window that 16-bit coordinates can name.
pub open spec fn line_fits(len: nat, x: u16, y: u16, scale: u16) -> bool {
    &&& 1 <= scale
    &&& 8 * scale <= u16::MAX
    &&& x + len * (6 * scale) <= u16::MAX
    &&& y + 8 * scale <= u16::MAX
}

/// The first `count` characters of `line`, each in its own window, left
/// to right.
pub open spec fn write_minimal_line_actions(
    line: Seq<u8>,
    count: nat,
    x: u16,
    y: u16,
    fg: Color,
    bg: Color,
    scale: u16,
) -> Seq<ActionView>
    decreases count,
{
    if count == 0 {
        Seq::empty()
    } else {
        write_minimal_line_actions(line, (count - 1) as nat, x, y, fg, bg, scale)
            + write_minimal_character_actions(
            line[count - 1] as char,
            (x + (count - 1) * (6 * scale)) as u16,
            y,
            fg,
            bg,
            scale,
        )
    }
}

/// Draws the characters of `line` from (`x`, `y`) to the right, each at
/// `scale`, one separating column between neighbours.
pub fn write_minimal_line(
    hw: &mut Vec<Action>,
    line: &[u8],
    x: u16,
    y: u16,
    fg: Color,
    bg: Color,
    scale: u16,
)
    requires
        line_fits(line@.len(), x, y, scale),
    ensures
        final(hw).deep_view() == old(hw).deep_view() + write_minimal_line_actions(
            line@,
            line@.len(),
            x,
            y,
            fg,
            bg,
            scale,
        ),
{
    let mut i: usize = 0;
    let mut left: u16 = x;
    assert(hw.deep_view() =~= old(hw).deep_view() + write_minimal_line_actions(
        line@,
        0,
        x,
        y,
        fg,
        bg,
        scale,
    ));
    while i < line.len()
        invariant
            i <= line@.len(),
            line_fits(line@.len(), x, y, scale),
            left == x + i * (6 * scale),
            hw.deep_view() == old(hw).deep_view() + write_minimal_line_actions(
                line@,
                i as nat,
                x,
                y,
                fg,
                bg,
                scale,
            ),
        decreases line@.len() - i,
    {
        assert(left + 6 * scale <= x + line@.len() * (6 * scale)) by (nonlinear_arith)
            requires
                left == x + i * (6 * scale),
                i < line@.len(),
        ;
        write_minimal_character(hw, line[i] as char, left, y, fg, bg, scale);
        assert((i + 1) * (6 * scale) == i * (6 * scale) + 6 * scale) by (nonlinear_arith);
        left = left + MINIMAL_CHARACTER_PITCH * scale;
        i += 1;
        assert(hw.deep_view() =~= old(hw).deep_view() + write_minimal_line_actions(
            line@,
            i as nat,
            x,
            y,
            fg,
            bg,
            scale,
        ));
    }
}

/// The digits of the clock face are the minimal glyphs at this scale.
pub const TIME_CHARACTER_SCALE: u16 = 8;

pub const TIME_CHARACTER_WIDTH: u16 = 40;

pub const TIME_CHARACTER_HEIGHT: u16 = 64;

/// The character of a decimal digit.
pub open spec fn digit_character(digit: u8) -> char {
    (0x30 + digit) as u8 as char
}

/// Draws the decimal digit `digit` of the clock face with its top left
/// corner at (`x`, `y`).
pub fn write_time_character(hw: &mut Vec<Action>, digit: u8, x: u16, y: u16, fg: Color, bg: Color)
    requires
        digit <= 9,
        glyph_fits(x, y, TIME_CHARACTER_SCALE),
    ensures
        final(hw).deep_view() == old(hw).deep_view() + write_minimal_character_actions(
            digit_character(digit),
            x,
            y,
            fg,
            bg,
            TIME_CHARACTER_SCALE,
        ),
{
    write_minimal_character(hw, (0x30 + digit) as char, x, y, fg, bg, TIME_CHARACTER_SCALE);
}

/// The characters of `text` drawn as a line.
pub open spec fn write_text_actions(text: &str, x: u16, y: u16, fg: Color, bg: Color, scale: u16) -> Seq<
    ActionView,
> {
    write_minimal_line_actions(text.spec_bytes(), text.spec_bytes().len(), x, y, fg, bg, scale)
}

/// Draws `text` from (`x`, `y`) to the right, as [`write_minimal_line`]
/// draws its bytes.
pub fn write_text(hw: &mut Vec<Action>, text: &str, x: u16, y: u16, fg: Color, bg: Color, scale: u16)
    requires
        line_fits(text.spec_bytes().len(), x, y, scale),
    ensures
        final(hw).deep_view() == old(hw).deep_view() + write_text_actions(text, x, y, fg, bg, scale),
{
    write_minimal_line(hw, text.as_bytes(), x, y, fg, bg, scale);
}

/// What only draws, repeated, only draws.
pub proof fn lemma_repeat_only_draws(piece: Seq<ActionView>, times: nat)
    requires
        lcd::only_draws(piece),
    ensures
        lcd::only_draws(repeat(piece, times)),
    decreases times,
{
    if times > 0 {
        lemma_repeat_only_draws(piece, (times - 1) as nat);
        lcd::lemma_only_draws_concat(repeat(piece, (times - 1) as nat), piece);
    }
}

/// A row of a glyph only draws.
pub proof fn lemma_line_only_draws(
    glyph: MinimalCharacter,
    row: int,
    cols: nat,
    fg: Color,
    bg: Color,
    scale: u16,
)
    ensures
        lcd::only_draws(line_actions(glyph, row, cols, fg, bg, scale)),
    decreases cols,
{
    if cols > 0 {
        lemma_line_only_draws(glyph, row, (cols - 1) as nat, fg, bg, scale);
        let color = if pixel_is_on(glyph, row, cols - 1) {
            fg
        } else {
            bg
        };
        lcd::lemma_transfers_only_draw(Command::MemoryWrite, pixel_bytes(color));
        lemma_repeat_only_draws(lcd::write_data_actions(pixel_bytes(color)), scale as nat);
        lcd::lemma_only_draws_concat(
            line_actions(glyph, row, (cols - 1) as nat, fg, bg, scale),
            pixel_actions(color, scale),
        );
    }
}

/// The rows of a glyph only draw.
pub proof fn lemma_glyph_only_draws(glyph: MinimalCharacter, rows: nat, fg: Color, bg: Color, scale: u16)
    ensures
        lcd::only_draws(glyph_actions(glyph, rows, fg, bg, scale)),
    decreases rows,
{
    if rows > 0 {
        lemma_glyph_only_draws(glyph, (rows - 1) as nat, fg, bg, scale);
        lemma_line_only_draws(glyph, rows - 1, 5, fg, bg, scale);
        lemma_repeat_only_draws(line_actions(glyph, rows - 1, 5, fg, bg, scale), scale as nat);
        lcd::lemma_only_draws_concat(
            glyph_actions(glyph, (rows - 1) as nat, fg, bg, scale),
            repeat(line_actions(glyph, rows - 1, 5, fg, bg, scale), scale as nat),
        );
    }
}

/// A character only draws.
pub proof fn lemma_character_only_draws(c: char, x: u16, y: u16, fg: Color, bg: Color, scale: u16)
    ensures
        lcd::only_draws(write_minimal_character_actions(c, x, y, fg, bg, scale)),
{
    reveal(write_minimal_character_actions);
    let window = lcd_api::set_window_actions(x, (5 * scale) as u16, y, (8 * scale) as u16);
    lcd_api::lemma_set_window_only_draws(x, (5 * scale) as u16, y, (8 * scale) as u16);
    lcd::lemma_transfers_only_draw(Command::MemoryWrite, Seq::empty());
    lemma_glyph_only_draws(minimal_character(c), 8, fg, bg, scale);
    lcd::lemma_only_draws_concat(window, lcd::write_command_actions(Command::MemoryWrite));
    lcd::lemma_only_draws_concat(
        window + lcd::write_command_actions(Command::MemoryWrite),
        glyph_actions(minimal_character(c), 8, fg, bg, scale),
    );
}

/// A line of characters only draws.
pub proof fn lemma_minimal_line_only_draws(
    line: Seq<u8>,
    count: nat,
    x: u16,
    y: u16,
    fg: Color,
    bg: Color,
    scale: u16,
)
    ensures
        lcd::only_draws(write_minimal_line_actions(line, count, x, y, fg, bg, scale)),
    decreases count,
{
    if count > 0 {
        lemma_minimal_line_only_draws(line, (count - 1) as nat, x, y, fg, bg, scale);
        lemma_character_only_draws(
            line[count - 1] as char,
            (x + (count - 1) * (6 * scale)) as u16,
            y,
            fg,
            bg,
            scale,
        );
        lcd::lemma_only_draws_concat(
            write_minimal_line_actions(line, (count - 1) as nat, x, y, fg, bg, scale),
            write_minimal_character_actions(
                line[count - 1] as char,
                (x + (count - 1) * (6 * scale)) as u16,
                y,
                fg,
                bg,
                scale,
            ),
        );
    }
}

} // verus!
