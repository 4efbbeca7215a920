//! Drawing primitives: windows, rectangles, backlight.

use vstd::prelude::*;
use crate::drivers::lcd::lcd;
use crate::mcu::spi::{high_byte, low_byte};
use crate::drivers::lcd::st7789::Command;
use crate::mcu::{Action, ActionView};

verus! {

#[derive(Clone, Copy, Debug, PartialEq, Eq, Structural)]
pub enum BacklightBrightness {
    Brightness0,
    Brightness1,
    Brightness2,
    Brightness3,
    Brightness4,
    Brightness5,
    Brightness6,
    Brightness7,
}

impl BacklightBrightness {
    /// The brightness as a number, 0 (off) to 7.
    pub open spec fn spec_level(self) -> u8 {
        match self {
            BacklightBrightness::Brightness0 => 0,
            BacklightBrightness::Brightness1 => 1,
            BacklightBrightness::Brightness2 => 2,
            BacklightBrightness::Brightness3 => 3,
            BacklightBrightness::Brightness4 => 4,
            BacklightBrightness::Brightness5 => 5,
            BacklightBrightness::Brightness6 => 6,
            BacklightBrightness::Brightness7 => 7,
        }
    }

    #[verifier::when_used_as_spec(spec_level)]
    pub fn level(self) -> (level: u8)
        ensures
            level == self.spec_level(),
    {
        match self {
            BacklightBrightness::Brightness0 => 0,
            BacklightBrightness::Brightness1 => 1,
            BacklightBrightness::Brightness2 => 2,
            BacklightBrightness::Brightness3 => 3,
            BacklightBrightness::Brightness4 => 4,
            BacklightBrightness::Brightness5 => 5,
            BacklightBrightness::Brightness6 => 6,
            BacklightBrightness::Brightness7 => 7,
        }
    }
}

/// Colours in 5-6-5 format, stored with their two bytes swapped so that
/// the red bits are sent first when the low byte goes out first.
#[derive(Clone, Copy, Debug, PartialEq, Eq, Structural)]
pub enum Color {
    Black,
    Red,
    Orange,
    Yellow,
    Green,
    Cyan,
    Blue,
    Magenta,
    White,
    GrayDark,
    Gray,
    GrayLight,
    Navy,
    Rust,
}

impl Color {
    /// The 16-bit value of the colour.
    pub open spec fn spec_code(self) -> u16 {
        match self {
            Color::Black => 0x0000,
            Color::Red => 0x00F8,
            Color::Orange => 0xE0FB,
            Color::Yellow => 0xE0FF,
            Color::Green => 0xE007,
            Color::Cyan => 0xFF07,
            Color::Blue => 0x1F00,
            Color::Magenta => 0x1FF8,
            Color::White => 0xFFFF,
            Color::GrayDark => 0x0842,
            Color::Gray => 0xEF7B,
            Color::GrayLight => 0x18C6,
            Color::Navy => 0xEF00,
            Color::Rust => 0xE078,
        }
    }

    #[verifier::when_used_as_spec(spec_code)]
    pub fn code(self) -> (code: u16)
        ensures
            code == self.spec_code(),
    {
        match self {
            Color::Black => 0x0000,
            Color::Red => 0x00F8,
            Color::Orange => 0xE0FB,
            Color::Yellow => 0xE0FF,
            Color::Green => 0xE007,
            Color::Cyan => 0xFF07,
            Color::Blue => 0x1F00,
            Color::Magenta => 0x1FF8,
            Color::White => 0xFFFF,
            Color::GrayDark => 0x0842,
            Color::Gray => 0xEF7B,
            Color::GrayLight => 0x18C6,
            Color::Navy => 0xEF00,
            Color::Rust => 0xE078,
        }
    }
}

/// Width and height of the panel in pixels.
pub const PANEL_SIZE: u16 = 240;

pub open spec fn init_actions() -> Seq<ActionView> {
    lcd::init_actions() + fill_background_actions(Color::Black) + lcd::set_backlight_actions(7)
}

/// Brings the display up, blanks it, and turns the backlight fully on.
pub fn init(hw: &mut Vec<Action>)
    ensures
        final(hw).deep_view() == old(hw).deep_view() + init_actions(),
{
    lcd::init(hw);
    fill_background(hw, Color::Black);
    lcd::set_backlight(hw, BacklightBrightness::Brightness7.level());
    assert(hw.deep_view() =~= old(hw).deep_view() + init_actions());
}

/// Whether a transfer to the display is in flight. Transfers block, so
/// none ever is.
pub fn get_busy() -> (busy: bool)
    ensures
        !busy,
{
    false
}

pub open spec fn fill_background_actions(color: Color) -> Seq<ActionView> {
    fill_rectangle_actions(0, PANEL_SIZE, 0, PANEL_SIZE, color)
}

/// Fills the whole panel with `color`.
pub fn fill_background(hw: &mut Vec<Action>, color: Color)
    ensures
        final(hw).deep_view() == old(hw).deep_view() + fill_background_actions(color),
{
    fill_rectangle(hw, 0, PANEL_SIZE, 0, PANEL_SIZE, color);
}

/// Whether a window that starts at `start` and spans `extent` pixels has
/// a last pixel that a 16-bit coordinate can name.
pub open spec fn span_ok(start: u16, extent: u16) -> bool {
    1 <= start + extent <= u16::MAX
}

#[verifier::opaque]
pub open spec fn fill_rectangle_actions(x: u16, width: u16, y: u16, height: u16, color: Color) -> Seq<
    ActionView,
> {
    set_window_actions(x, width, y, height) + lcd::write_command_actions(Command::MemoryWrite)
        + lcd::write_block_solid_actions(color.spec_code(), (width * height) as u32)
}

/// Fills the `width` by `height` rectangle whose top left corner is at
/// (`x`, `y`) with `color`.
pub fn fill_rectangle(hw: &mut Vec<Action>, x: u16, width: u16, y: u16, height: u16, color: Color)
    requires
        span_ok(x, width),
        span_ok(y, height),
        width * height <= u16::MAX,
    ensures
        final(hw).deep_view() == old(hw).deep_view() + fill_rectangle_actions(
            x,
            width,
            y,
            height,
            color,
        ),
{
    reveal(fill_rectangle_actions);
    set_window(hw, x, width, y, height);
    lcd::write_command(hw, Command::MemoryWrite);
    let pixels: u16 = width * height;
    lcd::write_block_solid(hw, color.code(), pixels as u32);
    assert(hw.deep_view() =~= old(hw).deep_view() + fill_rectangle_actions(
        x,
        width,
        y,
        height,
        color,
    ));
}

pub open spec fn set_backlight_actions(target_brightness: BacklightBrightness) -> Seq<ActionView> {
    lcd::set_backlight_actions(target_brightness.spec_level())
}

/// Sets the backlight to `target_brightness`.
pub fn set_backlight(hw: &mut Vec<Action>, target_brightness: BacklightBrightness)
    ensures
        final(hw).deep_view() == old(hw).deep_view() + set_backlight_actions(target_brightness),
{
    lcd::set_backlight(hw, target_brightness.level());
}

/// First and last coordinate of a span, each high byte first.
pub open spec fn span_bytes(start: u16, extent: u16) -> Seq<u8> {
    seq![
        high_byte(start),
        low_byte(start),
        high_byte((start + extent - 1) as u16),
        low_byte((start + extent - 1) as u16),
    ]
}

#[verifier::opaque]
pub open spec fn set_window_actions(x: u16, width: u16, y: u16, height: u16) -> Seq<ActionView> {
    lcd::write_command_actions(Command::ColumnAddress) + lcd::write_data_actions(
        span_bytes(x, width),
    ) + lcd::write_command_actions(Command::RowAddress) + lcd::write_data_actions(
        span_bytes(y, height),
    )
}

/// Selects the window that the next memory write fills: columns `x` to
/// `x + width - 1`, rows `y` to `y + height - 1`.
pub fn set_window(hw: &mut Vec<Action>, x: u16, width: u16, y: u16, height: u16)
    requires
        span_ok(x, width),
        span_ok(y, height),
    ensures
        final(hw).deep_view() == old(hw).deep_view() + set_window_actions(x, width, y, height),
{
    reveal(set_window_actions);
    let x_end: u16 = x + width - 1;
    let y_end: u16 = y + height - 1;

    // Define the window column size
    lcd::write_command(hw, Command::ColumnAddress);
    let columns: [u8; 4] = [(x / 256) as u8, (x % 256) as u8, (x_end / 256) as u8, (x_end % 256) as u8];
    assert(columns@ =~= span_bytes(x, width));
    lcd::write_data(hw, &columns);

    // Define the window row size
    lcd::write_command(hw, Command::RowAddress);
    let rows: [u8; 4] = [(y / 256) as u8, (y % 256) as u8, (y_end / 256) as u8, (y_end % 256) as u8];
    assert(rows@ =~= span_bytes(y, height));
    lcd::write_data(hw, &rows);
    assert(hw.deep_view() =~= old(hw).deep_view() + set_window_actions(x, width, y, height));
}

/// Left edge, width, top edge and height of the splash image.
pub const SPLASH_X: u16 = 39;

pub const SPLASH_WIDTH: u16 = 160;

pub const SPLASH_Y: u16 = 59;

pub const SPLASH_HEIGHT: u16 = 106;

pub open spec fn write_splash_actions(image: Seq<u8>) -> Seq<ActionView> {
    set_window_actions(SPLASH_X, SPLASH_WIDTH, SPLASH_Y, SPLASH_HEIGHT) + lcd::write_command_actions(
        Command::MemoryWrite,
    ) + lcd::write_block_actions(image)
}

/// Draws the splash `image`, given as the pixel bytes of its window.
pub fn write_splash(hw: &mut Vec<Action>, image: &[u8])
    ensures
        final(hw).deep_view() == old(hw).deep_view() + write_splash_actions(image@),
{
    set_window(hw, SPLASH_X, SPLASH_WIDTH, SPLASH_Y, SPLASH_HEIGHT);
    lcd::write_command(hw, Command::MemoryWrite);
    lcd::write_block(hw, image);
    assert(hw.deep_view() =~= old(hw).deep_view() + write_splash_actions(image@));
}

/// Selecting a window only draws.
pub proof fn lemma_set_window_only_draws(x: u16, width: u16, y: u16, height: u16)
    ensures
        lcd::only_draws(set_window_actions(x, width, y, height)),
{
    reveal(set_window_actions);
    lcd::lemma_transfers_only_draw(Command::ColumnAddress, span_bytes(x, width));
    lcd::lemma_transfers_only_draw(Command::RowAddress, span_bytes(y, height));
    let columns = lcd::write_command_actions(Command::ColumnAddress) + lcd::write_data_actions(
        span_bytes(x, width),
    );
    lcd::lemma_only_draws_concat(
        lcd::write_command_actions(Command::ColumnAddress),
        lcd::write_data_actions(span_bytes(x, width)),
    );
    lcd::lemma_only_draws_concat(columns, lcd::write_command_actions(Command::RowAddress));
    lcd::lemma_only_draws_concat(
        columns + lcd::write_command_actions(Command::RowAddress),
        lcd::write_data_actions(span_bytes(y, height)),
    );
}

} // verus!
