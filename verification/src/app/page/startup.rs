//! The startup page.

use vstd::prelude::*;
use vstd::string::StringSliceAdditionalSpecFns;
use crate::drivers::lcd::font;
use crate::drivers::lcd::lcd_api;
use crate::drivers::lcd::lcd_api::{BacklightBrightness, Color};
use crate::mcu::timer;
use crate::mcu::{Action, ActionView};

verus! {

/// What the startup sequence requests: a white panel at medium
/// brightness, the maker's line, the splash image `splash`, two lines of
/// credits, and a pause of four seconds.
pub open spec fn print_page_actions(splash: Seq<u8>) -> Seq<ActionView> {
    lcd_api::fill_background_actions(Color::White) + lcd_api::set_backlight_actions(
        BacklightBrightness::Brightness4,
    ) + font::write_text_actions("Tsp Designs", 174, 231, Color::Navy, Color::White, 1)
        + lcd_api::write_splash_actions(splash) + font::write_text_actions(
        "Powered by",
        60,
        179,
        Color::Rust,
        Color::White,
        2,
    ) + font::write_text_actions("RUST", 85, 200, Color::Rust, Color::White, 3) + seq![
        ActionView::Delay { milliseconds: 2000 },
        ActionView::Delay { milliseconds: 2000 },
    ]
}

/// Shows the startup sequence around the splash image `splash`.
pub fn print_page(hw: &mut Vec<Action>, splash: &[u8])
    ensures
        final(hw).deep_view() == old(hw).deep_view() + print_page_actions(splash@),
{
    proof {
        reveal_strlit("Tsp Designs");
        reveal_strlit("Powered by");
        reveal_strlit("RUST");
        vstd::string::is_ascii_spec_bytes("Tsp Designs");
        vstd::string::is_ascii_spec_bytes("Powered by");
        vstd::string::is_ascii_spec_bytes("RUST");
    }
    // Show the startup sequence
    lcd_api::fill_background(hw, Color::White);
    lcd_api::set_backlight(hw, BacklightBrightness::Brightness4);
    font::write_text(hw, "Tsp Designs", 174, 231, Color::Navy, Color::White, 1);
    lcd_api::write_splash(hw, splash);
    font::write_text(hw, "Powered by", 60, 179, Color::Rust, Color::White, 2);
    font::write_text(hw, "RUST", 85, 200, Color::Rust, Color::White, 3);
    timer::delay(hw, 2000);
    timer::delay(hw, 2000);
    assert(hw.deep_view() =~= old(hw).deep_view() + print_page_actions(splash@));
}

} // verus!
