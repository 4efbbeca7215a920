//! The settings page. It shows the battery, and closes on a slide up or
//! when the button is released.

use vstd::prelude::*;
use vstd::string::StringSliceAdditionalSpecFns;
use crate::app::info::{DeviceInfo, DeviceInfoChangeFlags};
use crate::app::page::{change_page, stage, AppPage, Stage};
use crate::drivers::clock::{Clock, Time};
use crate::drivers::lcd::font;
use crate::drivers::lcd::lcd_api;
use crate::drivers::lcd::lcd_api::Color;
use crate::drivers::log::Log;
use crate::drivers::touch::Gesture;
use crate::mcu::{Action, ActionView};

verus! {

/// Left and top edge of the battery icon.
pub const BATTERY_X: u16 = 10;

pub const BATTERY_Y: u16 = 40;

/// A `width` by `height` rectangle of the icon, `dx` right of and `dy`
/// below its corner (`x`, `y`).
pub open spec fn part(x: u16, y: u16, dx: u16, width: u16, dy: u16, height: u16, color: Color) -> Seq<
    ActionView,
> {
    lcd_api::fill_rectangle_actions((x + dx) as u16, width, (y + dy) as u16, height, color)
}

/// The colour of the outline: red when the battery is empty.
pub open spec fn outline_color(d: DeviceInfo) -> Color {
    if d.battery_level.spec_level() == 0 {
        Color::Red
    } else {
        Color::White
    }
}

/// The colour of what stands out: green while charging.
pub open spec fn accent_color(d: DeviceInfo) -> Color {
    if d.flags.charger_connected {
        Color::Green
    } else {
        Color::White
    }
}

/// The colour inside the battery: green while charging.
pub open spec fn fill_color(d: DeviceInfo) -> Color {
    if d.flags.charger_connected {
        Color::Green
    } else {
        Color::Black
    }
}

/// The body of the battery: its four sides.
pub open spec fn body_actions(x: u16, y: u16, d: DeviceInfo) -> Seq<ActionView> {
    part(x, y, 12, 48, 0, 5, outline_color(d)) + part(x, y, 12, 5, 5, 24, outline_color(d)) + part(
        x,
        y,
        55,
        5,
        5,
        24,
        outline_color(d),
    ) + part(x, y, 12, 48, 29, 5, outline_color(d))
}

/// The plug beside the battery: drawn while charging, erased otherwise;
/// then the battery's terminal.
pub open spec fn plug_actions(x: u16, y: u16, d: DeviceInfo) -> Seq<ActionView> {
    (if d.flags.charger_connected {
        part(x, y, 0, 4, 12, 10, Color::Green) + part(x, y, 4, 8, 2, 30, Color::Green)
    } else {
        part(x, y, 4, 8, 2, 4, Color::Black) + part(x, y, 0, 8, 6, 22, Color::Black) + part(
            x,
            y,
            4,
            8,
            28,
            4,
            Color::Black,
        )
    }) + part(x, y, 8, 4, 6, 22, outline_color(d)) + part(x, y, 17, 38, 5, 24, fill_color(d))
}

/// The first `count` bars inside the battery.
pub open spec fn bars_actions(x: u16, y: u16, d: DeviceInfo, count: nat) -> Seq<ActionView>
    decreases count,
{
    if count == 0 {
        Seq::empty()
    } else {
        bars_actions(x, y, d, (count - 1) as nat) + part(
            x,
            y,
            (19 + (count - 1) * 9) as u16,
            7,
            7,
            20,
            outline_color(d),
        )
    }
}

/// The number of bars: one less than the battery level.
pub open spec fn bar_count(d: DeviceInfo) -> nat {
    if d.battery_level.spec_level() > 0 {
        (d.battery_level.spec_level() - 1) as nat
    } else {
        0
    }
}

/// The voltage as text: hundreds, a point, tens, units, and a `v`.
pub open spec fn voltage_text(voltage: u16) -> Seq<u8> {
    seq![
        (0x30 + (voltage / 100) % 10) as u8,
        0x2Eu8,
        (0x30 + (voltage / 10) % 10) as u8,
        (0x30 + voltage % 10) as u8,
        0x76u8,
    ]
}

/// The battery icon with its corner at (`x`, `y`).
pub open spec fn write_battery_icon_actions(x: u16, y: u16, d: DeviceInfo) -> Seq<ActionView> {
    body_actions(x, y, d) + plug_actions(x, y, d) + bars_actions(x, y, d, bar_count(d))
        + font::write_minimal_line_actions(
        voltage_text(d.battery_voltage),
        5,
        (x + 5) as u16,
        (y + 36) as u16,
        accent_color(d),
        Color::Black,
        2,
    )
}

/// What the page draws when it opens: its title and its icons.
pub open spec fn start_page_actions(d: DeviceInfo) -> Seq<ActionView> {
    font::write_text_actions("Settings", 56, 3, Color::White, Color::Black, 3)
        + write_battery_icon_actions(BATTERY_X, BATTERY_Y, d)
}

/// Opens the page: draws its title and its icons.
pub fn start_page(d: &DeviceInfo, hw: &mut Vec<Action>)
    ensures
        final(hw).deep_view() == old(hw).deep_view() + start_page_actions(*d),
{
    proof {
        reveal_strlit("Settings");
        vstd::string::is_ascii_spec_bytes("Settings");
    }
    font::write_text(hw, "Settings", 56, 3, Color::White, Color::Black, 3);
    write_all_icons(d, hw);
    assert(hw.deep_view() =~= old(hw).deep_view() + start_page_actions(*d));
}

/// Draws every icon of the page.
pub fn write_all_icons(d: &DeviceInfo, hw: &mut Vec<Action>)
    ensures
        final(hw).deep_view() == old(hw).deep_view() + write_battery_icon_actions(
            BATTERY_X,
            BATTERY_Y,
            *d,
        ),
{
    write_battery_icon(hw, BATTERY_X, BATTERY_Y, d);
}

fn write_body(hw: &mut Vec<Action>, x: u16, y: u16, d: &DeviceInfo, outline: Color)
    requires
        x <= 100,
        y <= 100,
        outline == outline_color(*d),
    ensures
        final(hw).deep_view() == old(hw).deep_view() + body_actions(x, y, *d),
{
    lcd_api::fill_rectangle(hw, x + 12, 48, y, 5, outline);
    lcd_api::fill_rectangle(hw, x + 12, 5, y + 5, 24, outline);
    lcd_api::fill_rectangle(hw, x + 55, 5, y + 5, 24, outline);
    lcd_api::fill_rectangle(hw, x + 12, 48, y + 29, 5, outline);
    assert(hw.deep_view() =~= old(hw).deep_view() + body_actions(x, y, *d));
}

fn write_plug(hw: &mut Vec<Action>, x: u16, y: u16, d: &DeviceInfo, outline: Color, fill: Color)
    requires
        x <= 100,
        y <= 100,
        outline == outline_color(*d),
        fill == fill_color(*d),
    ensures
        final(hw).deep_view() == old(hw).deep_view() + plug_actions(x, y, *d),
{
    if d.flags.charger_connected {
        lcd_api::fill_rectangle(hw, x, 4, y + 12, 10, Color::Green);
        lcd_api::fill_rectangle(hw, x + 4, 8, y + 2, 30, Color::Green);
    } else {
        lcd_api::fill_rectangle(hw, x + 4, 8, y + 2, 4, Color::Black);
        lcd_api::fill_rectangle(hw, x, 8, y + 6, 22, Color::Black);
        lcd_api::fill_rectangle(hw, x + 4, 8, y + 28, 4, Color::Black);
    }
    lcd_api::fill_rectangle(hw, x + 8, 4, y + 6, 22, outline);

    // Fill battery
    lcd_api::fill_rectangle(hw, x + 17, 38, y + 5, 24, fill);
    assert(hw.deep_view() =~= old(hw).deep_view() + plug_actions(x, y, *d));
}

fn write_bars(hw: &mut Vec<Action>, x: u16, y: u16, d: &DeviceInfo, outline: Color)
    requires
        x <= 100,
        y <= 100,
        outline == outline_color(*d),
    ensures
        final(hw).deep_view() == old(hw).deep_view() + bars_actions(x, y, *d, bar_count(*d)),
{
    let level: u8 = d.battery_level.level();
    // Print out battery level blocks
    assert(hw.deep_view() =~= old(hw).deep_view() + bars_actions(x, y, *d, 0));
    if level > 0 {
        let mut lev: u8 = 0;
        while lev < level - 1
            invariant
                x <= 100,
                y <= 100,
                1 <= level <= 4,
                lev <= level - 1,
                outline == outline_color(*d),
                hw.deep_view() == old(hw).deep_view() + bars_actions(x, y, *d, lev as nat),
            decreases level - 1 - lev,
        {
            lcd_api::fill_rectangle(hw, x + 19 + (lev as u16 * 9), 7, y + 7, 20, outline);
            lev += 1;
            assert(hw.deep_view() =~= old(hw).deep_view() + bars_actions(x, y, *d, lev as nat));
        }
    }
}

fn write_battery_icon(hw: &mut Vec<Action>, x: u16, y: u16, d: &DeviceInfo)
    requires
        x <= 100,
        y <= 100,
    ensures
        final(hw).deep_view() == old(hw).deep_view() + write_battery_icon_actions(x, y, *d),
{
    let level: u8 = d.battery_level.level();
    let voltage: u16 = d.battery_voltage;
    let charging: bool = d.flags.charger_connected;

    let outline = if level == 0 {
        Color::Red
    } else {
        Color::White
    };
    let fill = if charging {
        Color::Green
    } else {
        Color::Black
    };

    // Draw outline
    write_body(hw, x, y, d, outline);
    write_plug(hw, x, y, d, outline, fill);
    write_bars(hw, x, y, d, outline);

    // Write out the voltage value
    let outline = if charging {
        Color::Green
    } else {
        Color::White
    };
    let string: [u8; 5] = [
        (0x30 + (voltage / 100) % 10) as u8,
        0x2E,
        (0x30 + (voltage / 10) % 10) as u8,
        (0x30 + (voltage % 10)) as u8,
        0x76,
    ];
    assert(string@ =~= voltage_text(voltage));
    font::write_minimal_line(hw, &string, x + 5, y + 36, outline, Color::Black, 2);
    assert(hw.deep_view() =~= old(hw).deep_view() + write_battery_icon_actions(x, y, *d));
}

/// The device state with the flags `touch`, `button` and `battery`
/// lowered where asked.
pub open spec fn seen(s: Stage, touch: bool, button: bool, battery: bool) -> Stage {
    Stage {
        d: DeviceInfo {
            change_flags: DeviceInfoChangeFlags {
                touch_event: s.d.change_flags.touch_event && !touch,
                button_press: s.d.change_flags.button_press && !button,
                battery_voltage: s.d.change_flags.battery_voltage && !battery,
                charger_state: s.d.change_flags.charger_state && !battery,
                ..s.d.change_flags
            },
            ..s.d
        },
        ..s
    }
}

/// The stage after a turn of the page. A slide up closes the page, and
/// so does a release of the button: the home page opens, and the turn
/// ends. Otherwise a new battery voltage or charger state draws the
/// battery icon again. Each flag that the turn got to is lowered.
pub open spec fn turned(s: Stage, time: Time, is_military_time: bool) -> Stage {
    if s.d.change_flags.touch_event && s.d.touch.gesture == Gesture::SlideUp {
        seen(s, true, false, false).on_page(AppPage::Home).page_changed(time, is_military_time)
    } else if s.d.change_flags.button_press && !s.d.flags.button_pressed {
        seen(s, true, true, false).on_page(AppPage::Home).page_changed(time, is_military_time)
    } else if s.d.change_flags.battery_voltage || s.d.change_flags.charger_state {
        seen(s, true, true, true).plus(
            write_battery_icon_actions(BATTERY_X, BATTERY_Y, seen(s, true, true, true).d),
        )
    } else {
        seen(s, true, true, true)
    }
}

/// One turn of the page.
pub fn task_handler(
    d: &mut DeviceInfo,
    clock: &mut Clock,
    log: &mut Log,
    hw: &mut Vec<Action>,
    is_military_time: bool,
)
    requires
        old(clock).wf(),
        old(log).wf(),
    ensures
        final(clock).wf(),
        final(log).wf(),
        final(clock).time == old(clock).time,
        final(clock).last_timestamp == old(clock).last_timestamp,
        stage(*final(d), *final(clock), *final(log), *final(hw)) == turned(
            stage(*old(d), *old(clock), *old(log), *old(hw)),
            old(clock).time,
            is_military_time,
        ),
{
    let ghost before = stage(*d, *clock, *log, *hw);
    // Only change on swipe up - to close settings pulldown
    if d.change_flags.touch_event {
        d.change_flags.touch_event = false;
        if let Gesture::SlideUp = d.touch.gesture {
            d.app_page = AppPage::Home;
            change_page(d, clock, log, hw, is_military_time);
            return ;
        }
    }
    // Return home on button press release
    if d.change_flags.button_press {
        d.change_flags.button_press = false;
        if !d.flags.button_pressed {
            d.app_page = AppPage::Home;
            change_page(d, clock, log, hw, is_military_time);
            return ;
        }
    }
    // Update reading when it changes
    if d.change_flags.battery_voltage || d.change_flags.charger_state {
        d.change_flags.battery_voltage = false;
        d.change_flags.charger_state = false;
        write_battery_icon(hw, BATTERY_X, BATTERY_Y, d);
        assert(stage(*d, *clock, *log, *hw) =~~= turned(before, old(clock).time, is_military_time));
    } else {
        assert(stage(*d, *clock, *log, *hw) =~~= turned(before, old(clock).time, is_military_time));
    }
}

/// A turn of the page raises no flag.
pub proof fn lemma_turn_lowers_flags(s: Stage, time: Time, is_military_time: bool)
    ensures
        turned(s, time, is_military_time).d.change_flags.none_raised(s.d.change_flags),
{
}

} // verus!
