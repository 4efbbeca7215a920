//! The battery indicator of the home page.

use vstd::prelude::*;
use crate::app::info::{DeviceInfo, DeviceInfoChangeFlags};
use crate::app::page::AppPage;
use crate::app::DisplayState;
use crate::drivers::lcd::font;
use crate::drivers::lcd::lcd_api;
use crate::drivers::lcd::lcd_api::Color;
use crate::mcu::{Action, ActionView};

verus! {

/// Where the indicator stands and how it is coloured.
#[derive(Clone, Copy, Debug, PartialEq, Eq, Structural)]
pub struct BatteryIcon {
    pub x: u16,
    pub y: u16,
    pub outline_color: Color,
    pub charger_color: Color,
    pub fill_color: Color,
}

/// A `width` by `height` rectangle of the indicator, `dx` right of and
/// `dy` below its corner.
pub open spec fn part(icon: BatteryIcon, dx: int, width: u16, dy: int, height: u16, color: Color) -> Seq<
    ActionView,
> {
    lcd_api::fill_rectangle_actions((icon.x + dx) as u16, width, (icon.y + dy) as u16, height, color)
}

/// The colour of what shows the charger: its own while charging, else
/// `idle`.
pub open spec fn charging_color(icon: BatteryIcon, charging: bool, idle: Color) -> Color {
    if charging {
        icon.charger_color
    } else {
        idle
    }
}

/// The first `count` blocks of the level.
pub open spec fn blocks_actions(icon: BatteryIcon, count: nat) -> Seq<ActionView>
    decreases count,
{
    if count == 0 {
        Seq::empty()
    } else {
        blocks_actions(icon, (count - 1) as nat) + part(
            icon,
            10 + (count - 1) * 6,
            5,
            3,
            9,
            icon.outline_color,
        )
    }
}

/// The character in place `place` of the voltage: hundreds, a mark,
/// tens, units.
pub open spec fn voltage_character(voltage: u16, place: int) -> char {
    if place == 0 {
        (0x30 + (voltage / 100) % 10) as u8 as char
    } else if place == 1 {
        0x5Eu8 as char
    } else if place == 2 {
        (0x30 + (voltage / 10) % 10) as u8 as char
    } else {
        (0x30 + voltage % 10) as u8 as char
    }
}

/// The first `count` characters of the voltage.
pub open spec fn voltage_actions(icon: BatteryIcon, voltage: u16, charging: bool, count: nat) -> Seq<
    ActionView,
>
    decreases count,
{
    if count == 0 {
        Seq::empty()
    } else {
        voltage_actions(icon, voltage, charging, (count - 1) as nat)
            + font::write_minimal_character_actions(
            voltage_character(voltage, count - 1),
            (icon.x + 8 + (count - 1) * 6) as u16,
            (icon.y + 16) as u16,
            charging_color(icon, charging, icon.outline_color),
            icon.fill_color,
            1,
        )
    }
}

/// The charger mark beside the battery, then the battery's terminal.
pub open spec fn charger_actions(icon: BatteryIcon, charging: bool) -> Seq<ActionView> {
    part(icon, 0, 7, 0, 15, charging_color(icon, charging, icon.fill_color)) + (if charging {
        part(icon, 0, 4, 0, 6, icon.fill_color) + part(icon, 2, 2, 9, 6, icon.fill_color)
    } else {
        Seq::empty()
    }) + part(icon, 5, 2, 3, 9, icon.outline_color)
}

/// The indicator: the battery's outline and inside, one block for each
/// level, the voltage below, and the charger mark.
pub open spec fn write_battery_level_actions(icon: BatteryIcon, level: u8, voltage: u16, charging: bool) -> Seq<
    ActionView,
> {
    part(icon, 7, 29, 0, 15, icon.outline_color) + part(
        icon,
        9,
        25,
        2,
        11,
        charging_color(icon, charging, icon.fill_color),
    ) + blocks_actions(icon, level as nat) + voltage_actions(icon, voltage, charging, 4)
        + charger_actions(icon, charging)
}

/// Whether every window of the indicator can be named by 16-bit
/// coordinates.
pub open spec fn icon_fits(icon: BatteryIcon, level: u8) -> bool {
    &&& icon.x + 36 <= u16::MAX
    &&& icon.x + 15 + level * 6 <= u16::MAX
    &&& icon.y + 24 <= u16::MAX
}

fn write_blocks(hw: &mut Vec<Action>, icon: &BatteryIcon, level: u8)
    requires
        icon_fits(*icon, level),
    ensures
        final(hw).deep_view() == old(hw).deep_view() + blocks_actions(*icon, level as nat),
{
    // Print out battery level blocks
    let mut l: u8 = 0;
    assert(hw.deep_view() =~= old(hw).deep_view() + blocks_actions(*icon, 0));
    while l < level
        invariant
            l <= level,
            icon_fits(*icon, level),
            hw.deep_view() == old(hw).deep_view() + blocks_actions(*icon, l as nat),
        decreases level - l,
    {
        let x: u16 = icon.x + 10 + (l as u16 * 6);
        lcd_api::fill_rectangle(hw, x, 5, icon.y + 3, 9, icon.outline_color);
        l += 1;
        assert(hw.deep_view() =~= old(hw).deep_view() + blocks_actions(*icon, l as nat));
    }
}

fn write_voltage(hw: &mut Vec<Action>, icon: &BatteryIcon, voltage: u16, charging: bool)
    requires
        icon_fits(*icon, 0),
    ensures
        final(hw).deep_view() == old(hw).deep_view() + voltage_actions(*icon, voltage, charging, 4),
{
    // Write out the voltage value
    let mut divider: u16 = 1000;
    let color = if charging {
        icon.charger_color
    } else {
        icon.outline_color
    };
    let mut d: u8 = 0;
    assert(hw.deep_view() =~= old(hw).deep_view() + voltage_actions(*icon, voltage, charging, 0));
    while d < 4
        invariant
            d <= 4,
            icon_fits(*icon, 0),
            color == charging_color(*icon, charging, icon.outline_color),
            divider == if d == 0 {
                1000u16
            } else if d <= 2 {
                100u16
            } else if d == 3 {
                10u16
            } else {
                1u16
            },
            hw.deep_view() == old(hw).deep_view() + voltage_actions(*icon, voltage, charging, d as nat),
        decreases 4 - d,
    {
        let v: u8 = if d == 1 {
            0x2E
        } else {
            divider = divider / 10;
            ((voltage / divider) % 10) as u8
        };
        let x: u16 = icon.x + 8 + (d as u16 * 6);
        assert((0x30 + v) as u8 as char == voltage_character(voltage, d as int));
        font::write_minimal_character(hw, (0x30 + v) as char, x, icon.y + 16, color, icon.fill_color, 1);
        d += 1;
        assert(hw.deep_view() =~= old(hw).deep_view() + voltage_actions(
            *icon,
            voltage,
            charging,
            d as nat,
        ));
    }
}

fn write_charger(hw: &mut Vec<Action>, icon: &BatteryIcon, charging: bool)
    requires
        icon_fits(*icon, 0),
    ensures
        final(hw).deep_view() == old(hw).deep_view() + charger_actions(*icon, charging),
{
    // Print (or remove) the charger status icon
    let color = if charging {
        icon.charger_color
    } else {
        icon.fill_color
    };
    lcd_api::fill_rectangle(hw, icon.x, 7, icon.y, 15, color);
    if charging {
        lcd_api::fill_rectangle(hw, icon.x, 4, icon.y, 6, icon.fill_color);
        lcd_api::fill_rectangle(hw, icon.x + 2, 2, icon.y + 9, 6, icon.fill_color);
    }
    lcd_api::fill_rectangle(hw, icon.x + 5, 2, icon.y + 3, 9, icon.outline_color);
    assert(hw.deep_view() =~= old(hw).deep_view() + charger_actions(*icon, charging));
}

/// Draws the battery indicator `icon` for a battery at `level` and
/// `voltage`.
pub fn write_battery_level(hw: &mut Vec<Action>, icon: &BatteryIcon, level: u8, voltage: u16, charging: bool)
    requires
        icon_fits(*icon, level),
    ensures
        final(hw).deep_view() == old(hw).deep_view() + write_battery_level_actions(
            *icon,
            level,
            voltage,
            charging,
        ),
{
    // Draw outline
    lcd_api::fill_rectangle(hw, icon.x + 7, 29, icon.y, 15, icon.outline_color);

    // Fill in the middle of the battery
    let color = if charging {
        icon.charger_color
    } else {
        icon.fill_color
    };
    lcd_api::fill_rectangle(hw, icon.x + 9, 25, icon.y + 2, 11, color);

    write_blocks(hw, icon, level);
    write_voltage(hw, icon, voltage, charging);
    write_charger(hw, icon, charging);
    assert(hw.deep_view() =~= old(hw).deep_view() + write_battery_level_actions(
        *icon,
        level,
        voltage,
        charging,
    ));
}

/// Whether a turn draws the indicator: the battery or the charger has
/// changed while the display is on and the home page is open.
pub open spec fn draws(d: DeviceInfo) -> bool {
    &&& d.change_flags.battery_voltage || d.change_flags.charger_state
    &&& d.display_state == DisplayState::On
    &&& d.app_page == AppPage::Home
}

/// The device state after a turn: the flag of the display state is
/// lowered, and so are the flags of the battery and the charger if the
/// indicator was drawn for them.
pub open spec fn seen(d: DeviceInfo) -> DeviceInfo {
    DeviceInfo {
        change_flags: DeviceInfoChangeFlags {
            display_state: false,
            battery_voltage: d.change_flags.battery_voltage && !draws(d),
            charger_state: d.change_flags.charger_state && !draws(d),
            ..d.change_flags
        },
        ..d
    }
}

/// What a turn draws: the indicator, if it is drawn at all.
pub open spec fn task_handler_actions(d: DeviceInfo, icon: BatteryIcon) -> Seq<ActionView> {
    if draws(d) {
        write_battery_level_actions(
            icon,
            d.battery_level.spec_level(),
            d.battery_voltage,
            d.flags.charger_connected,
        )
    } else {
        Seq::empty()
    }
}

/// One turn of the display: draws the indicator `icon` again when the
/// battery or the charger has changed, if the display is on and the
/// home page is open.
pub fn task_handler(d: &mut DeviceInfo, hw: &mut Vec<Action>, icon: &BatteryIcon)
    requires
        icon_fits(*icon, 4),
    ensures
        *final(d) == seen(*old(d)),
        final(hw).deep_view() == old(hw).deep_view() + task_handler_actions(*old(d), *icon),
{
    // If any pending flags, clear them now
    if d.change_flags.display_state {
        d.change_flags.display_state = false;
    }
    // Update display for all newly changes flags
    if d.change_flags.battery_voltage || d.change_flags.charger_state {
        // Only update battery voltage when display is on and on home page
        if let DisplayState::On = d.display_state {
            if let AppPage::Home = d.app_page {
                write_battery_level(
                    hw,
                    icon,
                    d.battery_level.level(),
                    d.battery_voltage,
                    d.flags.charger_connected,
                );
                d.change_flags.battery_voltage = false;
                d.change_flags.charger_state = false;
                return ;
            }
        }
    }
    assert(hw.deep_view() =~= old(hw).deep_view() + Seq::<ActionView>::empty());
}

} // verus!
