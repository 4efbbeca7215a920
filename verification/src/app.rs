//! Application layer: the device state, the pages, and the decision to
//! sleep.

use vstd::prelude::*;
use crate::app::info::{DeviceInfo, DeviceInfoChangeFlags};
use crate::app::page::home::Home;
use crate::app::page::{change_page, stage, AppPage, Stage};
use crate::drivers;
use crate::drivers::clock::{Clock, Time};
use crate::drivers::log::Log;
use crate::drivers::DriversState;
use crate::mcu;
use crate::mcu::rtc::Rtc;
use crate::mcu::timer::Timer;
use crate::mcu::{Action, McuState};

pub mod app;
pub mod display;
pub mod info;
pub mod page;

verus! {

#[derive(Clone, Copy, Debug, PartialEq, Eq, Structural)]
pub enum DisplayState {
    Off,
    Dim,
    On,
}

/// The stage with the flag of the display state lowered.
pub open spec fn cleared(s: Stage) -> Stage {
    Stage {
        d: DeviceInfo {
            change_flags: DeviceInfoChangeFlags { display_state: false, ..s.d.change_flags },
            ..s.d
        },
        ..s
    }
}

/// Lowers the flag of the display state, which the application itself
/// reacts to.
pub fn clear_flags(d: &mut DeviceInfo)
    ensures
        *final(d) == (DeviceInfo {
            change_flags: DeviceInfoChangeFlags { display_state: false, ..old(d).change_flags },
            ..*old(d)
        }),
{
    if d.change_flags.display_state {
        d.change_flags.display_state = false;
    }
}

/// Whether any change flag is raised.
pub open spec fn unhandled(flags: DeviceInfoChangeFlags) -> bool {
    flags.app_page || flags.battery_voltage || flags.button_press || flags.charger_state
        || flags.display_state || flags.time_change || flags.touch_event
}

pub fn get_unhandled_flags(flags: &DeviceInfoChangeFlags) -> (any: bool)
    ensures
        any == unhandled(*flags),
{
    if flags.app_page || flags.battery_voltage || flags.button_press || flags.charger_state
        || flags.display_state || flags.time_change || flags.touch_event {
        true
    } else {
        false
    }
}

/// Whether the device has work to do: a change flag is raised, or a
/// peripheral is in the middle of an operation.
pub open spec fn busy(d: DeviceInfo, timer: Timer) -> bool {
    unhandled(d.change_flags) || timer.running
}

/// Whether the device may not sleep yet.
pub fn get_busy(d: &DeviceInfo, timer: &Timer) -> (is_busy: bool)
    ensures
        is_busy == busy(*d, *timer),
{
    // Check if ready to sleep:
    //  - Unhandled DeviceInfo changes
    //  - Driver events that need processing
    //  - MCU events that need processing
    if get_unhandled_flags(&d.change_flags) {
        return true;
    }
    match drivers::get_busy() {
        DriversState::Idle => {},
        _ => {
            return true;
        },
    }
    match mcu::get_busy(timer) {
        McuState::Idle => {},
        _ => {
            return true;
        },
    }
    false
}

/// The page after the application's turn at time `rtc`.
pub open spec fn turned_home(home: Home, d: DeviceInfo, rtc: Rtc) -> Home {
    if d.app_page == AppPage::Home {
        page::home::turned_home(home, cleared_info(d), rtc)
    } else {
        home
    }
}

/// The device state with the flag of the display state lowered.
pub open spec fn cleared_info(d: DeviceInfo) -> DeviceInfo {
    DeviceInfo {
        change_flags: DeviceInfoChangeFlags { display_state: false, ..d.change_flags },
        ..d
    }
}

/// The stage after the application's turn at time `rtc`: the flag of the
/// display state is lowered, and the open page takes its turn. The
/// startup page shows its sequence around `splash` and opens the home
/// page.
pub open spec fn turned(
    home: Home,
    s: Stage,
    rtc: Rtc,
    time: Time,
    splash: Seq<u8>,
    is_military_time: bool,
) -> Stage {
    match s.d.app_page {
        AppPage::Home => page::home::turned(home, cleared(s), rtc, time, is_military_time),
        AppPage::Log => page::log::turned(cleared(s), time, is_military_time),
        AppPage::Notifications => cleared(s),
        AppPage::Settings => page::settings::turned(cleared(s), time, is_military_time),
        AppPage::Startup => cleared(s).plus(page::startup::print_page_actions(splash)).on_page(
            AppPage::Home,
        ).page_changed(time, is_military_time),
    }
}

/// The application's turn. Returns whether the device may sleep until
/// the next interrupt: no change flag is left raised and no peripheral
/// is busy.
pub fn task_handler(
    home: &mut Home,
    d: &mut DeviceInfo,
    clock: &mut Clock,
    log: &mut Log,
    rtc: &Rtc,
    timer: &Timer,
    hw: &mut Vec<Action>,
    splash: &[u8],
    is_military_time: bool,
) -> (sleep: bool)
    requires
        old(clock).wf(),
        old(log).wf(),
    ensures
        final(clock).wf(),
        final(log).wf(),
        final(clock).time == old(clock).time,
        final(clock).last_timestamp == old(clock).last_timestamp,
        *final(home) == turned_home(*old(home), *old(d), *rtc),
        stage(*final(d), *final(clock), *final(log), *final(hw)) == turned(
            *old(home),
            stage(*old(d), *old(clock), *old(log), *old(hw)),
            *rtc,
            old(clock).time,
            splash@,
            is_military_time,
        ),
        sleep == !busy(*final(d), *timer),
{
    // First, clear all previously set flags
    clear_flags(d);
    assert(stage(*d, *clock, *log, *hw) =~~= cleared(stage(*old(d), *old(clock), *old(log), *old(hw))));

    // Call the task handler for the current page
    match d.app_page {
        AppPage::Home => page::home::task_handler(home, d, clock, log, rtc, hw, is_military_time),
        AppPage::Log => page::log::task_handler(d, clock, log, hw, is_military_time),
        AppPage::Notifications => page::notifications::task_handler(),
        AppPage::Settings => page::settings::task_handler(d, clock, log, hw, is_military_time),
        AppPage::Startup => {
            page::startup::print_page(hw, splash);
            d.app_page = AppPage::Home;
            change_page(d, clock, log, hw, is_military_time);
        },
    }

    // If nothing is busy, sleep
    !get_busy(d, timer)
}

/// The application only ever lowers flags. Whatever page is open and
/// whatever the turn draws, no flag is raised after the application's
/// turn that was not raised before it, and the flag of the display
/// state, which the application itself reacts to, is lowered; in
/// particular a turn that begins with every flag lowered ends with every
/// flag lowered.
pub proof fn law_application_lowers_flags(
    home: Home,
    s: Stage,
    rtc: Rtc,
    time: Time,
    splash: Seq<u8>,
    is_military_time: bool,
)
    ensures
        turned(home, s, rtc, time, splash, is_military_time).d.change_flags.none_raised(
            s.d.change_flags,
        ),
        !turned(home, s, rtc, time, splash, is_military_time).d.change_flags.display_state,
        !unhandled(s.d.change_flags) ==> !unhandled(
            turned(home, s, rtc, time, splash, is_military_time).d.change_flags,
        ),
{
    match s.d.app_page {
        AppPage::Home => page::home::lemma_turn_lowers_flags(
            home,
            cleared(s),
            rtc,
            time,
            is_military_time,
        ),
        AppPage::Log => page::log::lemma_turn_lowers_flags(cleared(s), time, is_military_time),
        AppPage::Notifications => {},
        AppPage::Settings => page::settings::lemma_turn_lowers_flags(
            cleared(s),
            time,
            is_military_time,
        ),
        AppPage::Startup => {},
    }
}

/// The device may sleep exactly when nothing is pending: with every
/// flag lowered and the timer stopped it is not busy, and a single
/// raised flag, whichever it is, makes it busy.
pub proof fn law_idle(d: DeviceInfo, timer: Timer)
    ensures
        !unhandled(d.change_flags) && !timer.running ==> !busy(d, timer),
        d.change_flags.app_page ==> busy(d, timer),
        d.change_flags.battery_voltage ==> busy(d, timer),
        d.change_flags.button_press ==> busy(d, timer),
        d.change_flags.charger_state ==> busy(d, timer),
        d.change_flags.display_state ==> busy(d, timer),
        d.change_flags.time_change ==> busy(d, timer),
        d.change_flags.touch_event ==> busy(d, timer),
        timer.running ==> busy(d, timer),
{
}

} // verus!
