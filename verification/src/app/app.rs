//! Top level behaviour of the application where the battery indicator
//! stands on the home page: the display takes its turn, then the events
//! are routed by the page that is open. A change of page is not drawn
//! here; it is published with the page flag raised.

use vstd::prelude::*;
use crate::app::display;
use crate::app::display::BatteryIcon;
use crate::app::info::{DeviceInfo, DeviceInfoChangeFlags};
use crate::app::page::AppPage;
use crate::drivers::clock;
use crate::drivers::clock::Clock;
use crate::drivers::touch::Gesture;
use crate::mcu::{Action, ActionView};

verus! {

/// Whether the turn draws the clock face: the home page is open and the
/// time has changed.
pub open spec fn shows_time(d: DeviceInfo) -> bool {
    d.app_page == AppPage::Home && d.change_flags.time_change
}

/// Whether the turn leads to the log page: a slide up on the home page,
/// or a slide down on the log page.
pub open spec fn opens_log(d: DeviceInfo) -> bool {
    &&& d.change_flags.touch_event
    &&& d.app_page == AppPage::Home && d.touch.gesture == Gesture::SlideUp || d.app_page
        == AppPage::Log && d.touch.gesture == Gesture::SlideDown
}

/// The device state after the events have been routed. On the home page
/// the flags of the time and of the touch event are lowered, on the log
/// page that of the touch event; a slide that leads to the log page
/// publishes it with the page flag raised. The startup page publishes
/// the home page. The other pages react to nothing.
pub open spec fn routed(d: DeviceInfo) -> DeviceInfo {
    match d.app_page {
        AppPage::Home => DeviceInfo {
            change_flags: DeviceInfoChangeFlags {
                time_change: false,
                touch_event: false,
                app_page: d.change_flags.app_page || opens_log(d),
                ..d.change_flags
            },
            app_page: if opens_log(d) {
                AppPage::Log
            } else {
                AppPage::Home
            },
            ..d
        },
        AppPage::Log => DeviceInfo {
            change_flags: DeviceInfoChangeFlags {
                touch_event: false,
                app_page: d.change_flags.app_page || opens_log(d),
                ..d.change_flags
            },
            ..d
        },
        AppPage::Startup => DeviceInfo {
            change_flags: DeviceInfoChangeFlags { app_page: true, ..d.change_flags },
            app_page: AppPage::Home,
            ..d
        },
        _ => d,
    }
}

/// What the turn draws: the battery indicator if the display draws it,
/// then the whole clock face if the time has changed on the home page.
pub open spec fn task_handler_actions(
    d: DeviceInfo,
    icon: BatteryIcon,
    digits: Seq<u8>,
) -> Seq<ActionView> {
    display::task_handler_actions(d, icon) + if shows_time(d) {
        clock::write_time_actions(digits)
    } else {
        Seq::empty()
    }
}

/// One turn of the application: the display takes its turn with the
/// indicator `icon`, then the open page takes its events.
pub fn task_handler(
    d: &mut DeviceInfo,
    clock: &mut Clock,
    hw: &mut Vec<Action>,
    icon: &BatteryIcon,
    is_military_time: bool,
)
    requires
        old(clock).wf(),
        display::icon_fits(*icon, 4),
    ensures
        final(clock).wf(),
        final(clock).time == old(clock).time,
        final(clock).last_timestamp == old(clock).last_timestamp,
        final(clock).digits_on_display@ == if shows_time(*old(d)) {
            clock::shown_after(
                old(clock).digits_on_display@,
                old(clock).time.digits(is_military_time),
                true,
                4,
            )
        } else {
            old(clock).digits_on_display@
        },
        *final(d) == routed(display::seen(*old(d))),
        final(hw).deep_view() == old(hw).deep_view() + task_handler_actions(
            *old(d),
            *icon,
            old(clock).time.digits(is_military_time),
        ),
{
    // Call the needed sub task handlers
    display::task_handler(d, hw, icon);
    let ghost shown = hw.deep_view();

    // Handle all input events and route them to pages as needed
    match d.app_page {
        AppPage::Home => {
            if d.change_flags.time_change {
                clock::write_time(clock, hw, is_military_time);
                d.change_flags.time_change = false;
            }
            if d.change_flags.touch_event {
                d.change_flags.touch_event = false;
                match d.touch.gesture {
                    Gesture::SlideUp => {
                        d.app_page = AppPage::Log;
                        d.change_flags.app_page = true;
                    },
                    _ => (),
                }
            }
        },
        AppPage::Notifications => (),
        AppPage::Log => {
            if d.change_flags.touch_event {
                d.change_flags.touch_event = false;
                match d.touch.gesture {
                    Gesture::SlideDown => {
                        d.app_page = AppPage::Log;
                        d.change_flags.app_page = true;
                    },
                    _ => (),
                }
            }
        },
        AppPage::Settings => (),
        AppPage::Startup => {
            // If in startup, change to home
            d.app_page = AppPage::Home;
            d.change_flags.app_page = true;
        },
    }
    assert(hw.deep_view() =~= old(hw).deep_view() + task_handler_actions(
        *old(d),
        *icon,
        old(clock).time.digits(is_military_time),
    ));
}

} // verus!
