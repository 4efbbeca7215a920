//! The log page. The log draws itself in its own turn; the page makes it
//! draw everything when it opens, and closes on a slide down.

use vstd::prelude::*;
use crate::app::info::{DeviceInfo, DeviceInfoChangeFlags};
use crate::app::page::{change_page, stage, AppPage, Stage};
use crate::drivers::clock::{Clock, Time};
use crate::drivers::log;
use crate::drivers::log::Log;
use crate::drivers::touch::Gesture;
use crate::mcu::Action;

verus! {

/// Opens the page: every line of the log in use is marked stale, so that
/// the log draws it in its next turn.
pub fn start_page(log: &mut Log)
    requires
        old(log).wf(),
    ensures
        final(log).wf(),
        final(log)@ == old(log)@.marked(old(log)@.lines_active, true),
{
    log::make_stale(log);
}

/// The stage after a turn of the page: a touch event has been reacted
/// to and its flag lowered; a slide down opens the home page.
pub open spec fn turned(s: Stage, time: Time, is_military_time: bool) -> Stage {
    if s.d.change_flags.touch_event {
        let seen = Stage {
            d: DeviceInfo {
                change_flags: DeviceInfoChangeFlags { touch_event: false, ..s.d.change_flags },
                ..s.d
            },
            ..s
        };
        if s.d.touch.gesture == Gesture::SlideDown {
            seen.on_page(AppPage::Home).page_changed(time, is_military_time)
        } else {
            seen
        }
    } else {
        s
    }
}

/// One turn of the page.
pub fn task_handler(
    d: &mut DeviceInfo,
    clock: &mut Clock,
    log: &mut Log,
    hw: &mut Vec<Action>,
    is_military_time: bool,
)
    requires
        old(clock).wf(),
        old(log).wf(),
    ensures
        final(clock).wf(),
        final(log).wf(),
        final(clock).time == old(clock).time,
        final(clock).last_timestamp == old(clock).last_timestamp,
        stage(*final(d), *final(clock), *final(log), *final(hw)) == turned(
            stage(*old(d), *old(clock), *old(log), *old(hw)),
            old(clock).time,
            is_military_time,
        ),
{
    if d.change_flags.touch_event {
        d.change_flags.touch_event = false;
        if let Gesture::SlideDown = d.touch.gesture {
            d.app_page = AppPage::Home;
            change_page(d, clock, log, hw, is_military_time);
        }
    }
}

/// A turn of the page raises no flag.
pub proof fn lemma_turn_lowers_flags(s: Stage, time: Time, is_military_time: bool)
    ensures
        turned(s, time, is_military_time).d.change_flags.none_raised(s.d.change_flags),
{
}

} // verus!
