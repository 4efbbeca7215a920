//! The notifications page. It shows nothing yet. Its event handler takes
//! the touch and button events, and has nothing to do for them but to
//! lower their flags.

use vstd::prelude::*;
use crate::app::info::{DeviceInfo, DeviceInfoChangeFlags};

verus! {

/// The device state after the page has taken its events: the flags of
/// the touch event and of the button, which the page looks at, are
/// lowered, and nothing else changes.
pub open spec fn seen(d: DeviceInfo) -> DeviceInfo {
    DeviceInfo {
        change_flags: DeviceInfoChangeFlags {
            touch_event: false,
            button_press: false,
            ..d.change_flags
        },
        ..d
    }
}

/// Takes the events of the page: a touch event and a press or release of
/// the button. The page does nothing for either yet; having looked at
/// their flags it lowers them.
pub fn event_handler(d: &mut DeviceInfo)
    ensures
        *final(d) == seen(*old(d)),
{
    if d.change_flags.touch_event {
        d.change_flags.touch_event = false;
    }
    if d.change_flags.button_press {
        d.change_flags.button_press = false;
    }
}

pub fn print_page() {
}

pub fn start_page() {
}

pub fn task_handler() {
}

} // verus!
