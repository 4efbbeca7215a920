//! The home page: the clock face, and the way to the other pages.
//!
//! A slide down opens the settings and a slide up the log. Holding the
//! button shows a warning after [`BUTTON_HELD_RESTART_WARN`] seconds and
//! restarts the device after [`BUTTON_HELD_RESTART`].

use vstd::prelude::*;
use vstd::string::StringSliceAdditionalSpecFns;
use crate::app::info::{DeviceInfo, DeviceInfoChangeFlags};
use crate::app::page::{change_page, stage, AppPage, Stage};
use crate::drivers::button;
use crate::drivers::clock;
use crate::drivers::clock::{Clock, Time};
use crate::drivers::lcd::font;
use crate::drivers::lcd::lcd_api::Color;
use crate::drivers::log::Log;
use crate::drivers::touch::Gesture;
use crate::mcu;
use crate::mcu::gpio::PinState;
use crate::mcu::rtc;
use crate::mcu::rtc::Rtc;
use crate::mcu::{Action, ActionView};

verus! {

pub const BUTTON_HELD_RESTART_WARN: u32 = 1;

pub const BUTTON_HELD_RESTART: u32 = 5;

/// What the page remembers between turns.
#[derive(Clone, Copy, Debug, PartialEq, Eq, Structural)]
pub struct Home {
    pub press_timer_running: bool,
    pub last_press_time: u32,
    pub showing_restart_warning: bool,
}

impl Home {
    /// The page before its first turn.
    pub fn new() -> (home: Home)
        ensures
            home == (Home {
                press_timer_running: false,
                last_press_time: 0,
                showing_restart_warning: false,
            }),
    {
        Home { press_timer_running: false, last_press_time: 0, showing_restart_warning: false }
    }
}

/// Opens the page: draws the whole clock face.
pub fn start_page(clock: &mut Clock, hw: &mut Vec<Action>, is_military_time: bool)
    requires
        old(clock).wf(),
    ensures
        final(clock).wf(),
        final(clock).time == old(clock).time,
        final(clock).last_timestamp == old(clock).last_timestamp,
        final(clock).digits_on_display@ == clock::shown_after(
            old(clock).digits_on_display@,
            old(clock).time.digits(is_military_time),
            true,
            4,
        ),
        final(hw).deep_view() == old(hw).deep_view() + clock::write_time_actions(
            old(clock).time.digits(is_military_time),
        ),
{
    clock::write_time(clock, hw, is_military_time);
}

/// The two lines of the restart warning.
pub open spec fn warning_actions() -> Seq<ActionView> {
    font::write_text_actions("Hold button", 20, 95, Color::White, Color::Black, 3)
        + font::write_text_actions("to restart!", 20, 119, Color::White, Color::Black, 3)
}

/// What holding the button requests when the time is `rtc` and the press
/// began at `last_press_time`: a restart, the warning, or nothing yet.
pub open spec fn held_actions(rtc: Rtc, last_press_time: u32) -> Seq<ActionView> {
    if rtc.elapsed(last_press_time) >= BUTTON_HELD_RESTART {
        seq![ActionView::Restart]
    } else if rtc.elapsed(last_press_time) >= BUTTON_HELD_RESTART_WARN {
        warning_actions()
    } else {
        Seq::empty()
    }
}

/// Whether holding the button shows the warning.
pub open spec fn warns(rtc: Rtc, last_press_time: u32) -> bool {
    BUTTON_HELD_RESTART_WARN <= rtc.elapsed(last_press_time) < BUTTON_HELD_RESTART
}

fn button_held_handler(home: &mut Home, rtc: &Rtc, hw: &mut Vec<Action>, last_press_time: u32)
    ensures
        *final(home) == (Home {
            showing_restart_warning: old(home).showing_restart_warning || warns(*rtc, last_press_time),
            ..*old(home)
        }),
        final(hw).deep_view() == old(hw).deep_view() + held_actions(*rtc, last_press_time),
{
    let time_diff = rtc::get_timediff(rtc, last_press_time);

    if time_diff >= BUTTON_HELD_RESTART {
        mcu::restart(hw);
        assert(hw.deep_view() =~= old(hw).deep_view() + held_actions(*rtc, last_press_time));
    } else if time_diff >= BUTTON_HELD_RESTART_WARN {
        home.showing_restart_warning = true;

        // Print the restart warning
        proof {
            reveal_strlit("Hold button");
            reveal_strlit("to restart!");
            vstd::string::is_ascii_spec_bytes("Hold button");
            vstd::string::is_ascii_spec_bytes("to restart!");
        }
        font::write_text(hw, "Hold button", 20, 95, Color::White, Color::Black, 3);
        font::write_text(hw, "to restart!", 20, 119, Color::White, Color::Black, 3);
        assert(hw.deep_view() =~= old(hw).deep_view() + held_actions(*rtc, last_press_time));
    } else {
        assert(hw.deep_view() =~= old(hw).deep_view() + held_actions(*rtc, last_press_time));
    }
}

/// The page after the check of a held button.
pub open spec fn held_home(home: Home, rtc: Rtc) -> Home {
    if home.press_timer_running {
        Home {
            showing_restart_warning: home.showing_restart_warning || warns(rtc, home.last_press_time),
            ..home
        }
    } else {
        home
    }
}

/// The stage after the check of a held button.
pub open spec fn held(home: Home, s: Stage, rtc: Rtc) -> Stage {
    if home.press_timer_running {
        s.plus(held_actions(rtc, home.last_press_time))
    } else {
        s
    }
}

/// The stage after the page has reacted to a new time: the digits of the
/// face that differ are drawn, and the flag is lowered.
pub open spec fn time_shown(s: Stage, time: Time, is_military_time: bool) -> Stage {
    if s.d.change_flags.time_change {
        Stage {
            d: DeviceInfo {
                change_flags: DeviceInfoChangeFlags { time_change: false, ..s.d.change_flags },
                ..s.d
            },
            face: clock::shown_after(s.face, time.digits(is_military_time), false, 4),
            ..s.plus(clock::write_digits_actions(s.face, time.digits(is_military_time), false, 4))
        }
    } else {
        s
    }
}

/// The stage after the page has reacted to a touch event: the flag is
/// lowered; a slide down opens the settings, a slide up the log.
pub open spec fn swiped(s: Stage, time: Time, is_military_time: bool) -> Stage {
    if s.d.change_flags.touch_event {
        let seen = Stage {
            d: DeviceInfo {
                change_flags: DeviceInfoChangeFlags { touch_event: false, ..s.d.change_flags },
                ..s.d
            },
            ..s
        };
        if s.d.touch.gesture == Gesture::SlideDown {
            seen.on_page(AppPage::Settings).page_changed(time, is_military_time)
        } else if s.d.touch.gesture == Gesture::SlideUp {
            seen.on_page(AppPage::Log).page_changed(time, is_military_time)
        } else {
            seen
        }
    } else {
        s
    }
}

/// The page after it has reacted to the button: a press starts the hold
/// timer at the time `rtc`; a release stops it and takes the warning
/// away.
pub open spec fn pressed_home(home: Home, d: DeviceInfo, rtc: Rtc) -> Home {
    if d.change_flags.button_press {
        if d.flags.button_pressed {
            Home { press_timer_running: true, last_press_time: rtc.seconds, ..home }
        } else {
            Home { press_timer_running: false, showing_restart_warning: false, ..home }
        }
    } else {
        home
    }
}

/// The stage after the page has reacted to the button: the flag is
/// lowered; a release while the warning shows draws the open page from
/// scratch.
pub open spec fn pressed(home: Home, s: Stage, time: Time, is_military_time: bool) -> Stage {
    if s.d.change_flags.button_press {
        let seen = Stage {
            d: DeviceInfo {
                change_flags: DeviceInfoChangeFlags { button_press: false, ..s.d.change_flags },
                ..s.d
            },
            ..s
        };
        if !s.d.flags.button_pressed && home.showing_restart_warning {
            seen.page_changed(time, is_military_time)
        } else {
            seen
        }
    } else {
        s
    }
}

/// The page after a turn at time `rtc`.
pub open spec fn turned_home(home: Home, d: DeviceInfo, rtc: Rtc) -> Home {
    pressed_home(held_home(home, rtc), d, rtc)
}

/// The stage after a turn at time `rtc`: the held button is checked,
/// then the page reacts to a new time, to a touch event and to the
/// button, in that order.
pub open spec fn turned(home: Home, s: Stage, rtc: Rtc, time: Time, is_military_time: bool) -> Stage {
    pressed(
        held_home(home, rtc),
        swiped(time_shown(held(home, s, rtc), time, is_military_time), time, is_military_time),
        time,
        is_military_time,
    )
}

fn show_time(d: &mut DeviceInfo, clock: &mut Clock, log: &Log, hw: &mut Vec<Action>, is_military_time: bool)
    requires
        old(clock).wf(),
    ensures
        final(clock).wf(),
        final(clock).time == old(clock).time,
        final(clock).last_timestamp == old(clock).last_timestamp,
        stage(*final(d), *final(clock), *log, *final(hw)) == time_shown(
            stage(*old(d), *old(clock), *log, *old(hw)),
            old(clock).time,
            is_military_time,
        ),
{
    if d.change_flags.time_change {
        clock::update_time(clock, hw, is_military_time);
        d.change_flags.time_change = false;
        assert(stage(*d, *clock, *log, *hw) =~~= time_shown(
            stage(*old(d), *old(clock), *log, *old(hw)),
            old(clock).time,
            is_military_time,
        ));
    }
}

fn swipe(d: &mut DeviceInfo, clock: &mut Clock, log: &mut Log, hw: &mut Vec<Action>, is_military_time: bool)
    requires
        old(clock).wf(),
        old(log).wf(),
    ensures
        final(clock).wf(),
        final(log).wf(),
        final(clock).time == old(clock).time,
        final(clock).last_timestamp == old(clock).last_timestamp,
        stage(*final(d), *final(clock), *final(log), *final(hw)) == swiped(
            stage(*old(d), *old(clock), *old(log), *old(hw)),
            old(clock).time,
            is_military_time,
        ),
{
    if d.change_flags.touch_event {
        d.change_flags.touch_event = false;
        match d.touch.gesture {
            Gesture::SlideDown => {
                d.app_page = AppPage::Settings;
                change_page(d, clock, log, hw, is_military_time);
            },
            Gesture::SlideUp => {
                d.app_page = AppPage::Log;
                change_page(d, clock, log, hw, is_military_time);
            },
            _ => (),
        }
    }
}

fn press(
    home: &mut Home,
    d: &mut DeviceInfo,
    clock: &mut Clock,
    log: &mut Log,
    rtc: &Rtc,
    hw: &mut Vec<Action>,
    is_military_time: bool,
)
    requires
        old(clock).wf(),
        old(log).wf(),
    ensures
        final(clock).wf(),
        final(log).wf(),
        final(clock).time == old(clock).time,
        final(clock).last_timestamp == old(clock).last_timestamp,
        *final(home) == pressed_home(*old(home), *old(d), *rtc),
        stage(*final(d), *final(clock), *final(log), *final(hw)) == pressed(
            *old(home),
            stage(*old(d), *old(clock), *old(log), *old(hw)),
            old(clock).time,
            is_military_time,
        ),
{
    if d.change_flags.button_press {
        d.change_flags.button_press = false;
        if d.flags.button_pressed {
            home.press_timer_running = true;
            home.last_press_time = rtc::get_timestamp(rtc);
        } else {
            // Clear restart prompt if button is released
            home.press_timer_running = false;

            // Pretend to change page back to home to force update all
            if home.showing_restart_warning {
                home.showing_restart_warning = false;
                change_page(d, clock, log, hw, is_military_time);
            }
        }
    }
}

/// One turn of the page.
pub fn task_handler(
    home: &mut Home,
    d: &mut DeviceInfo,
    clock: &mut Clock,
    log: &mut Log,
    rtc: &Rtc,
    hw: &mut Vec<Action>,
    is_military_time: bool,
)
    requires
        old(clock).wf(),
        old(log).wf(),
    ensures
        final(clock).wf(),
        final(log).wf(),
        final(clock).time == old(clock).time,
        final(clock).last_timestamp == old(clock).last_timestamp,
        *final(home) == turned_home(*old(home), *old(d), *rtc),
        stage(*final(d), *final(clock), *final(log), *final(hw)) == turned(
            *old(home),
            stage(*old(d), *old(clock), *old(log), *old(hw)),
            *rtc,
            old(clock).time,
            is_military_time,
        ),
{
    // First, check for button hold timeout
    if home.press_timer_running {
        let last_press_time = home.last_press_time;
        button_held_handler(home, rtc, hw, last_press_time);
    }
    assert(stage(*d, *clock, *log, *hw) =~~= held(
        *old(home),
        stage(*old(d), *old(clock), *old(log), *old(hw)),
        *rtc,
    ));
    show_time(d, clock, log, hw, is_military_time);
    swipe(d, clock, log, hw, is_military_time);
    press(home, d, clock, log, rtc, hw, is_military_time);
}

/// A turn of the page raises no flag.
pub proof fn lemma_turn_lowers_flags(home: Home, s: Stage, rtc: Rtc, time: Time, is_military_time: bool)
    ensures
        turned(home, s, rtc, time, is_military_time).d.change_flags.none_raised(s.d.change_flags),
{
    let shown = time_shown(held(home, s, rtc), time, is_military_time);
    assert(shown.d.change_flags.none_raised(s.d.change_flags));
    let swiped = swiped(shown, time, is_military_time);
    assert(swiped.d.change_flags.none_raised(shown.d.change_flags));
    let pressed = pressed(held_home(home, rtc), swiped, time, is_military_time);
    assert(pressed.d.change_flags.none_raised(swiped.d.change_flags));
}

/// Whether a restart is among `actions`.
pub open spec fn requests_restart(actions: Seq<ActionView>) -> bool {
    exists|i: int| 0 <= i < actions.len() && #[trigger] actions[i] == ActionView::Restart
}

/// A long hold restarts the device, and nothing else does. While the
/// button is held, the check of the hold requests a restart if and only
/// if the press began five seconds ago or more; from one second on, and
/// before five, it draws the warning and nothing else; before that it
/// requests nothing.
pub proof fn law_long_hold_restarts(rtc: Rtc, last_press_time: u32)
    ensures
        requests_restart(held_actions(rtc, last_press_time)) <==> rtc.elapsed(last_press_time)
            >= BUTTON_HELD_RESTART,
        rtc.elapsed(last_press_time) >= BUTTON_HELD_RESTART ==> held_actions(rtc, last_press_time)
            == seq![ActionView::Restart] && !warns(rtc, last_press_time),
        BUTTON_HELD_RESTART_WARN <= rtc.elapsed(last_press_time) < BUTTON_HELD_RESTART
            ==> held_actions(rtc, last_press_time) == warning_actions() && warns(
            rtc,
            last_press_time,
        ),
        rtc.elapsed(last_press_time) < BUTTON_HELD_RESTART_WARN ==> held_actions(
            rtc,
            last_press_time,
        ) == Seq::<ActionView>::empty() && !warns(rtc, last_press_time),
{
    let actions = held_actions(rtc, last_press_time);
    if rtc.elapsed(last_press_time) >= BUTTON_HELD_RESTART {
        assert(actions[0] == ActionView::Restart);
    } else {
        let first = font::write_text_actions("Hold button", 20, 95, Color::White, Color::Black, 3);
        let second = font::write_text_actions("to restart!", 20, 119, Color::White, Color::Black, 3);
        font::lemma_minimal_line_only_draws(
            "Hold button".spec_bytes(),
            "Hold button".spec_bytes().len(),
            20,
            95,
            Color::White,
            Color::Black,
            3,
        );
        font::lemma_minimal_line_only_draws(
            "to restart!".spec_bytes(),
            "to restart!".spec_bytes().len(),
            20,
            119,
            Color::White,
            Color::Black,
            3,
        );
        crate::drivers::lcd::lcd::lemma_only_draws_concat(first, second);
        assert(crate::drivers::lcd::lcd::only_draws(actions));
        if requests_restart(actions) {
            let i = choose|i: int| 0 <= i < actions.len() && #[trigger] actions[i] == ActionView::Restart;
            assert(actions[i] is SetPin || actions[i] is SpiWrite);
        }
    }
}

/// A press of the button reaches the home page. Once the button's driver
/// has published an edge that found no other waiting, with the pin at
/// `button_pin`, the flag of the button is raised and the state says
/// whether the button is down. The turn of the home page on that state
/// lowers the flag; a press starts the hold timer at the time of the
/// turn, and a release stops it and takes the warning away.
pub proof fn law_button_press_reaches_home(
    d: DeviceInfo,
    button_pin: PinState,
    home: Home,
    s: Stage,
    rtc: Rtc,
    time: Time,
    is_military_time: bool,
)
    requires
        s.d == button::publish(button::pressed(Seq::empty(), button_pin), d),
    ensures
        s.d.change_flags.button_press,
        s.d.flags.button_pressed == (button_pin == PinState::PinLow),
        !turned(home, s, rtc, time, is_military_time).d.change_flags.button_press,
        button_pin == PinState::PinLow ==> turned_home(home, s.d, rtc).press_timer_running
            && turned_home(home, s.d, rtc).last_press_time == rtc.seconds,
        button_pin == PinState::PinHigh ==> !turned_home(home, s.d, rtc).press_timer_running
            && !turned_home(home, s.d, rtc).showing_restart_warning,
{
    assert(button::pressed(Seq::empty(), button_pin)[0] == (button_pin == PinState::PinLow));
    lemma_turn_lowers_flags(home, s, rtc, time, is_military_time);
    let shown = time_shown(held(home, s, rtc), time, is_military_time);
    let swiped = swiped(shown, time, is_military_time);
    assert(swiped.d.change_flags.button_press == s.d.change_flags.button_press);
    assert(swiped.d.flags == s.d.flags);
}

} // verus!
