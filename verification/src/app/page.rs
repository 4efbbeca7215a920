//! The pages of the application.
//!
//! A page reacts to the change flags of the device state while it is
//! open, and lowers each flag it has reacted to. The flags of values that
//! the open page does not show are left as they are.

use vstd::prelude::*;
use crate::app::info::{DeviceInfo, DeviceInfoChangeFlags};
use crate::drivers::clock;
use crate::drivers::clock::{Clock, Time};
use crate::drivers::lcd::lcd_api;
use crate::drivers::lcd::lcd_api::{BacklightBrightness, Color};
use crate::drivers::log::{Log, LogView};
use crate::mcu::{Action, ActionView};

pub mod home;
pub mod log;
pub mod notifications;
pub mod settings;
pub mod startup;

verus! {

#[derive(Clone, Copy, Debug, PartialEq, Eq, Structural)]
pub enum AppPage {
    Home,
    Notifications,
    Log,
    Settings,
    Startup,
}

/// Everything a page can change, as mathematical values: the device
/// state, the digits on the clock face, the log, and the hardware
/// operations requested so far.
#[verifier::ext_equal]
pub struct Stage {
    pub d: DeviceInfo,
    pub face: Seq<u8>,
    pub log: LogView,
    pub actions: Seq<ActionView>,
}

/// The stage that the arguments of a page function make up.
pub open spec fn stage(d: DeviceInfo, clock: Clock, log: Log, hw: Vec<Action>) -> Stage {
    Stage { d, face: clock.digits_on_display@, log: log@, actions: hw.deep_view() }
}

impl Stage {
    /// The stage with `actions` requested after those before.
    pub open spec fn plus(self, actions: Seq<ActionView>) -> Stage {
        Stage { actions: self.actions + actions, ..self }
    }

    /// The stage with `page` open.
    pub open spec fn on_page(self, page: AppPage) -> Stage {
        Stage { d: DeviceInfo { app_page: page, ..self.d }, ..self }
    }

    /// The stage after the open page has been drawn from scratch, when
    /// the time is `time`: the backlight goes off, the panel is blanked,
    /// the page draws what it shows, and the backlight comes back. The
    /// home page has drawn the whole clock face, and the log page has
    /// marked the lines of the log stale. The page flag is lowered.
    pub open spec fn page_changed(self, time: Time, is_military_time: bool) -> Stage {
        Stage {
            d: DeviceInfo {
                change_flags: DeviceInfoChangeFlags { app_page: false, ..self.d.change_flags },
                ..self.d
            },
            face: if self.d.app_page == AppPage::Home {
                clock::shown_after(self.face, time.digits(is_military_time), true, 4)
            } else {
                self.face
            },
            log: if self.d.app_page == AppPage::Log {
                self.log.marked(self.log.lines_active, true)
            } else {
                self.log
            },
            actions: self.actions + lcd_api::set_backlight_actions(BacklightBrightness::Brightness0)
                + lcd_api::fill_background_actions(Color::Black) + start_actions(
                self.d,
                time,
                is_military_time,
            ) + lcd_api::set_backlight_actions(BacklightBrightness::Brightness4),
        }
    }
}

/// What the open page draws when it opens.
pub open spec fn start_actions(d: DeviceInfo, time: Time, is_military_time: bool) -> Seq<ActionView> {
    match d.app_page {
        AppPage::Home => clock::write_time_actions(time.digits(is_military_time)),
        AppPage::Settings => settings::start_page_actions(d),
        _ => Seq::empty(),
    }
}

/// Draws the page that is open from scratch.
pub fn change_page(
    d: &mut DeviceInfo,
    clock: &mut Clock,
    log: &mut Log,
    hw: &mut Vec<Action>,
    is_military_time: bool,
)
    requires
        old(clock).wf(),
        old(log).wf(),
    ensures
        final(clock).wf(),
        final(log).wf(),
        final(clock).time == old(clock).time,
        final(clock).last_timestamp == old(clock).last_timestamp,
        stage(*final(d), *final(clock), *final(log), *final(hw)) == stage(
            *old(d),
            *old(clock),
            *old(log),
            *old(hw),
        ).page_changed(old(clock).time, is_military_time),
{
    let ghost before = stage(*d, *clock, *log, *hw);
    // Clear what was there
    lcd_api::set_backlight(hw, BacklightBrightness::Brightness0);
    lcd_api::fill_background(hw, Color::Black);
    let ghost blank = hw.deep_view();

    match d.app_page {
        AppPage::Home => home::start_page(clock, hw, is_military_time),
        AppPage::Notifications => notifications::start_page(),
        AppPage::Log => log::start_page(log),
        AppPage::Settings => settings::start_page(d, hw),
        _ => (),
    }
    assert(hw.deep_view() =~= blank + start_actions(*d, old(clock).time, is_military_time));

    // Restore brightness to show new page
    lcd_api::set_backlight(hw, BacklightBrightness::Brightness4);
    d.change_flags.app_page = false;
}

} // verus!
