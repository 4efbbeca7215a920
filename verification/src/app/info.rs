//! The device state: the current values of everything the drivers
//! observe, and one change flag for each value.
//!
//! A driver that changes a value raises its flag, and lowers it again at
//! the start of its next turn. The page that reacts to a flag lowers it
//! once it has reacted.

use vstd::prelude::*;
use crate::app::page::AppPage;
use crate::app::DisplayState;
use crate::drivers::battery::BatteryLevel;
use crate::drivers::clock::Time;
use crate::drivers::touch::{Event, Gesture, TouchEvent};

verus! {

#[derive(Clone, Copy, Debug, PartialEq, Eq, Structural)]
pub struct DeviceInfoChangeFlags {
    pub app_page: bool,
    pub battery_voltage: bool,
    pub button_press: bool,
    pub charger_state: bool,
    pub display_state: bool,
    pub time_change: bool,
    pub touch_event: bool,
}

#[derive(Clone, Copy, Debug, PartialEq, Eq, Structural)]
pub struct DeviceInfoFlags {
    pub charger_connected: bool,
    pub button_pressed: bool,
    pub debug_log_active: bool,
}

#[derive(Clone, Copy, Debug, PartialEq, Eq, Structural)]
pub struct DeviceInfo {
    pub change_flags: DeviceInfoChangeFlags,
    pub flags: DeviceInfoFlags,
    pub app_page: AppPage,
    pub battery_voltage: u16,
    pub battery_level: BatteryLevel,
    pub display_state: DisplayState,
    pub time: Time,
    pub touch: TouchEvent,
}

impl DeviceInfoChangeFlags {
    /// Whether no flag is raised in `self` that is not raised in
    /// `before`.
    pub open spec fn none_raised(self, before: DeviceInfoChangeFlags) -> bool {
        &&& self.app_page ==> before.app_page
        &&& self.battery_voltage ==> before.battery_voltage
        &&& self.button_press ==> before.button_press
        &&& self.charger_state ==> before.charger_state
        &&& self.display_state ==> before.display_state
        &&& self.time_change ==> before.time_change
        &&& self.touch_event ==> before.touch_event
    }
}

/// Remembers whether the device state has been handed out.
#[derive(Clone, Copy, Debug, PartialEq, Eq, Structural)]
pub struct DeviceInfoGuard {
    pub taken: bool,
}

/// The device state at boot.
pub open spec fn device_info_defaults() -> DeviceInfo {
    DeviceInfo {
        change_flags: DeviceInfoChangeFlags {
            app_page: true,
            battery_voltage: false,
            button_press: false,
            charger_state: false,
            display_state: false,
            time_change: false,
            touch_event: false,
        },
        flags: DeviceInfoFlags {
            charger_connected: false,
            button_pressed: false,
            debug_log_active: true,
        },
        app_page: AppPage::Startup,
        battery_level: BatteryLevel::Level4,
        battery_voltage: 0,
        display_state: DisplayState::On,
        time: Time { hours: 0, minutes: 0, seconds: 0 },
        touch: TouchEvent {
            gesture: Gesture::Unknown,
            event: Event::Unknown,
            x: 0,
            y: 0,
            pressure: 0,
        },
    }
}

impl DeviceInfoGuard {
    /// A guard whose device state has not been handed out.
    pub fn new() -> (guard: DeviceInfoGuard)
        ensures
            !guard.taken,
    {
        DeviceInfoGuard { taken: false }
    }

    /// What a take hands out: the device state at boot, unless it has
    /// been handed out before.
    pub open spec fn take_result(self) -> Option<DeviceInfo> {
        if self.taken {
            None
        } else {
            Some(device_info_defaults())
        }
    }

    /// The guard after a take.
    pub open spec fn after_take(self) -> DeviceInfoGuard {
        DeviceInfoGuard { taken: true }
    }
}

impl DeviceInfo {
    /// Hands out the device state, once: a later take on the same guard
    /// gets `None`.
    pub fn take(guard: &mut DeviceInfoGuard) -> (info: Option<DeviceInfo>)
        ensures
            info == old(guard).take_result(),
            *final(guard) == old(guard).after_take(),
    {
        if guard.taken {
            None
        } else {
            Some(DeviceInfo::steal(guard))
        }
    }

    /// Hands out the device state at boot whether or not it has been
    /// handed out before, and marks it as handed out.
    pub fn steal(guard: &mut DeviceInfoGuard) -> (info: DeviceInfo)
        ensures
            info == device_info_defaults(),
            final(guard).taken,
    {
        guard.taken = true;
        DeviceInfo {
            change_flags: DeviceInfoChangeFlags {
                app_page: true,
                battery_voltage: false,
                button_press: false,
                charger_state: false,
                display_state: false,
                time_change: false,
                touch_event: false,
            },
            flags: DeviceInfoFlags {
                charger_connected: false,
                button_pressed: false,
                debug_log_active: true,
            },
            app_page: AppPage::Startup,
            battery_level: BatteryLevel::Level4,
            battery_voltage: 0,
            display_state: DisplayState::On,
            time: Time { hours: 0, minutes: 0, seconds: 0 },
            touch: TouchEvent {
                gesture: Gesture::Unknown,
                event: Event::Unknown,
                x: 0,
                y: 0,
                pressure: 0,
            },
        }
    }
}

/// The device state has a single owner. The first take on a guard
/// succeeds with the state at boot; every take after it fails, however
/// many there are.
pub proof fn law_single_owner(guard: DeviceInfoGuard)
    ensures
        !guard.taken ==> guard.take_result() == Some(device_info_defaults()),
        guard.after_take().take_result() == None::<DeviceInfo>,
        guard.after_take().after_take() == guard.after_take(),
{
}

} // verus!
