use watch_core::app::info::{DeviceInfo, DeviceInfoGuard};
use watch_core::app::page::AppPage;
use watch_core::app::DisplayState;
use watch_core::drivers::battery::BatteryLevel;
use watch_core::drivers::clock::Time;
use watch_core::drivers::touch::{Event, Gesture};

#[test]
fn the_device_state_is_taken_once() {
    let mut guard = DeviceInfoGuard::new();
    assert!(!guard.taken);
    let first = DeviceInfo::take(&mut guard);
    assert!(first.is_some());
    assert!(guard.taken);
    assert_eq!(DeviceInfo::take(&mut guard), None);
    assert_eq!(DeviceInfo::take(&mut guard), None);
    assert!(guard.taken);
}

#[test]
fn the_device_state_starts_at_its_defaults() {
    let mut guard = DeviceInfoGuard::new();
    let d = DeviceInfo::take(&mut guard).unwrap();
    assert!(d.change_flags.app_page);
    assert!(!d.change_flags.battery_voltage);
    assert!(!d.change_flags.button_press);
    assert!(!d.change_flags.charger_state);
    assert!(!d.change_flags.display_state);
    assert!(!d.change_flags.time_change);
    assert!(!d.change_flags.touch_event);
    assert!(!d.flags.charger_connected);
    assert!(!d.flags.button_pressed);
    assert!(d.flags.debug_log_active);
    assert_eq!(d.app_page, AppPage::Startup);
    assert_eq!(d.battery_level, BatteryLevel::Level4);
    assert_eq!(d.battery_voltage, 0);
    assert_eq!(d.display_state, DisplayState::On);
    assert_eq!(d.time, Time { hours: 0, minutes: 0, seconds: 0 });
    assert_eq!(d.touch.gesture, Gesture::Unknown);
    assert_eq!(d.touch.event, Event::Unknown);
    assert_eq!((d.touch.x, d.touch.y, d.touch.pressure), (0, 0, 0));
}

#[test]
fn stealing_hands_out_the_defaults_and_marks_the_guard() {
    let mut guard = DeviceInfoGuard::new();
    let stolen = DeviceInfo::steal(&mut guard);
    assert!(guard.taken);
    assert_eq!(DeviceInfo::take(&mut guard), None);
    let again = DeviceInfo::steal(&mut guard);
    assert_eq!(stolen, again);
    assert!(guard.taken);
}
