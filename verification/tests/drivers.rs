use watch_core::app::info::{DeviceInfo, DeviceInfoGuard};
use watch_core::drivers::battery;
use watch_core::drivers::battery::{Battery, BatteryLevel};
use watch_core::drivers::button;
use watch_core::drivers::button::Button;
use watch_core::drivers::clock;
use watch_core::drivers::clock::{Clock, Time};
use watch_core::drivers::lcd::font::write_time_character;
use watch_core::drivers::lcd::lcd_api::{fill_rectangle, Color};
use watch_core::drivers::log::Log;
use watch_core::drivers::touch;
use watch_core::drivers::touch::{Event, Gesture, Touch, TouchEvent};
use watch_core::drivers::{get_busy, DriversState};
use watch_core::mcu::gpio::{PinDirection, PinPull, PinState};
use watch_core::mcu::i2c::I2cError;
use watch_core::mcu::input::{BindError, Callback, Input, InputQueueEntry, PinConfig, Polarity};
use watch_core::mcu::rtc::Rtc;
use watch_core::mcu::Action;

fn device_info() -> DeviceInfo {
    let mut guard = DeviceInfoGuard::new();
    DeviceInfo::take(&mut guard).unwrap()
}

fn at(seconds: u32) -> Rtc {
    Rtc { initialized: true, wake_interval: 1024, fraction: 0, seconds }
}

fn text(line: &[u8; 24]) -> String {
    line.iter().take_while(|b| **b != 0).map(|b| *b as char).collect()
}

#[test]
fn the_drivers_are_never_busy() {
    assert_eq!(get_busy(), DriversState::Idle);
}

#[test]
fn battery_levels_are_numbered_from_empty_to_full() {
    assert_eq!(BatteryLevel::Level0.level(), 0);
    assert_eq!(BatteryLevel::Level1.level(), 1);
    assert_eq!(BatteryLevel::Level2.level(), 2);
    assert_eq!(BatteryLevel::Level3.level(), 3);
    assert_eq!(BatteryLevel::Level4.level(), 4);
}

#[test]
fn the_charger_pin_is_bound_and_read_at_boot() {
    let mut battery = Battery::new();
    let mut input = Input::new();
    let mut hw = Vec::new();
    assert_eq!(battery::init(&mut battery, &mut input, &mut hw, PinState::PinLow), Ok(0));
    assert!(battery.charger_connected);
    assert_eq!(
        battery::charger_connect_pin(),
        PinConfig {
            pin: 12,
            polarity: Polarity::HiToLo,
            pull: PinPull::PullUp,
            callback: Callback::Connect,
            real_time_callback: false
        }
    );
    assert_eq!(
        input.event_map[0],
        InputQueueEntry { pin: Some(12), callback: Callback::Connect, real_time_callback: false }
    );
    assert_eq!(hw.len(), 7);
    assert_eq!(
        battery::init(&mut battery, &mut input, &mut hw, PinState::PinHigh),
        Err(BindError::AlreadyBound)
    );
    assert!(!battery.charger_connected);
    assert_eq!(hw.len(), 7);
}

#[test]
fn the_charger_is_connected_when_its_pin_is_low() {
    let mut battery = Battery::new();
    battery::connect_handler(&mut battery, PinState::PinLow);
    assert!(battery.charger_connected);
    battery::connect_handler(&mut battery, PinState::PinHigh);
    assert!(!battery.charger_connected);
}

#[test]
fn no_battery_sample_is_taken_before_its_interval_has_passed() {
    let mut battery = Battery::new();
    let mut d = device_info();
    let mut log = Log::new();
    d.change_flags.battery_voltage = true;
    d.change_flags.charger_state = true;
    assert!(!battery::sample_due(&battery, &at(30)));
    battery::task_handler(&mut battery, &mut d, &at(30), &mut log, 2388);
    assert_eq!(battery, Battery::new());
    assert!(!d.change_flags.battery_voltage);
    assert!(!d.change_flags.charger_state);
    assert_eq!(d.battery_voltage, 0);
    assert_eq!(log.lines_active, 0);
}

#[test]
fn a_due_sample_publishes_a_new_voltage_and_level() {
    let mut battery = Battery::new();
    let mut d = device_info();
    let mut log = Log::new();
    assert!(battery::sample_due(&battery, &at(31)));
    // 330 * 2000 / 1137 = 580.4...
    battery::task_handler(&mut battery, &mut d, &at(31), &mut log, 330);
    assert!(d.change_flags.battery_voltage);
    assert!(!d.change_flags.charger_state);
    assert_eq!(d.battery_voltage, 580);
    assert_eq!(d.battery_level, BatteryLevel::Level4);
    assert_eq!(
        battery,
        Battery {
            charger_connected: false,
            last_battery_timestamp: 31,
            last_battery_state: 4,
            last_battery_voltage: 580,
            last_charger_connected: false,
        }
    );
    assert_eq!(log.lines_active, 1);
    assert_eq!(text(&log.lines[0].line), "Battery: 085");

    // The same reading a minute later is logged, not published.
    battery::task_handler(&mut battery, &mut d, &at(91), &mut log, 330);
    assert!(!d.change_flags.battery_voltage);
    assert_eq!(battery.last_battery_timestamp, 91);
    assert_eq!(log.lines_active, 2);

    // Thirty seconds later is not later enough.
    battery::task_handler(&mut battery, &mut d, &at(121), &mut log, 100);
    assert_eq!(battery.last_battery_timestamp, 91);
    assert_eq!(d.battery_voltage, 580);
    assert_eq!(log.lines_active, 2);
}

#[test]
fn battery_levels_follow_the_voltage_thresholds() {
    // raw * 2000 / 1137, rounded down
    for (raw, voltage, level) in [
        (0u16, 0u16, BatteryLevel::Level0),
        (182, 320, BatteryLevel::Level0),
        (183, 321, BatteryLevel::Level1),
        (188, 330, BatteryLevel::Level1),
        (189, 332, BatteryLevel::Level2),
        (193, 339, BatteryLevel::Level2),
        (194, 341, BatteryLevel::Level3),
        (199, 350, BatteryLevel::Level3),
        (200, 351, BatteryLevel::Level4),
        (4095, 7203, BatteryLevel::Level4),
    ] {
        let mut battery = Battery::new();
        // Make sure both the voltage and the level count as new.
        battery.last_battery_voltage = voltage.wrapping_add(1);
        battery.last_battery_state = 9;
        let mut d = device_info();
        let mut log = Log::new();
        battery::task_handler(&mut battery, &mut d, &at(31), &mut log, raw);
        assert_eq!(d.battery_voltage, voltage, "raw {}", raw);
        assert_eq!(d.battery_level, level, "raw {}", raw);
        assert_eq!(battery.last_battery_state, level.level(), "raw {}", raw);
    }
}

#[test]
fn a_voltage_beyond_sixteen_bits_wraps() {
    let mut battery = Battery::new();
    let mut d = device_info();
    let mut log = Log::new();
    // 65535 * 2000 / 1137 = 115277 = 65536 + 49741
    battery::task_handler(&mut battery, &mut d, &at(31), &mut log, 65535);
    assert_eq!(d.battery_voltage, 49741);
    assert_eq!(text(&log.lines[0].line), "Battery: 14794");
}

#[test]
fn a_new_level_is_published_only_with_a_new_voltage() {
    let mut battery = Battery::new();
    battery.last_battery_voltage = 580;
    battery.last_battery_state = 0;
    let mut d = device_info();
    d.battery_level = BatteryLevel::Level1;
    let mut log = Log::new();
    battery::task_handler(&mut battery, &mut d, &at(31), &mut log, 330);
    assert!(!d.change_flags.battery_voltage);
    assert_eq!(d.battery_level, BatteryLevel::Level1);
    assert_eq!(battery.last_battery_state, 0);
}

#[test]
fn a_new_charger_state_is_published_and_logged() {
    let mut battery = Battery::new();
    let mut d = device_info();
    let mut log = Log::new();
    battery::connect_handler(&mut battery, PinState::PinLow);
    battery::task_handler(&mut battery, &mut d, &at(0), &mut log, 0);
    assert!(d.change_flags.charger_state);
    assert!(d.flags.charger_connected);
    assert!(!d.change_flags.battery_voltage);
    assert!(battery.last_charger_connected);
    assert_eq!(text(&log.lines[0].line), "Charger state: 1");

    // Nothing new: the flag is lowered again.
    battery::task_handler(&mut battery, &mut d, &at(0), &mut log, 0);
    assert!(!d.change_flags.charger_state);
    assert!(d.flags.charger_connected);
    assert_eq!(log.lines_active, 1);

    battery::connect_handler(&mut battery, PinState::PinHigh);
    battery::task_handler(&mut battery, &mut d, &at(0), &mut log, 0);
    assert!(d.change_flags.charger_state);
    assert!(!d.flags.charger_connected);
    assert_eq!(text(&log.lines[1].line), "Charger state: 0");
}

#[test]
fn the_button_is_bound_and_its_other_side_driven_low() {
    let mut input = Input::new();
    let mut hw = Vec::new();
    assert_eq!(button::init(&mut input, &mut hw), Ok(0));
    assert_eq!(
        input.event_map[0],
        InputQueueEntry { pin: Some(13), callback: Callback::Press, real_time_callback: false }
    );
    assert_eq!(hw.len(), 8);
    assert_eq!(hw[2], Action::ChannelConfig { channel: 0, polarity: Polarity::Toggle, pin: 13 });
    assert_eq!(
        hw[7],
        Action::PinSetup {
            pin: 15,
            dir: PinDirection::Output,
            state: PinState::PinLow,
            pull: PinPull::PullDisabled
        }
    );
}

#[test]
fn presses_are_published_one_a_turn_in_order() {
    let mut button = Button::new();
    let mut d = device_info();
    let mut log = Log::new();
    button::press_handler(&mut button, PinState::PinLow);
    button::press_handler(&mut button, PinState::PinHigh);
    assert_eq!(button.unhandled_presses, 2);

    button::task_handler(&mut button, &mut d, &mut log);
    assert!(d.change_flags.button_press);
    assert!(d.flags.button_pressed);
    assert_eq!(text(&log.lines[0].line), "Button pressed!");

    button::task_handler(&mut button, &mut d, &mut log);
    assert!(d.change_flags.button_press);
    assert!(!d.flags.button_pressed);
    assert_eq!(text(&log.lines[1].line), "Button released!");
    assert_eq!(button.unhandled_presses, 0);

    // Nothing waits: the flag is lowered, the state stays.
    d.flags.button_pressed = true;
    button::task_handler(&mut button, &mut d, &mut log);
    assert!(!d.change_flags.button_press);
    assert!(d.flags.button_pressed);
    assert_eq!(log.lines_active, 2);
}

#[test]
fn presses_are_not_logged_when_the_debug_log_is_off() {
    let mut button = Button::new();
    let mut d = device_info();
    d.flags.debug_log_active = false;
    let mut log = Log::new();
    button::press_handler(&mut button, PinState::PinLow);
    button::task_handler(&mut button, &mut d, &mut log);
    assert!(d.change_flags.button_press);
    assert_eq!(log.lines_active, 0);
}

#[test]
fn a_ninth_press_is_dropped_and_the_ring_wraps() {
    let mut button = Button::new();
    let mut d = device_info();
    let mut log = Log::new();
    for round in 0..3 {
        let levels = [true, false, false, true, true, true, false, true];
        for pressed in levels {
            button::press_handler(
                &mut button,
                if pressed { PinState::PinLow } else { PinState::PinHigh },
            );
        }
        assert_eq!(button.unhandled_presses, 8);
        button::press_handler(&mut button, PinState::PinHigh);
        assert_eq!(button.unhandled_presses, 8);
        for (i, pressed) in levels.iter().enumerate() {
            button::task_handler(&mut button, &mut d, &mut log);
            assert!(d.change_flags.button_press);
            assert_eq!(d.flags.button_pressed, *pressed, "round {} press {}", round, i);
        }
        button::task_handler(&mut button, &mut d, &mut log);
        assert!(!d.change_flags.button_press);
        // Leave the ring at another place for the next round.
        button::press_handler(&mut button, PinState::PinLow);
        button::task_handler(&mut button, &mut d, &mut log);
    }
}

#[test]
fn starting_the_clock_moves_it_on_by_a_second() {
    let mut clock = Clock::new();
    clock::init(&mut clock);
    assert_eq!(clock.time, Time { hours: 0, minutes: 0, seconds: 1 });
    assert_eq!(clock.digits_on_display, [10; 6]);
}

#[test]
fn the_clock_moves_on_one_second_a_turn_when_a_second_has_passed() {
    let mut clock = Clock::new();
    let mut d = device_info();
    d.change_flags.time_change = true;
    clock::task_handler(&mut clock, &mut d, &at(0));
    assert_eq!(clock.time, Time { hours: 0, minutes: 0, seconds: 0 });
    assert!(!d.change_flags.time_change);

    clock::task_handler(&mut clock, &mut d, &at(3));
    assert_eq!(clock.time, Time { hours: 0, minutes: 0, seconds: 1 });
    assert_eq!(clock.last_timestamp, 3);
    assert!(!d.change_flags.time_change);
    assert_eq!(d.time, Time { hours: 0, minutes: 0, seconds: 0 });

    clock::task_handler(&mut clock, &mut d, &at(3));
    assert_eq!(clock.time, Time { hours: 0, minutes: 0, seconds: 1 });
}

#[test]
fn a_new_minute_is_published() {
    for (before, after) in [
        (Time { hours: 0, minutes: 0, seconds: 59 }, Time { hours: 0, minutes: 1, seconds: 0 }),
        (Time { hours: 7, minutes: 59, seconds: 59 }, Time { hours: 8, minutes: 0, seconds: 0 }),
        (Time { hours: 23, minutes: 59, seconds: 59 }, Time { hours: 0, minutes: 0, seconds: 0 }),
    ] {
        let mut clock = Clock::new();
        clock.time = before;
        let mut d = device_info();
        clock::task_handler(&mut clock, &mut d, &at(1));
        assert_eq!(clock.time, after);
        assert!(d.change_flags.time_change);
        assert_eq!(d.time, after);
    }
}

fn face(time: Time, is_military_time: bool) -> [u8; 6] {
    let mut clock = Clock::new();
    clock.time = time;
    let mut hw = Vec::new();
    clock::update_time(&mut clock, &mut hw, is_military_time);
    clock.digits_on_display
}

#[test]
fn the_face_shows_hours_and_minutes() {
    assert_eq!(face(Time { hours: 0, minutes: 5, seconds: 0 }, false), [1, 2, 0, 5, 10, 10]);
    assert_eq!(face(Time { hours: 0, minutes: 5, seconds: 0 }, true), [0, 0, 0, 5, 10, 10]);
    assert_eq!(face(Time { hours: 12, minutes: 0, seconds: 0 }, false), [1, 2, 0, 0, 10, 10]);
    assert_eq!(face(Time { hours: 13, minutes: 47, seconds: 9 }, false), [0, 1, 4, 7, 10, 10]);
    assert_eq!(face(Time { hours: 13, minutes: 47, seconds: 9 }, true), [1, 3, 4, 7, 10, 10]);
    assert_eq!(face(Time { hours: 23, minutes: 59, seconds: 59 }, false), [1, 1, 5, 9, 10, 10]);
}

#[test]
fn only_the_digits_that_differ_are_drawn() {
    let mut clock = Clock::new();
    clock.time = Time { hours: 9, minutes: 41, seconds: 0 };
    let mut hw = Vec::new();
    clock::update_time(&mut clock, &mut hw, false);
    let mut expected = Vec::new();
    // A leading zero is blanked.
    fill_rectangle(&mut expected, 35, 40, 120, 64, Color::Black);
    write_time_character(&mut expected, 9, 75, 120, Color::Gray, Color::Black);
    write_time_character(&mut expected, 4, 125, 120, Color::Gray, Color::Black);
    write_time_character(&mut expected, 1, 165, 120, Color::Gray, Color::Black);
    assert_eq!(hw, expected);

    clock.time = Time { hours: 9, minutes: 42, seconds: 0 };
    let mut hw = Vec::new();
    clock::update_time(&mut clock, &mut hw, false);
    let mut expected = Vec::new();
    write_time_character(&mut expected, 2, 165, 120, Color::Gray, Color::Black);
    assert_eq!(hw, expected);

    let mut hw = Vec::new();
    clock::update_time(&mut clock, &mut hw, false);
    assert_eq!(hw, vec![]);
}

#[test]
fn the_whole_face_is_its_marks_and_all_four_digits() {
    let mut marks = Vec::new();
    clock::write_analog(&mut marks);
    let mut expected = Vec::new();
    for (x, y, size, color) in [
        (45, 0, 4, Color::Gray),
        (115, 0, 8, Color::GrayDark),
        (189, 0, 4, Color::GrayDark),
        (0, 45, 4, Color::GrayDark),
        (235, 45, 4, Color::Gray),
        (0, 115, 8, Color::GrayDark),
        (231, 115, 8, Color::GrayDark),
        (0, 189, 4, Color::Gray),
        (235, 189, 4, Color::GrayDark),
        (45, 235, 4, Color::GrayDark),
        (115, 231, 8, Color::GrayDark),
        (189, 235, 4, Color::Gray),
    ] {
        fill_rectangle(&mut expected, x, size, y, size, color);
    }
    assert_eq!(marks, expected);

    let mut clock = Clock::new();
    clock.time = Time { hours: 10, minutes: 0, seconds: 0 };
    clock.digits_on_display = [1, 0, 0, 0, 10, 10];
    let mut hw = Vec::new();
    clock::write_time(&mut clock, &mut hw, true);
    write_time_character(&mut expected, 1, 35, 120, Color::Gray, Color::Black);
    write_time_character(&mut expected, 0, 75, 120, Color::Gray, Color::Black);
    write_time_character(&mut expected, 0, 125, 120, Color::Gray, Color::Black);
    write_time_character(&mut expected, 0, 165, 120, Color::Gray, Color::Black);
    assert_eq!(hw, expected);
    assert_eq!(clock.digits_on_display, [1, 0, 0, 0, 10, 10]);
}

#[test]
fn touch_bytes_are_parsed() {
    assert_eq!(touch::get_gesture(0x00), Gesture::NoGesture);
    assert_eq!(touch::get_gesture(0x01), Gesture::SlideDown);
    assert_eq!(touch::get_gesture(0x02), Gesture::SlideUp);
    assert_eq!(touch::get_gesture(0x03), Gesture::SlideLeft);
    assert_eq!(touch::get_gesture(0x04), Gesture::SlideRight);
    assert_eq!(touch::get_gesture(0x05), Gesture::SinglePress);
    assert_eq!(touch::get_gesture(0x0B), Gesture::DoublePress);
    assert_eq!(touch::get_gesture(0x0C), Gesture::LongPress);
    assert_eq!(touch::get_gesture(0x06), Gesture::Unknown);
    assert_eq!(touch::get_gesture(0xFF), Gesture::Unknown);

    assert_eq!(touch::get_event(0x00), Event::Down);
    assert_eq!(touch::get_event(0x3F), Event::Down);
    assert_eq!(touch::get_event(0x40), Event::Up);
    assert_eq!(touch::get_event(0x80), Event::Contact);
    assert_eq!(touch::get_event(0xC0), Event::Unknown);
    assert_eq!(touch::get_event(0xFF), Event::Unknown);

    assert_eq!(touch::get_coordinate(0x00, 0x00), 0);
    assert_eq!(touch::get_coordinate(0x01, 0x02), 0x102);
    assert_eq!(touch::get_coordinate(0xF0, 0xEF), 0x0EF);
    assert_eq!(touch::get_coordinate(0x8F, 0xFF), 0xFFF);
    assert_eq!(touch::get_pressure(0x7B), 0x7B);

    assert_eq!(touch::get_event_string(Event::Down), "touch: down event");
    assert_eq!(touch::get_event_string(Event::Up), "touch: up event");
    assert_eq!(touch::get_event_string(Event::Contact), "touch: contact");
    assert_eq!(touch::get_event_string(Event::Unknown), "touch: unknown");
    assert_eq!(touch::get_gesture_string(Gesture::NoGesture), "touch: gesture none");
    assert_eq!(touch::get_gesture_string(Gesture::SlideUp), "touch: slide up");
    assert_eq!(touch::get_gesture_string(Gesture::LongPress), "touch: long press");
    assert_eq!(touch::get_gesture_string(Gesture::Unknown), "touch: gesture unknown");
}

#[test]
fn the_touch_line_is_bound_as_real_time() {
    let mut input = Input::new();
    let mut hw = Vec::new();
    assert_eq!(touch::init(&mut input, &mut hw), Ok(0));
    assert_eq!(
        input.event_map[0],
        InputQueueEntry { pin: Some(28), callback: Callback::Touch, real_time_callback: true }
    );
    assert_eq!(
        hw[0],
        Action::PinSetup {
            pin: 10,
            dir: PinDirection::Output,
            state: PinState::PinHigh,
            pull: PinPull::PullDisabled
        }
    );
    assert_eq!(
        hw[1],
        Action::PinSetup {
            pin: 28,
            dir: PinDirection::Input,
            state: PinState::PinLow,
            pull: PinPull::PullDisabled
        }
    );
    assert_eq!(hw.len(), 8);
}

fn touch_bytes(gesture: u8, event_and_x: u8, x: u8, y_high: u8, y: u8, pressure: u8) -> [u8; 63] {
    let mut buffer = [0u8; 63];
    buffer[1] = gesture;
    buffer[3] = event_and_x;
    buffer[4] = x;
    buffer[5] = y_high;
    buffer[6] = y;
    buffer[7] = pressure;
    buffer
}

#[test]
fn a_touch_read_waits_for_the_next_turn_and_is_published_once() {
    let mut touch = Touch::new();
    let mut d = device_info();
    let mut log = Log::new();
    let buffer = touch_bytes(0x02, 0x80 | 0x01, 0x23, 0x00, 0xC8, 9);
    touch::touch_handler(&mut touch, &mut log, Ok(()), &buffer);
    assert!(touch.unhandled_events);
    assert_eq!(touch.last_event_buffer, buffer);
    assert_eq!(log.lines_active, 0);

    touch::task_handler(&mut touch, &mut d, &mut log);
    assert!(d.change_flags.touch_event);
    assert_eq!(
        d.touch,
        TouchEvent { gesture: Gesture::SlideUp, event: Event::Contact, x: 0x123, y: 200, pressure: 9 }
    );
    assert!(!touch.unhandled_events);
    assert_eq!(log.lines_active, 4);
    assert_eq!(text(&log.lines[0].line), "touch: slide up");
    assert_eq!(text(&log.lines[1].line), "touch: contact");
    assert_eq!(text(&log.lines[2].line), "touch: x 192");
    assert_eq!(text(&log.lines[3].line), "touch: y 002");

    touch::task_handler(&mut touch, &mut d, &mut log);
    assert!(!d.change_flags.touch_event);
    assert_eq!(d.touch.x, 0x123);
    assert_eq!(log.lines_active, 4);
}

#[test]
fn a_failed_touch_read_is_logged_and_not_published() {
    let mut touch = Touch::new();
    let mut d = device_info();
    let mut log = Log::new();
    let buffer = touch_bytes(0x01, 0, 0, 0, 0, 0);
    for error in [I2cError::HANDLER, I2cError::RECEIVE, I2cError::STOP, I2cError::TRANSMIT] {
        touch::touch_handler(&mut touch, &mut log, Err(error), &buffer);
    }
    assert!(!touch.unhandled_events);
    // What the failed read left behind is kept all the same.
    assert_eq!(touch.last_event_buffer, buffer);
    assert_eq!(log.lines_active, 4);
    assert_eq!(text(&log.lines[0].line), "Failed to read touch ");
    touch::task_handler(&mut touch, &mut d, &mut log);
    assert!(!d.change_flags.touch_event);
    assert_eq!(d.touch.gesture, Gesture::Unknown);
}

#[test]
fn a_press_is_written_at_the_tail_and_taken_from_the_head() {
    let mut button = Button::new();
    let mut d = device_info();
    let mut log = Log::new();
    button.head = 6;
    button.tail = 6;
    button.press_queue = [false, true, false, true, false, true, false, true];

    button::press_handler(&mut button, PinState::PinLow);
    assert_eq!(button.press_queue, [false, true, false, true, false, true, true, true]);
    assert_eq!((button.head, button.tail, button.unhandled_presses), (6, 7, 1));
    button::press_handler(&mut button, PinState::PinHigh);
    assert_eq!(button.press_queue, [false, true, false, true, false, true, true, false]);
    assert_eq!((button.head, button.tail, button.unhandled_presses), (6, 0, 2));

    let cells = button.press_queue;
    button::task_handler(&mut button, &mut d, &mut log);
    assert!(d.change_flags.button_press && d.flags.button_pressed);
    assert_eq!(button.press_queue, cells);
    assert_eq!((button.head, button.tail, button.unhandled_presses), (7, 0, 1));
    button::task_handler(&mut button, &mut d, &mut log);
    assert!(d.change_flags.button_press && !d.flags.button_pressed);
    assert_eq!((button.head, button.tail, button.unhandled_presses), (0, 0, 0));
    button::task_handler(&mut button, &mut d, &mut log);
    assert_eq!(button.press_queue, cells);
    assert_eq!((button.head, button.tail, button.unhandled_presses), (0, 0, 0));

    // A full ring takes nothing.
    for _ in 0..8 {
        button::press_handler(&mut button, PinState::PinLow);
    }
    let cells = button.press_queue;
    button::press_handler(&mut button, PinState::PinHigh);
    assert_eq!(button.press_queue, cells);
    assert_eq!((button.head, button.tail, button.unhandled_presses), (0, 0, 8));
}
