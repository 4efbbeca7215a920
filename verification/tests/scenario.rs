use watch_core::app::info::{DeviceInfo, DeviceInfoChangeFlags, DeviceInfoGuard};
use watch_core::app::page::home::Home;
use watch_core::app::page::AppPage;
use watch_core::drivers::battery;
use watch_core::drivers::button;
use watch_core::drivers::touch;
use watch_core::drivers::touch::{Event, Gesture, TouchEvent};
use watch_core::mcu;
use watch_core::mcu::gpio::PinState;
use watch_core::mcu::i2c::I2cError;
use watch_core::mcu::input::{gpiote, Callback, Dispatch, InputQueueEntry};
use watch_core::mcu::rtc::{rtc0, WakeInterval};
use watch_core::mcu::Action;
use watch_core::{init, task_handler, Device};

const CHARGER: usize = 0;
const BUTTON: usize = 1;
const TOUCH: usize = 2;

const NO_FLAGS: DeviceInfoChangeFlags = DeviceInfoChangeFlags {
    app_page: false,
    battery_voltage: false,
    button_press: false,
    charger_state: false,
    display_state: false,
    time_change: false,
    touch_event: false,
};

/// What the board reports when the firmware asks.
struct Board {
    charger_pin: PinState,
    button_pin: PinState,
    touch_bytes: [u8; 63],
    touch_read: Result<(), I2cError>,
}

fn board() -> Board {
    Board {
        charger_pin: PinState::PinHigh,
        button_pin: PinState::PinHigh,
        touch_bytes: [0; 63],
        touch_read: Ok(()),
    }
}

fn run(device: &mut Device, board: &Board, callback: Callback) {
    match callback {
        Callback::Dummy => {}
        Callback::Connect => battery::connect_handler(&mut device.battery, board.charger_pin),
        Callback::Press => button::press_handler(&mut device.button, board.button_pin),
        Callback::Touch => touch::touch_handler(
            &mut device.touch,
            &mut device.log,
            board.touch_read,
            &board.touch_bytes,
        ),
    }
}

/// An edge on a channel, as the interrupt handler sees it. Returns the
/// handlers that ran in interrupt context.
fn interrupt(device: &mut Device, board: &Board, channel: usize) -> Vec<Callback> {
    let mut events_in = [0u32; 8];
    events_in[channel] = 1;
    let mut ran = Vec::new();
    if let Dispatch::Immediate(callback) = gpiote(&mut device.input, &mut events_in) {
        run(device, board, callback);
        ran.push(callback);
    }
    assert_eq!(events_in, [0u32; 8]);
    ran
}

/// One iteration of the main loop. Returns the handlers that the drain
/// ran, what the turn asked of the hardware, and whether it may sleep.
fn turn(device: &mut Device, d: &mut DeviceInfo, board: &Board) -> (Vec<Callback>, Vec<Action>, bool) {
    let callbacks = mcu::task_handler(&mut device.input, d);
    for callback in callbacks.iter() {
        run(device, board, *callback);
    }
    let mut hw = Vec::new();
    let sleep = task_handler(device, d, &mut hw, 0, &[]);
    (callbacks, hw, sleep)
}

fn seconds_pass(device: &mut Device, seconds: u32) {
    for _ in 0..4 * seconds {
        rtc0(&mut device.rtc, true);
    }
}

/// A device that has booted and shows the home page.
fn booted() -> (Device, DeviceInfo) {
    let mut hw = Vec::new();
    let mut device = init(&mut hw, WakeInterval::Interval250MS, false);
    let mut guard = DeviceInfoGuard::new();
    let mut d = DeviceInfo::take(&mut guard).unwrap();
    let (callbacks, _, sleep) = turn(&mut device, &mut d, &board());
    assert_eq!(callbacks, vec![]);
    assert_eq!(d.app_page, AppPage::Home);
    assert_eq!(d.change_flags, NO_FLAGS);
    assert!(sleep);
    (device, d)
}

#[test]
fn boot_binds_the_three_pins_and_brings_the_display_up() {
    let mut hw = Vec::new();
    let mut device = init(&mut hw, WakeInterval::Interval250MS, true);
    assert_eq!(
        device.input.event_map[CHARGER],
        InputQueueEntry { pin: Some(12), callback: Callback::Connect, real_time_callback: false }
    );
    assert_eq!(
        device.input.event_map[BUTTON],
        InputQueueEntry { pin: Some(13), callback: Callback::Press, real_time_callback: false }
    );
    assert_eq!(
        device.input.event_map[TOUCH],
        InputQueueEntry { pin: Some(28), callback: Callback::Touch, real_time_callback: true }
    );
    for channel in 3..8 {
        assert_eq!(device.input.event_map[channel].pin, None);
    }
    assert!(!device.battery.charger_connected);
    let mut board = board();
    board.charger_pin = PinState::PinLow;
    run(&mut device, &board, Callback::Connect);
    assert!(device.battery.charger_connected);
    assert!(device.is_military_time);
    assert_eq!(device.rtc.wake_interval, 1024);
    assert_eq!(device.log.lines_active, 1);
    assert_eq!(device.home, Home::new());
    assert_eq!(hw[0], Action::RtcStart { wake_interval: 1024 });
    let mut display = Vec::new();
    watch_core::drivers::lcd::lcd_api::init(&mut display);
    assert_eq!(hw[1..1 + display.len()], display[..]);
    assert_eq!(hw.len(), 1 + display.len() + 7 + 8 + 8);
}

#[test]
fn a_button_press_reaches_the_home_page_and_a_long_hold_restarts() {
    let (mut device, mut d) = booted();
    let mut board = board();

    // A falling edge on the button's pin is queued, not run.
    board.button_pin = PinState::PinLow;
    assert_eq!(interrupt(&mut device, &board, BUTTON), vec![]);
    assert_eq!(device.input.pending, 1);
    assert_eq!(device.button.unhandled_presses, 0);

    // The drain runs the handler, and the driver publishes the press.
    let callbacks = mcu::task_handler(&mut device.input, &d);
    assert_eq!(callbacks, vec![Callback::Press]);
    run(&mut device, &board, Callback::Press);
    assert_eq!(device.button.unhandled_presses, 1);
    button::task_handler(&mut device.button, &mut d, &mut device.log);
    assert!(d.change_flags.button_press);
    assert!(d.flags.button_pressed);

    // The same through the whole turn: the home page has seen the press
    // and lowered the flag.
    board.button_pin = PinState::PinHigh;
    assert_eq!(interrupt(&mut device, &board, BUTTON), vec![]);
    board.button_pin = PinState::PinLow;
    assert_eq!(interrupt(&mut device, &board, BUTTON), vec![]);
    let (callbacks, hw, sleep) = turn(&mut device, &mut d, &board);
    assert_eq!(callbacks, vec![Callback::Press, Callback::Press]);
    assert!(d.flags.button_pressed);
    assert!(!d.change_flags.button_press);
    assert!(device.home.press_timer_running);
    assert_eq!(device.home.last_press_time, 0);
    assert_eq!(hw, vec![]);
    assert!(sleep);
    let (_, _, _) = turn(&mut device, &mut d, &board);
    assert!(d.flags.button_pressed);

    // Held for a second: the warning. Held for five: the restart.
    seconds_pass(&mut device, 1);
    let (_, hw, _) = turn(&mut device, &mut d, &board);
    assert!(device.home.showing_restart_warning);
    assert!(!hw.is_empty());
    assert!(!hw.contains(&Action::Restart));
    seconds_pass(&mut device, 4);
    let (_, hw, _) = turn(&mut device, &mut d, &board);
    assert_eq!(hw, vec![Action::Restart]);
}

#[test]
fn a_short_press_does_not_restart() {
    let (mut device, mut d) = booted();
    let mut board = board();
    board.button_pin = PinState::PinLow;
    interrupt(&mut device, &board, BUTTON);
    turn(&mut device, &mut d, &board);
    assert!(device.home.press_timer_running);
    board.button_pin = PinState::PinHigh;
    interrupt(&mut device, &board, BUTTON);
    let (_, hw, _) = turn(&mut device, &mut d, &board);
    assert!(!d.flags.button_pressed);
    assert!(!device.home.press_timer_running);
    assert_eq!(hw, vec![]);
    seconds_pass(&mut device, 10);
    let (_, hw, _) = turn(&mut device, &mut d, &board);
    assert!(!hw.contains(&Action::Restart));
}

#[test]
fn touch_events_are_read_in_the_interrupt_and_the_latest_read_counts() {
    let (mut device, mut d) = booted();
    let mut board = board();

    board.touch_bytes[1] = 0x05;
    board.touch_bytes[4] = 10;
    board.touch_bytes[6] = 20;
    assert_eq!(interrupt(&mut device, &board, TOUCH), vec![Callback::Touch]);
    assert_eq!(device.touch.last_event_buffer[1], 0x05);

    board.touch_bytes[1] = 0x0C;
    board.touch_bytes[3] = 0x40;
    board.touch_bytes[4] = 111;
    board.touch_bytes[6] = 222;
    board.touch_bytes[7] = 3;
    assert_eq!(interrupt(&mut device, &board, TOUCH), vec![Callback::Touch]);

    // Neither edge was queued.
    assert_eq!(device.input.pending, 0);
    assert_eq!(device.touch.last_event_buffer, board.touch_bytes);
    assert!(device.touch.unhandled_events);

    let (callbacks, _, _) = turn(&mut device, &mut d, &board);
    assert_eq!(callbacks, vec![]);
    assert_eq!(
        d.touch,
        TouchEvent { gesture: Gesture::LongPress, event: Event::Up, x: 111, y: 222, pressure: 3 }
    );
    // The home page has seen the event.
    assert!(!d.change_flags.touch_event);
    assert!(!device.touch.unhandled_events);
}

#[test]
fn a_slide_down_on_the_home_page_opens_the_settings() {
    let (mut device, mut d) = booted();
    let mut board = board();
    board.touch_bytes[1] = 0x01;
    interrupt(&mut device, &board, TOUCH);
    let (_, hw, sleep) = turn(&mut device, &mut d, &board);
    assert_eq!(d.app_page, AppPage::Settings);
    assert_eq!(d.touch.gesture, Gesture::SlideDown);
    assert!(!hw.is_empty());
    assert_eq!(d.change_flags, NO_FLAGS);
    assert!(sleep);

    board.touch_bytes[1] = 0x02;
    interrupt(&mut device, &board, TOUCH);
    turn(&mut device, &mut d, &board);
    assert_eq!(d.app_page, AppPage::Home);
}

#[test]
fn the_charger_is_published_through_the_queue() {
    let (mut device, mut d) = booted();
    // The settings page shows the charger.
    d.app_page = AppPage::Settings;
    let mut board = board();
    board.charger_pin = PinState::PinLow;
    assert_eq!(interrupt(&mut device, &board, CHARGER), vec![]);
    assert!(!device.battery.charger_connected);
    let (callbacks, hw, sleep) = turn(&mut device, &mut d, &board);
    assert_eq!(callbacks, vec![Callback::Connect]);
    assert!(device.battery.charger_connected);
    assert!(d.flags.charger_connected);
    // The page has drawn the battery again and lowered the flag.
    assert!(!hw.is_empty());
    assert!(!d.change_flags.charger_state);
    assert!(sleep);
}

#[test]
fn a_flag_that_nobody_reacts_to_keeps_the_device_awake_for_one_more_turn() {
    let (mut device, mut d) = booted();
    let mut board = board();
    board.charger_pin = PinState::PinLow;
    interrupt(&mut device, &board, CHARGER);
    // The home page does not show the charger.
    let (_, hw, sleep) = turn(&mut device, &mut d, &board);
    assert!(d.change_flags.charger_state);
    assert_eq!(hw, vec![]);
    assert!(!sleep);
    // Nothing new: the driver lowers its flag, and the device sleeps.
    let (_, hw, sleep) = turn(&mut device, &mut d, &board);
    assert_eq!(d.change_flags, NO_FLAGS);
    assert_eq!(hw, vec![]);
    assert!(sleep);
    assert!(d.flags.charger_connected);
}

#[test]
fn a_lowered_flag_stays_lowered_while_nothing_happens() {
    let (mut device, mut d) = booted();
    let board = board();
    for _ in 0..5 {
        let before = d;
        let (callbacks, hw, sleep) = turn(&mut device, &mut d, &board);
        assert_eq!(callbacks, vec![]);
        assert_eq!(hw, vec![]);
        assert_eq!(d, before);
        assert_eq!(d.change_flags, NO_FLAGS);
        assert!(sleep);
    }
}

#[test]
fn the_clock_advances_and_the_face_follows_each_minute() {
    let (mut device, mut d) = booted();
    let board = board();
    assert_eq!(device.clock.time.seconds, 1);
    assert_eq!(device.clock.digits_on_display, [1, 2, 0, 0, 10, 10]);
    let mut drawn = 0;
    for _ in 0..60 {
        seconds_pass(&mut device, 1);
        let (_, hw, sleep) = turn(&mut device, &mut d, &board);
        if !hw.is_empty() {
            drawn += 1;
        }
        assert!(sleep);
    }
    assert_eq!((device.clock.time.minutes, device.clock.time.seconds), (1, 1));
    assert_eq!(d.time.minutes, 1);
    assert_eq!(device.clock.digits_on_display, [1, 2, 0, 1, 10, 10]);
    assert_eq!(drawn, 1);
    // The battery was sampled once on the way, thirty-one seconds in.
    assert_eq!(device.battery.last_battery_timestamp, 31);
}

#[test]
fn the_log_page_shows_what_the_drivers_logged() {
    let (mut device, mut d) = booted();
    let mut board = board();
    // A slide up opens the log.
    board.touch_bytes[1] = 0x02;
    interrupt(&mut device, &board, TOUCH);
    turn(&mut device, &mut d, &board);
    assert_eq!(d.app_page, AppPage::Log);
    let active = device.log.lines_active;
    assert!(active >= 5);
    for line in device.log.lines[..active].iter() {
        assert!(line.stale);
    }
    let (_, hw, _) = turn(&mut device, &mut d, &board);
    assert!(!hw.is_empty());
    for line in device.log.lines[..active].iter() {
        assert!(!line.stale);
    }
    let (_, hw, sleep) = turn(&mut device, &mut d, &board);
    assert_eq!(hw, vec![]);
    assert!(sleep);
}

#[test]
fn the_state_stays_well_formed_and_damage_is_found() {
    let (mut device, mut d) = booted();
    assert!(device.is_wf());
    let mut board = board();
    board.button_pin = PinState::PinLow;
    for _ in 0..20 {
        interrupt(&mut device, &board, BUTTON);
        interrupt(&mut device, &board, CHARGER);
        assert!(device.is_wf());
        turn(&mut device, &mut d, &board);
        assert!(device.is_wf());
    }

    let sound = device.input.event_map;
    device.input.event_map[5].pin = Some(13);
    assert!(!device.input.is_wf());
    assert!(!device.is_wf());
    device.input.event_map = sound;
    device.input.event_map[6].real_time_callback = true;
    assert!(!device.is_wf());
    device.input.event_map = sound;
    assert!(device.is_wf());

    device.input.head = 8;
    assert!(!device.is_wf());
    device.input.head = 0;
    device.input.tail = 3;
    assert!(!device.is_wf());
    device.input.tail = 0;
    device.input.pending = 1;
    device.input.tail = 1;
    device.input.queue[0] = 8;
    assert!(!device.is_wf());
    device.input.queue[0] = BUTTON as u8;
    assert!(device.is_wf());

    assert_eq!(device.button.unhandled_presses, 0);
    device.button.tail = (device.button.head + 1) % 8;
    assert!(!device.is_wf());
    device.button.tail = device.button.head;
    device.clock.time.seconds = 60;
    assert!(!device.is_wf());
    device.clock.time.seconds = 59;
    device.log.lines_active = 16;
    assert!(!device.is_wf());
    device.log.lines_active = 15;
    device.rtc.fraction = 4096;
    assert!(!device.is_wf());
    device.rtc.fraction = 4095;
    assert!(device.is_wf());
}
