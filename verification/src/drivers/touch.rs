//! The touch controller.
//!
//! The controller raises its interrupt line when it has an event. The
//! event must be read before the controller clears it, so the line is
//! bound as real-time and the read happens in interrupt context. The
//! task loop later turns the bytes read into a touch event.

use vstd::prelude::*;
use vstd::string::StringSliceAdditionalSpecFns;
use crate::app::info::{DeviceInfo, DeviceInfoChangeFlags};
use crate::config;
use crate::drivers::log;
use crate::drivers::log::{Log, LogView};
use crate::mcu::gpio::{pin_setup, PinDirection, PinPull, PinState};
use crate::mcu::i2c::I2cError;
use crate::mcu::input;
use crate::mcu::input::{BindError, Callback, Input, PinConfig, Polarity};
use crate::mcu::{Action, ActionView};

verus! {

#[derive(Clone, Copy, Debug, PartialEq, Eq, Structural)]
pub enum Gesture {
    /// No gesture was recognised.
    NoGesture,
    SlideDown,
    SlideUp,
    SlideLeft,
    SlideRight,
    SinglePress,
    DoublePress,
    LongPress,
    Unknown,
}

#[derive(Clone, Copy, Debug, PartialEq, Eq, Structural)]
pub enum Event {
    Down,
    Up,
    Contact,
    Unknown,
}

#[derive(Clone, Copy, Debug, PartialEq, Eq, Structural)]
pub struct TouchEvent {
    pub gesture: Gesture,
    pub event: Event,
    pub x: u16,
    pub y: u16,
    pub pressure: u8,
}

/// Bytes read from the controller for one event.
pub const TOUCH_EVENT_READ_LEN: usize = 63;

/// What the driver remembers between turns.
pub struct Touch {
    pub last_event_buffer: [u8; 63],
    pub unhandled_events: bool,
}

/// How the controller's interrupt line is armed.
pub open spec fn spec_touch_int_pin_config() -> PinConfig {
    PinConfig {
        pin: config::TOUCH_INT_PIN,
        polarity: Polarity::HiToLo,
        pull: PinPull::PullDisabled,
        callback: Callback::Touch,
        real_time_callback: true,
    }
}

#[verifier::when_used_as_spec(spec_touch_int_pin_config)]
pub fn touch_int_pin_config() -> (config: PinConfig)
    ensures
        config == spec_touch_int_pin_config(),
{
    PinConfig {
        pin: config::TOUCH_INT_PIN,
        polarity: Polarity::HiToLo,
        pull: PinPull::PullDisabled,
        callback: Callback::Touch,
        real_time_callback: true,
    }
}

impl Touch {
    /// The driver with nothing read yet.
    pub fn new() -> (touch: Touch)
        ensures
            !touch.unhandled_events,
            touch.last_event_buffer@ == Seq::new(TOUCH_EVENT_READ_LEN as nat, |i: int| 0u8),
    {
        let touch = Touch { last_event_buffer: [0;63], unhandled_events: false };
        assert(touch.last_event_buffer@ =~= Seq::new(TOUCH_EVENT_READ_LEN as nat, |i: int| 0u8));
        touch
    }
}

/// The hardware operations of [`init`].
pub open spec fn init_actions(input: input::InputView) -> Seq<ActionView> {
    seq![
        ActionView::PinSetup {
            pin: config::TOUCH_RESET_PIN,
            dir: PinDirection::Output,
            state: PinState::PinHigh,
            pull: PinPull::PullDisabled,
        },
    ] + input::init_pin_actions(input, spec_touch_int_pin_config())
}

/// Releases the controller's reset line and binds its interrupt line.
pub fn init(input: &mut Input, hw: &mut Vec<Action>) -> (bind: Result<usize, BindError>)
    requires
        old(input).wf(),
    ensures
        final(input).wf(),
        bind == old(input)@.bind_result(spec_touch_int_pin_config()),
        final(input)@ == old(input)@.bind(spec_touch_int_pin_config()),
        final(hw).deep_view() == old(hw).deep_view() + init_actions(old(input)@),
{
    // Init the input interrupt
    pin_setup(
        hw,
        config::TOUCH_RESET_PIN,
        PinDirection::Output,
        PinState::PinHigh,
        PinPull::PullDisabled,
    );
    let bind = input::init_pin(input, hw, touch_int_pin_config());
    assert(hw.deep_view() =~= old(hw).deep_view() + init_actions(old(input)@));
    bind
}

/// A coordinate is twelve bits: the low four bits of `raw_msb`, then the
/// eight bits of `raw_lsb`.
pub open spec fn coordinate(raw_msb: u8, raw_lsb: u8) -> u16 {
    ((raw_msb % 16) * 256 + raw_lsb) as u16
}

pub fn get_coordinate(raw_msb: u8, raw_lsb: u8) -> (c: u16)
    ensures
        c == coordinate(raw_msb, raw_lsb),
{
    let mut c: u16 = ((raw_msb & 0x0F) as u16) << 8;
    c = c | (raw_lsb as u16);
    assert(c == (raw_msb % 16) as u16 * 256 + raw_lsb as u16) by (bit_vector)
        requires
            c == (((raw_msb & 0x0F) as u16) << 8) | (raw_lsb as u16),
    ;
    c
}

/// The event is the top two bits of its byte.
pub open spec fn event(raw: u8) -> Event {
    if raw / 64 == 0 {
        Event::Down
    } else if raw / 64 == 1 {
        Event::Up
    } else if raw / 64 == 2 {
        Event::Contact
    } else {
        Event::Unknown
    }
}

pub fn get_event(raw: u8) -> (e: Event)
    ensures
        e == event(raw),
{
    let code: u8 = (raw & 0xC0) >> 6;
    assert(code == raw / 64) by (bit_vector)
        requires
            code == (raw & 0xC0) >> 6,
    ;
    match code {
        0 => Event::Down,
        1 => Event::Up,
        2 => Event::Contact,
        _ => Event::Unknown,
    }
}

pub open spec fn event_string(event: Event) -> &'static str {
    match event {
        Event::Down => "touch: down event",
        Event::Up => "touch: up event",
        Event::Contact => "touch: contact",
        Event::Unknown => "touch: unknown",
    }
}

pub fn get_event_string(event: Event) -> (s: &'static str)
    ensures
        s == event_string(event),
{
    match event {
        Event::Down => "touch: down event",
        Event::Up => "touch: up event",
        Event::Contact => "touch: contact",
        Event::Unknown => "touch: unknown",
    }
}

pub open spec fn gesture(raw: u8) -> Gesture {
    match raw {
        0x0 => Gesture::NoGesture,
        0x1 => Gesture::SlideDown,
        0x2 => Gesture::SlideUp,
        0x3 => Gesture::SlideLeft,
        0x4 => Gesture::SlideRight,
        0x5 => Gesture::SinglePress,
        0xB => Gesture::DoublePress,
        0xC => Gesture::LongPress,
        _ => Gesture::Unknown,
    }
}

pub fn get_gesture(raw: u8) -> (g: Gesture)
    ensures
        g == gesture(raw),
{
    match raw {
        0x0 => Gesture::NoGesture,
        0x1 => Gesture::SlideDown,
        0x2 => Gesture::SlideUp,
        0x3 => Gesture::SlideLeft,
        0x4 => Gesture::SlideRight,
        0x5 => Gesture::SinglePress,
        0xB => Gesture::DoublePress,
        0xC => Gesture::LongPress,
        _ => Gesture::Unknown,
    }
}

pub open spec fn gesture_string(gesture: Gesture) -> &'static str {
    match gesture {
        Gesture::NoGesture => "touch: gesture none",
        Gesture::SlideDown => "touch: slide down",
        Gesture::SlideUp => "touch: slide up",
        Gesture::SlideLeft => "touch: slide left",
        Gesture::SlideRight => "touch: slide right",
        Gesture::SinglePress => "touch: single press",
        Gesture::DoublePress => "touch: double press",
        Gesture::LongPress => "touch: long press",
        Gesture::Unknown => "touch: gesture unknown",
    }
}

pub fn get_gesture_string(gesture: Gesture) -> (s: &'static str)
    ensures
        s == gesture_string(gesture),
{
    match gesture {
        Gesture::NoGesture => "touch: gesture none",
        Gesture::SlideDown => "touch: slide down",
        Gesture::SlideUp => "touch: slide up",
        Gesture::SlideLeft => "touch: slide left",
        Gesture::SlideRight => "touch: slide right",
        Gesture::SinglePress => "touch: single press",
        Gesture::DoublePress => "touch: double press",
        Gesture::LongPress => "touch: long press",
        Gesture::Unknown => "touch: gesture unknown",
    }
}

pub fn get_pressure(raw: u8) -> (pressure: u8)
    ensures
        pressure == raw,
{
    raw
}

/// The touch event that the bytes read from the controller stand for.
pub open spec fn parse(buffer: Seq<u8>) -> TouchEvent {
    TouchEvent {
        gesture: gesture(buffer[1]),
        event: event(buffer[3]),
        x: coordinate(buffer[3], buffer[4]),
        y: coordinate(buffer[5], buffer[6]),
        pressure: buffer[7],
    }
}

/// The text before the x coordinate in the log.
pub open spec fn x_text() -> &'static str {
    "touch: x "
}

/// The text before the y coordinate in the log.
pub open spec fn y_text() -> &'static str {
    "touch: y "
}

/// The log after `touch` has been read: its gesture, its event and its
/// two coordinates, one entry each.
pub open spec fn event_logged(log: LogView, touch: TouchEvent) -> LogView {
    log.push(gesture_string(touch.gesture).spec_bytes()).push(
        event_string(touch.event).spec_bytes(),
    ).push_number(x_text().spec_bytes(), touch.x as u32).push_number(
        y_text().spec_bytes(),
        touch.y as u32,
    )
}

fn log_coordinate(log: &mut Log, vertical: bool, c: u16)
    requires
        old(log).wf(),
        c < 4096,
    ensures
        final(log).wf(),
        final(log)@ == old(log)@.push_number(
            if vertical {
                y_text().spec_bytes()
            } else {
                x_text().spec_bytes()
            },
            c as u32,
        ),
{
    proof {
        reveal_strlit("touch: x ");
        reveal_strlit("touch: y ");
        vstd::string::is_ascii_spec_bytes("touch: x ");
        vstd::string::is_ascii_spec_bytes("touch: y ");
        reveal_with_fuel(log::num_len, 6);
    }
    if vertical {
        log::push_log_number(log, "touch: y ", &(c as u32));
    } else {
        log::push_log_number(log, "touch: x ", &(c as u32));
    }
}

fn read_event(touch: &Touch, log: &mut Log) -> (event: TouchEvent)
    requires
        old(log).wf(),
    ensures
        final(log).wf(),
        event == parse(touch.last_event_buffer@),
        final(log)@ == event_logged(old(log)@, event),
{
    let event: TouchEvent = TouchEvent {
        gesture: get_gesture(touch.last_event_buffer[1]),
        event: get_event(touch.last_event_buffer[3]),
        x: get_coordinate(touch.last_event_buffer[3], touch.last_event_buffer[4]),
        y: get_coordinate(touch.last_event_buffer[5], touch.last_event_buffer[6]),
        pressure: get_pressure(touch.last_event_buffer[7]),
    };

    log::push_log(log, get_gesture_string(event.gesture));
    log::push_log(log, get_event_string(event.event));
    log_coordinate(log, false, event.x);
    log_coordinate(log, true, event.y);

    event
}

/// The text that logs a failed read.
pub open spec fn failed_text() -> &'static str {
    "Failed to read touch sensor"
}

/// The handler of the controller's event, after the read it calls for.
/// `read` is the outcome of the bus transaction and `buffer` holds the
/// bytes it left behind. The bytes are kept; a read that succeeded waits
/// for the next turn, and one that failed is logged.
pub fn touch_handler(touch: &mut Touch, log: &mut Log, read: Result<(), I2cError>, buffer: &[u8; 63])
    requires
        old(log).wf(),
    ensures
        final(log).wf(),
        final(touch).last_event_buffer == *buffer,
        final(touch).unhandled_events == (old(touch).unhandled_events || read is Ok),
        final(log)@ == if read is Ok {
            old(log)@
        } else {
            old(log)@.push(failed_text().spec_bytes())
        },
{
    touch.last_event_buffer = *buffer;
    if let Err(_e) = read {
        log::push_log(log, "Failed to read touch sensor");
    } else {
        touch.unhandled_events = true;
    }
}

/// The device state after a turn of a driver: the driver's flag is
/// lowered; an event that waits is published with the flag raised.
pub open spec fn publish(touch: Touch, d: DeviceInfo) -> DeviceInfo {
    if touch.unhandled_events {
        DeviceInfo {
            change_flags: DeviceInfoChangeFlags { touch_event: true, ..d.change_flags },
            touch: parse(touch.last_event_buffer@),
            ..d
        }
    } else {
        DeviceInfo {
            change_flags: DeviceInfoChangeFlags { touch_event: false, ..d.change_flags },
            ..d
        }
    }
}

/// One turn of the driver: the flag raised in the last turn is lowered,
/// and an event that waits is read from the bytes kept, logged and
/// published.
pub fn task_handler(touch: &mut Touch, d: &mut DeviceInfo, log: &mut Log)
    requires
        old(log).wf(),
    ensures
        final(log).wf(),
        final(touch).last_event_buffer == old(touch).last_event_buffer,
        !final(touch).unhandled_events,
        *final(d) == publish(*old(touch), *old(d)),
        final(log)@ == if old(touch).unhandled_events {
            event_logged(old(log)@, parse(old(touch).last_event_buffer@))
        } else {
            old(log)@
        },
{
    if d.change_flags.touch_event {
        d.change_flags.touch_event = false;
    }
    if touch.unhandled_events {
        touch.unhandled_events = false;
        d.touch = read_event(touch, log);
        d.change_flags.touch_event = true;
    }
}

} // verus!
