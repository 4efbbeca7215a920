//! Event, state and display logic of a wrist-worn nRF52832 device.
//!
//! The library owns every decision the firmware makes: which event channel
//! a pin is bound to, the order in which queued events reach their
//! handlers, which change flags are raised and lowered, when the device
//! may sleep, and the exact byte streams sent to the display. It never
//! touches a register itself. Hardware reads arrive as plain arguments,
//! and every hardware write is recorded as an [`mcu::Action`] that the
//! caller performs on the device.
//!
//! One iteration of the main loop is: drain the event queue with
//! [`mcu::task_handler`] and run the handlers it returns, then call
//! [`task_handler`], perform the actions it recorded, and sleep if it
//! says so.

use vstd::prelude::*;
use crate::app::info::DeviceInfo;
use crate::app::page::home::Home;
use crate::app::page::{stage, Stage};
use crate::drivers::battery::Battery;
use crate::drivers::button::Button;
use crate::drivers::clock::Clock;
use crate::drivers::log::{Log, LogView};
use crate::drivers::touch::Touch;
use crate::mcu::input::Input;
use crate::mcu::rtc::{Rtc, WakeInterval};
use crate::mcu::timer::Timer;
use crate::mcu::{Action, ActionView};

pub mod app;
pub mod config;
pub mod drivers;
pub mod mcu;

verus! {

/// Everything the firmware remembers, apart from the device state that
/// the drivers publish into.
pub struct Device {
    pub input: Input,
    pub rtc: Rtc,
    pub timer: Timer,
    pub battery: Battery,
    pub button: Button,
    pub clock: Clock,
    pub log: Log,
    pub touch: Touch,
    pub home: Home,
    /// Whether the clock face counts 24 hours.
    pub is_military_time: bool,
}

impl Device {
    /// Every part that has an invariant is well-formed.
    pub open spec fn wf(&self) -> bool {
        &&& self.input.wf()
        &&& self.rtc.wf()
        &&& self.button.wf()
        &&& self.clock.wf()
        &&& self.log.wf()
    }

    /// Whether every part is well-formed, for a caller that cannot know.
    pub fn is_wf(&self) -> (ok: bool)
        ensures
            ok == self.wf(),
    {
        self.input.is_wf() && self.rtc.is_wf() && self.button.is_wf() && self.clock.is_wf()
            && self.log.is_wf()
    }

    /// Whether no driver has anything new to publish when the time is
    /// `self.rtc`: no battery sample is due, the charger is as last
    /// published, no press waits, no minute begins and no touch event
    /// waits.
    pub open spec fn quiet(&self) -> bool {
        &&& !self.battery.sample_due(self.rtc)
        &&& !self.battery.charger_changed()
        &&& self.button@.len() == 0
        &&& !self.clock.minute_begins(self.rtc)
        &&& !self.touch.unhandled_events
    }

    /// The device state after the drivers have taken their turns on `d`,
    /// in their fixed order: clock, battery, button, touch. `raw` is the
    /// ADC reading taken for the turn.
    pub open spec fn produced(&self, d: DeviceInfo, raw: u16) -> DeviceInfo {
        drivers::touch::publish(
            self.touch,
            drivers::button::publish(
                self.button@,
                self.battery.publish(self.clock.publish(d, self.rtc), self.rtc, raw),
            ),
        )
    }

    /// The log after it has been shown and the drivers have taken their
    /// turns on `d`.
    pub open spec fn logged(&self, d: DeviceInfo, raw: u16) -> LogView {
        let shown = drivers::log::after_turn(self.log@, d.app_page);
        let battery = drivers::battery::logged(self.battery, shown, self.rtc, raw);
        let button = drivers::button::logged(
            self.button@,
            self.battery.publish(self.clock.publish(d, self.rtc), self.rtc, raw),
            battery,
        );
        if self.touch.unhandled_events {
            drivers::touch::event_logged(button, drivers::touch::parse(self.touch.last_event_buffer@))
        } else {
            button
        }
    }

    /// The stage on which the application takes its turn: what the
    /// drivers have made of `d` and of the log, and what showing the log
    /// has drawn after `actions`.
    pub open spec fn produced_stage(&self, d: DeviceInfo, actions: Seq<ActionView>, raw: u16) -> Stage {
        Stage {
            d: self.produced(d, raw),
            face: self.clock.digits_on_display@,
            log: self.logged(d, raw),
            actions: actions + drivers::log::task_handler_actions(self.log@, d.app_page),
        }
    }

    /// The stage after a whole turn of the task loop.
    pub open spec fn turned(&self, d: DeviceInfo, actions: Seq<ActionView>, raw: u16, splash: Seq<u8>) -> Stage {
        app::turned(
            self.home,
            self.produced_stage(d, actions, raw),
            self.rtc,
            self.clock.time_after(self.rtc),
            splash,
            self.is_military_time,
        )
    }
}

/// The channel table after boot: the charger, the button and the touch
/// controller hold the first three channels, in that order.
pub open spec fn booted_slots() -> Seq<mcu::input::InputQueueEntry> {
    Seq::new(
        mcu::input::EVENT_LEN as nat,
        |i: int| if i == 0 {
            mcu::input::bound(drivers::battery::spec_charger_connect_pin())
        } else if i == 1 {
            mcu::input::bound(drivers::button::spec_button_press_config())
        } else if i == 2 {
            mcu::input::bound(drivers::touch::spec_touch_int_pin_config())
        } else {
            mcu::input::unbound()
        },
    )
}

/// What boot requests of the hardware: the real-time counter is started,
/// the display is brought up, and the pins of the charger, the button
/// and the touch controller are bound, each to the next free channel.
pub open spec fn init_actions(wake_interval: WakeInterval) -> Seq<ActionView> {
    seq![ActionView::RtcStart { wake_interval: wake_interval.spec_ticks() }]
        + drivers::lcd::lcd_api::init_actions() + mcu::input::init_pin_actions(
        mcu::input::fresh_input(),
        drivers::battery::spec_charger_connect_pin(),
    ) + drivers::button::init_actions(mcu::input::fresh_input().bind(drivers::battery::spec_charger_connect_pin()))
        + drivers::touch::init_actions(
        mcu::input::fresh_input().bind(drivers::battery::spec_charger_connect_pin()).bind(
            drivers::button::spec_button_press_config(),
        ),
    )
}

/// Boots the firmware.
///
/// The result holds the three bindings in the first three channels, an
/// empty queue, a log that holds its header, and a clock one second
/// after midnight. The charger counts as disconnected until its handler
/// has run: the caller runs it once the pin has been set up.
pub fn init(hw: &mut Vec<Action>, wake_interval: WakeInterval, is_military_time: bool) -> (device: Device)
    ensures
        device.wf(),
        device.input@.slots == booted_slots(),
        device.input@.queued == Seq::<u8>::empty(),
        device.rtc == (Rtc {
            initialized: true,
            wake_interval: wake_interval.spec_ticks(),
            fraction: 0,
            seconds: 0,
        }),
        device.timer == (Timer { count: 0, running: false }),
        device.battery == (Battery {
            charger_connected: false,
            last_battery_timestamp: 0,
            last_battery_state: 0,
            last_battery_voltage: 0,
            last_charger_connected: false,
        }),
        device.button@ == Seq::<bool>::empty(),
        device.clock.time == (drivers::clock::Time { hours: 0, minutes: 0, seconds: 1 }),
        device.clock.last_timestamp == 0,
        device.log@.lines_active == 1,
        !device.touch.unhandled_events,
        device.home == (Home {
            press_timer_running: false,
            last_press_time: 0,
            showing_restart_warning: false,
        }),
        device.is_military_time == is_military_time,
        final(hw).deep_view() == old(hw).deep_view() + init_actions(wake_interval),
{
    let mut device = Device {
        input: Input::new(),
        rtc: Rtc::new(),
        timer: Timer::new(),
        battery: Battery::new(),
        button: Button::new(),
        clock: Clock::new(),
        log: Log::new(),
        touch: Touch::new(),
        home: Home::new(),
        is_military_time,
    };
    mcu::rtc::init(&mut device.rtc, hw, wake_interval);

    drivers::lcd::lcd_api::init(hw);
    drivers::log::init(&mut device.log);

    let _ = mcu::input::init_pin(&mut device.input, hw, drivers::battery::charger_connect_pin());
    let _ = drivers::button::init(&mut device.input, hw);
    drivers::clock::init(&mut device.clock);
    let _ = drivers::touch::init(&mut device.input, hw);
    proof {
        lemma_boot_bindings();
        assert(device.input@.slots =~= booted_slots());
        assert(hw.deep_view() =~= old(hw).deep_view() + init_actions(wake_interval));
    }
    device
}

/// On a fresh table the three pins of the drivers take the first three
/// channels.
pub proof fn lemma_boot_bindings()
    ensures
        mcu::input::fresh_input().wf(),
        mcu::input::fresh_input().bind_result(drivers::battery::spec_charger_connect_pin()) == Ok::<
            usize,
            mcu::input::BindError,
        >(0),
        mcu::input::fresh_input().bind(drivers::battery::spec_charger_connect_pin()).bind_result(
            drivers::button::spec_button_press_config(),
        ) == Ok::<usize, mcu::input::BindError>(1),
        mcu::input::fresh_input().bind(drivers::battery::spec_charger_connect_pin()).bind(
            drivers::button::spec_button_press_config(),
        ).bind_result(drivers::touch::spec_touch_int_pin_config()) == Ok::<
            usize,
            mcu::input::BindError,
        >(2),
{
    let charger = drivers::battery::spec_charger_connect_pin();
    let button = drivers::button::spec_button_press_config();
    let touch = drivers::touch::spec_touch_int_pin_config();
    let t0 = mcu::input::fresh_input();
    assert(!t0.is_bound(charger.pin));
    assert(mcu::input::first_slot_for(t0.slots, charger.pin, 0) == 0);
    let t1 = t0.bind(charger);
    assert(!t1.is_bound(button.pin)) by {
        assert forall|e: int| 0 <= e < t1.slots.len() implies #[trigger] t1.slots[e].pin != Some(
            button.pin,
        ) by {}
    }
    reveal_with_fuel(mcu::input::first_slot_for, 4);
    assert(mcu::input::first_slot_for(t1.slots, button.pin, 0) == 1);
    let t2 = t1.bind(button);
    assert(!t2.is_bound(touch.pin)) by {
        assert forall|e: int| 0 <= e < t2.slots.len() implies #[trigger] t2.slots[e].pin != Some(
            touch.pin,
        ) by {}
    }
    assert(mcu::input::first_slot_for(t2.slots, touch.pin, 0) == 2);
}

/// One turn of the task loop, after the handlers of the drained events
/// have run.
///
/// The log is shown if its page is open. Then each driver takes its
/// turn, in fixed order: clock, battery, button, touch. `raw` is the ADC
/// reading taken for this turn; it is looked at only if a battery sample
/// is due (see [`drivers::battery::sample_due`]). Last the application
/// takes its turn on what the drivers have published; `splash` is the
/// image of the startup page. Returns whether the device may sleep until
/// the next interrupt.
pub fn task_handler(
    device: &mut Device,
    d: &mut DeviceInfo,
    hw: &mut Vec<Action>,
    raw: u16,
    splash: &[u8],
) -> (sleep: bool)
    requires
        old(device).wf(),
    ensures
        final(device).wf(),
        final(device).input == old(device).input,
        final(device).rtc == old(device).rtc,
        final(device).timer == old(device).timer,
        final(device).is_military_time == old(device).is_military_time,
        final(device).battery == old(device).battery.after_turn(old(device).rtc, raw),
        final(device).button@ == drivers::button::after_turn(old(device).button@),
        final(device).clock.time == old(device).clock.time_after(old(device).rtc),
        final(device).clock.last_timestamp == if old(device).clock.second_due(old(device).rtc) {
            old(device).rtc.seconds
        } else {
            old(device).clock.last_timestamp
        },
        final(device).touch.last_event_buffer == old(device).touch.last_event_buffer,
        !final(device).touch.unhandled_events,
        final(device).home == app::turned_home(
            old(device).home,
            old(device).produced(*old(d), raw),
            old(device).rtc,
        ),
        stage(*final(d), final(device).clock, final(device).log, *final(hw)) == old(device).turned(
            *old(d),
            old(hw).deep_view(),
            raw,
            splash@,
        ),
        sleep == !app::busy(*final(d), old(device).timer),
{
    drivers::log::task_handler(&mut device.log, d, hw);
    drivers::clock::task_handler(&mut device.clock, d, &device.rtc);
    drivers::battery::task_handler(&mut device.battery, d, &device.rtc, &mut device.log, raw);
    drivers::button::task_handler(&mut device.button, d, &mut device.log);
    drivers::touch::task_handler(&mut device.touch, d, &mut device.log);
    assert(stage(*d, device.clock, device.log, *hw) =~~= old(device).produced_stage(
        *old(d),
        old(hw).deep_view(),
        raw,
    ));

    app::task_handler(
        &mut device.home,
        d,
        &mut device.clock,
        &mut device.log,
        &device.rtc,
        &device.timer,
        hw,
        splash,
        device.is_military_time,
    )
}

/// No flag is raised without cause. After a turn of the task loop in
/// which no driver has anything new to publish, every flag of a driver
/// is lowered, whatever it was before, and no other flag is raised that
/// was not raised before: a flag that its consumer has lowered stays
/// lowered.
pub proof fn law_no_spurious_flags(device: Device, d: DeviceInfo, actions: Seq<ActionView>, raw: u16, splash: Seq<u8>)
    requires
        device.quiet(),
    ensures
        device.turned(d, actions, raw, splash).d.change_flags.none_raised(d.change_flags),
        !device.turned(d, actions, raw, splash).d.change_flags.battery_voltage,
        !device.turned(d, actions, raw, splash).d.change_flags.button_press,
        !device.turned(d, actions, raw, splash).d.change_flags.charger_state,
        !device.turned(d, actions, raw, splash).d.change_flags.display_state,
        !device.turned(d, actions, raw, splash).d.change_flags.time_change,
        !device.turned(d, actions, raw, splash).d.change_flags.touch_event,
{
    let produced = device.produced_stage(d, actions, raw);
    assert(!produced.d.change_flags.battery_voltage);
    assert(!produced.d.change_flags.button_press);
    assert(!produced.d.change_flags.charger_state);
    assert(!produced.d.change_flags.time_change);
    assert(!produced.d.change_flags.touch_event);
    assert(produced.d.change_flags.app_page == d.change_flags.app_page);
    assert(produced.d.change_flags.display_state == d.change_flags.display_state);
    app::law_application_lowers_flags(
        device.home,
        produced,
        device.rtc,
        device.clock.time_after(device.rtc),
        splash,
        device.is_military_time,
    );
}

} // verus!
