//! The battery and the charger.
//!
//! The battery voltage is sampled at most once in
//! [`BATTERY_CHECK_INTERVAL`] seconds. The charger reports through an
//! event on its pin.

use vstd::prelude::*;
use vstd::string::StringSliceAdditionalSpecFns;
use crate::app::info::{DeviceInfo, DeviceInfoChangeFlags, DeviceInfoFlags};
use crate::config;
use crate::drivers::log;
use crate::drivers::log::{Log, LogView};
use crate::mcu::gpio::{PinPull, PinState};
use crate::mcu::input;
use crate::mcu::input::{BindError, Callback, Input, PinConfig, Polarity};
use crate::mcu::rtc;
use crate::mcu::rtc::Rtc;
use crate::mcu::Action;

verus! {

#[derive(Clone, Copy, Debug, PartialEq, Eq, Structural)]
pub enum BatteryLevel {
    Level4,
    Level3,
    Level2,
    Level1,
    Level0,
}

impl BatteryLevel {
    /// The level as a number, 0 (empty) to 4 (full).
    pub open spec fn spec_level(self) -> u8 {
        match self {
            BatteryLevel::Level4 => 4,
            BatteryLevel::Level3 => 3,
            BatteryLevel::Level2 => 2,
            BatteryLevel::Level1 => 1,
            BatteryLevel::Level0 => 0,
        }
    }

    #[verifier::when_used_as_spec(spec_level)]
    pub fn level(self) -> (level: u8)
        ensures
            level == self.spec_level(),
    {
        match self {
            BatteryLevel::Level4 => 4,
            BatteryLevel::Level3 => 3,
            BatteryLevel::Level2 => 2,
            BatteryLevel::Level1 => 1,
            BatteryLevel::Level0 => 0,
        }
    }
}

/// Seconds between two samples of the battery voltage.
pub const BATTERY_CHECK_INTERVAL: u32 = 30;

/// What the driver remembers between turns.
#[derive(Clone, Copy, Debug, PartialEq, Eq, Structural)]
pub struct Battery {
    /// Whether the charger was connected at its last event.
    pub charger_connected: bool,
    pub last_battery_timestamp: u32,
    pub last_battery_state: u8,
    pub last_battery_voltage: u16,
    pub last_charger_connected: bool,
}

/// How the charger's pin is armed.
pub open spec fn spec_charger_connect_pin() -> PinConfig {
    PinConfig {
        pin: config::CHARGER_CONNECTED_PIN,
        polarity: Polarity::HiToLo,
        pull: PinPull::PullUp,
        callback: Callback::Connect,
        real_time_callback: false,
    }
}

#[verifier::when_used_as_spec(spec_charger_connect_pin)]
pub fn charger_connect_pin() -> (config: PinConfig)
    ensures
        config == spec_charger_connect_pin(),
{
    PinConfig {
        pin: config::CHARGER_CONNECTED_PIN,
        polarity: Polarity::HiToLo,
        pull: PinPull::PullUp,
        callback: Callback::Connect,
        real_time_callback: false,
    }
}

/// The battery level that a voltage stands for: one level for every ten
/// units above 320.
pub open spec fn battery_level(voltage: u16) -> BatteryLevel {
    if voltage > 350 {
        BatteryLevel::Level4
    } else if voltage > 340 {
        BatteryLevel::Level3
    } else if voltage > 330 {
        BatteryLevel::Level2
    } else if voltage > 320 {
        BatteryLevel::Level1
    } else {
        BatteryLevel::Level0
    }
}

/// The battery voltage that an ADC reading stands for. The battery is
/// read through a divider by two, with a gain of 1/6 against a reference
/// of 0.6 V, so that the full scale of 4095 stands for 3.6 V at the pin
/// and 7.2 V at the battery. The result is `raw * 2000 / 1137`, rounded
/// down and kept to 16 bits.
pub open spec fn battery_voltage(raw: u16) -> u16 {
    (((raw * 2000) / 1137) % 0x10000) as u16
}

impl Battery {
    /// The driver before its first turn.
    pub fn new() -> (battery: Battery)
        ensures
            battery == (Battery {
                charger_connected: false,
                last_battery_timestamp: 0,
                last_battery_state: 0,
                last_battery_voltage: 0,
                last_charger_connected: false,
            }),
    {
        Battery {
            charger_connected: false,
            last_battery_timestamp: 0,
            last_battery_state: 0,
            last_battery_voltage: 0,
            last_charger_connected: false,
        }
    }

    /// Whether the next turn samples the battery when the time is `rtc`.
    pub open spec fn sample_due(self, rtc: Rtc) -> bool {
        rtc.elapsed(self.last_battery_timestamp) > BATTERY_CHECK_INTERVAL
    }

    /// Whether a turn at time `rtc` with ADC reading `raw` finds a new
    /// battery voltage.
    pub open spec fn voltage_changed(self, rtc: Rtc, raw: u16) -> bool {
        self.sample_due(rtc) && self.last_battery_voltage != battery_voltage(raw)
    }

    /// Whether a turn finds the charger in a new state.
    pub open spec fn charger_changed(self) -> bool {
        self.last_charger_connected != self.charger_connected
    }

    /// The driver after the sampling part of a turn at time `rtc` with
    /// ADC reading `raw`.
    pub open spec fn sampled(self, rtc: Rtc, raw: u16) -> Battery {
        if self.sample_due(rtc) {
            Battery {
                last_battery_timestamp: rtc.seconds,
                last_battery_voltage: battery_voltage(raw),
                last_battery_state: if self.voltage_changed(rtc, raw) {
                    battery_level(battery_voltage(raw)).spec_level()
                } else {
                    self.last_battery_state
                },
                ..self
            }
        } else {
            self
        }
    }

    /// The device state after the sampling part of a turn: a new voltage
    /// is published with its flag raised, and the level with it if that
    /// is new too.
    pub open spec fn publish_sample(self, d: DeviceInfo, rtc: Rtc, raw: u16) -> DeviceInfo {
        if self.voltage_changed(rtc, raw) {
            DeviceInfo {
                change_flags: DeviceInfoChangeFlags { battery_voltage: true, ..d.change_flags },
                battery_voltage: battery_voltage(raw),
                battery_level: if self.last_battery_state != battery_level(
                    battery_voltage(raw),
                ).spec_level() {
                    battery_level(battery_voltage(raw))
                } else {
                    d.battery_level
                },
                ..d
            }
        } else {
            d
        }
    }

    /// The driver after the charger's part of a turn.
    pub open spec fn charger_seen(self) -> Battery {
        Battery { last_charger_connected: self.charger_connected, ..self }
    }

    /// The device state after the charger's part of a turn: a new
    /// charger state is published with its flag raised.
    pub open spec fn publish_charger(self, d: DeviceInfo) -> DeviceInfo {
        if self.charger_changed() {
            DeviceInfo {
                change_flags: DeviceInfoChangeFlags { charger_state: true, ..d.change_flags },
                flags: DeviceInfoFlags { charger_connected: self.charger_connected, ..d.flags },
                ..d
            }
        } else {
            d
        }
    }

    /// The driver after a turn at time `rtc` with ADC reading `raw`.
    pub open spec fn after_turn(self, rtc: Rtc, raw: u16) -> Battery {
        self.sampled(rtc, raw).charger_seen()
    }

    /// The device state after a turn at time `rtc` with ADC reading
    /// `raw`: the driver's two flags are lowered, then raised again for
    /// each value that is new.
    pub open spec fn publish(self, d: DeviceInfo, rtc: Rtc, raw: u16) -> DeviceInfo {
        self.publish_charger(self.publish_sample(lowered(d), rtc, raw))
    }
}

/// The device state with the driver's two flags lowered.
pub open spec fn lowered(d: DeviceInfo) -> DeviceInfo {
    DeviceInfo {
        change_flags: DeviceInfoChangeFlags {
            battery_voltage: false,
            charger_state: false,
            ..d.change_flags
        },
        ..d
    }
}

/// Binds the charger's pin and takes the charger's state from
/// `charger_pin`, the level of that pin.
pub fn init(battery: &mut Battery, input: &mut Input, hw: &mut Vec<Action>, charger_pin: PinState) -> (bind:
    Result<usize, BindError>)
    requires
        old(input).wf(),
    ensures
        final(input).wf(),
        bind == old(input)@.bind_result(spec_charger_connect_pin()),
        final(input)@ == old(input)@.bind(spec_charger_connect_pin()),
        final(hw).deep_view() == old(hw).deep_view() + input::init_pin_actions(
            old(input)@,
            spec_charger_connect_pin(),
        ),
        *final(battery) == (Battery {
            charger_connected: charger_pin == PinState::PinLow,
            ..*old(battery)
        }),
{
    let bind = input::init_pin(input, hw, charger_connect_pin());
    connect_handler(battery, charger_pin);
    bind
}

/// The handler of the charger's event: the charger is connected when its
/// pin, whose level is `charger_pin`, is low.
pub fn connect_handler(battery: &mut Battery, charger_pin: PinState)
    ensures
        *final(battery) == (Battery {
            charger_connected: charger_pin == PinState::PinLow,
            ..*old(battery)
        }),
{
    battery.charger_connected = match charger_pin {
        PinState::PinHigh => false,
        PinState::PinLow => true,
    };
}

fn get_battery_level(voltage: u16) -> (level: BatteryLevel)
    ensures
        level == battery_level(voltage),
{
    if voltage > 350 {
        BatteryLevel::Level4
    } else if voltage > 340 {
        BatteryLevel::Level3
    } else if voltage > 330 {
        BatteryLevel::Level2
    } else if voltage > 320 {
        BatteryLevel::Level1
    } else {
        BatteryLevel::Level0
    }
}

fn get_battery_voltage(raw: u16) -> (voltage: u16)
    ensures
        voltage == battery_voltage(raw),
{
    let raw = raw as u32;

    // raw * 2000 / (4095.0 / 3.6)
    let voltage: u32 = (raw * 2000) / 1137;
    assert(voltage as u16 == voltage % 0x10000) by (bit_vector);
    #[verifier::truncate]
    (voltage as u16)
}

/// Whether the next turn at time `rtc` samples the battery, so that the
/// caller takes an ADC reading for it.
pub fn sample_due(battery: &Battery, rtc: &Rtc) -> (due: bool)
    ensures
        due == battery.sample_due(*rtc),
{
    rtc::get_timediff(rtc, battery.last_battery_timestamp) > BATTERY_CHECK_INTERVAL
}

/// The text before a voltage in the log.
pub open spec fn battery_text() -> &'static str {
    "Battery: "
}

/// The text before a charger state in the log.
pub open spec fn charger_text() -> &'static str {
    "Charger state: "
}

/// The log after the sampling part of a turn: a sampled voltage is
/// logged.
pub open spec fn sample_logged(battery: Battery, log: LogView, rtc: Rtc, raw: u16) -> LogView {
    if battery.sample_due(rtc) {
        log.push_number(battery_text().spec_bytes(), battery_voltage(raw) as u32)
    } else {
        log
    }
}

/// The log after the charger's part of a turn: a new charger state is
/// logged as 1 or 0.
pub open spec fn charger_logged(battery: Battery, log: LogView) -> LogView {
    if battery.charger_changed() {
        log.push_number(
            charger_text().spec_bytes(),
            if battery.charger_connected {
                1u32
            } else {
                0u32
            },
        )
    } else {
        log
    }
}

/// The log after a turn at time `rtc` with ADC reading `raw`.
pub open spec fn logged(battery: Battery, log: LogView, rtc: Rtc, raw: u16) -> LogView {
    charger_logged(battery, sample_logged(battery, log, rtc, raw))
}

fn sample(battery: &mut Battery, d: &mut DeviceInfo, rtc: &Rtc, log: &mut Log, raw: u16)
    requires
        old(log).wf(),
    ensures
        final(log).wf(),
        *final(battery) == old(battery).sampled(*rtc, raw),
        *final(d) == old(battery).publish_sample(*old(d), *rtc, raw),
        final(log)@ == sample_logged(*old(battery), old(log)@, *rtc, raw),
{
    if rtc::get_timediff(rtc, battery.last_battery_timestamp) > BATTERY_CHECK_INTERVAL {
        battery.last_battery_timestamp = rtc::get_timestamp(rtc);
        let tmp_voltage = get_battery_voltage(raw);

        log_voltage(log, tmp_voltage);

        if battery.last_battery_voltage != tmp_voltage {
            battery.last_battery_voltage = tmp_voltage;
            d.change_flags.battery_voltage = true;
            d.battery_voltage = tmp_voltage;

            let tmp_level: u8 = get_battery_level(tmp_voltage).level();
            if battery.last_battery_state != tmp_level {
                battery.last_battery_state = tmp_level;
                d.battery_level = get_battery_level(tmp_voltage);
            }
        }
    }
}

fn check_charger(battery: &mut Battery, d: &mut DeviceInfo, log: &mut Log)
    requires
        old(log).wf(),
    ensures
        final(log).wf(),
        *final(battery) == old(battery).charger_seen(),
        *final(d) == old(battery).publish_charger(*old(d)),
        final(log)@ == charger_logged(*old(battery), old(log)@),
{
    if battery.last_charger_connected != battery.charger_connected {
        battery.last_charger_connected = battery.charger_connected;
        d.change_flags.charger_state = true;
        d.flags.charger_connected = battery.charger_connected;

        log_charger(log, battery.charger_connected);
    }
}

/// One turn of the driver.
///
/// The two flags of the driver are lowered. If a sample is due, `raw`,
/// the ADC reading taken for this turn, is turned into a voltage and
/// logged; a voltage that differs from the last one is published with
/// its flag raised, the level with it if that is new too. A charger
/// state that differs from the last one published is published with its
/// flag raised, and logged.
pub fn task_handler(battery: &mut Battery, d: &mut DeviceInfo, rtc: &Rtc, log: &mut Log, raw: u16)
    requires
        old(log).wf(),
    ensures
        final(log).wf(),
        *final(battery) == old(battery).after_turn(*rtc, raw),
        *final(d) == old(battery).publish(*old(d), *rtc, raw),
        final(log)@ == logged(*old(battery), old(log)@, *rtc, raw),
{
    if d.change_flags.battery_voltage {
        d.change_flags.battery_voltage = false;
    }
    if d.change_flags.charger_state {
        d.change_flags.charger_state = false;
    }
    sample(battery, d, rtc, log, raw);
    check_charger(battery, d, log);
}

fn log_voltage(log: &mut Log, voltage: u16)
    requires
        old(log).wf(),
    ensures
        final(log).wf(),
        final(log)@ == old(log)@.push_number(battery_text().spec_bytes(), voltage as u32),
{
    proof {
        reveal_strlit("Battery: ");
        vstd::string::is_ascii_spec_bytes("Battery: ");
        lemma_short_number(voltage);
    }
    log::push_log_number(log, "Battery: ", &(voltage as u32));
}

fn log_charger(log: &mut Log, connected: bool)
    requires
        old(log).wf(),
    ensures
        final(log).wf(),
        final(log)@ == old(log)@.push_number(
            charger_text().spec_bytes(),
            if connected {
                1u32
            } else {
                0u32
            },
        ),
{
    proof {
        reveal_strlit("Charger state: ");
        vstd::string::is_ascii_spec_bytes("Charger state: ");
        reveal_with_fuel(log::num_len, 2);
    }
    log::push_log_number(
        log,
        "Charger state: ",
        &(if connected {
            1
        } else {
            0
        }),
    );
}

/// A 16-bit number has at most five digits.
proof fn lemma_short_number(num: u16)
    ensures
        log::num_len(num as int) <= 5,
{
    reveal_with_fuel(log::num_len, 6);
}

} // verus!
