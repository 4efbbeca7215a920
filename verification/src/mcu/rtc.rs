//! The real-time counter: seconds since it was enabled.

use vstd::prelude::*;
use vstd::string::StringSliceAdditionalSpecFns;
use crate::drivers::log;
use crate::drivers::log::Log;
use crate::mcu::{record, Action, ActionView};

verus! {

/// How often the counter wakes the processor.
#[derive(Clone, Copy, Debug, PartialEq, Eq, Structural)]
pub enum WakeInterval {
    Interval125MS,
    Interval250MS,
    Interval500MS,
    Interval1S,
}

/// Counter ticks in one second.
pub const TICKS_PER_SECOND: u32 = 4096;

impl WakeInterval {
    /// The interval in counter ticks.
    pub open spec fn spec_ticks(self) -> u32 {
        match self {
            WakeInterval::Interval125MS => 512,
            WakeInterval::Interval250MS => 1024,
            WakeInterval::Interval500MS => 2048,
            WakeInterval::Interval1S => 4096,
        }
    }

    #[verifier::when_used_as_spec(spec_ticks)]
    pub fn ticks(self) -> (ticks: u32)
        ensures
            ticks == self.spec_ticks(),
    {
        match self {
            WakeInterval::Interval125MS => 512,
            WakeInterval::Interval250MS => 1024,
            WakeInterval::Interval500MS => 2048,
            WakeInterval::Interval1S => 4096,
        }
    }
}

/// What the counter's interrupt handler keeps.
#[derive(Clone, Copy, Debug, PartialEq, Eq, Structural)]
pub struct Rtc {
    pub initialized: bool,
    pub wake_interval: u32,
    pub fraction: u32,
    pub seconds: u32,
}

impl Rtc {
    /// Less than a second is ever carried as a fraction, and a wake
    /// interval is at most a second.
    pub open spec fn wf(self) -> bool {
        &&& self.fraction < TICKS_PER_SECOND
        &&& self.wake_interval <= TICKS_PER_SECOND
    }

    /// Whether the counter is well-formed, for a caller that cannot know.
    pub fn is_wf(&self) -> (ok: bool)
        ensures
            ok == self.wf(),
    {
        self.fraction < TICKS_PER_SECOND && self.wake_interval <= TICKS_PER_SECOND
    }

    /// A counter that has not been enabled.
    pub fn new() -> (rtc: Rtc)
        ensures
            rtc == (Rtc { initialized: false, wake_interval: 0, fraction: 0, seconds: 0 }),
            rtc.wf(),
    {
        Rtc { initialized: false, wake_interval: 0, fraction: 0, seconds: 0 }
    }

    /// The counter after one wake interval has passed: the fraction grows
    /// by the interval, and a full second moves from it to the seconds.
    pub open spec fn tick(self) -> Rtc {
        if self.fraction + self.wake_interval >= TICKS_PER_SECOND {
            Rtc {
                seconds: (self.seconds + (self.fraction + self.wake_interval) / (
                TICKS_PER_SECOND as int)) as u32,
                fraction: 0,
                ..self
            }
        } else {
            Rtc { fraction: (self.fraction + self.wake_interval) as u32, ..self }
        }
    }

    /// Seconds from `seconds` to now; 0 if `seconds` is in the future.
    pub open spec fn elapsed(self, seconds: u32) -> u32 {
        if self.seconds >= seconds {
            (self.seconds - seconds) as u32
        } else {
            0
        }
    }
}

/// Enables the counter with `interval`, unless it has been enabled
/// before: the hardware is asked to start with that compare value and
/// the time is reset.
pub fn init(rtc: &mut Rtc, hw: &mut Vec<Action>, interval: WakeInterval)
    ensures
        old(rtc).initialized ==> *final(rtc) == *old(rtc) && final(hw).deep_view() == old(
            hw,
        ).deep_view(),
        !old(rtc).initialized ==> *final(rtc) == (Rtc {
            initialized: true,
            wake_interval: interval.spec_ticks(),
            fraction: 0,
            seconds: 0,
        }) && final(hw).deep_view() == old(hw).deep_view().push(
            ActionView::RtcStart { wake_interval: interval.spec_ticks() },
        ),
        !old(rtc).initialized ==> final(rtc).wf(),
{
    if rtc.initialized {
        return ;
    }
    rtc.wake_interval = interval.ticks();

    enable(rtc, hw, true);

    rtc.initialized = true;
}

pub fn get_timestamp(rtc: &Rtc) -> (seconds: u32)
    ensures
        seconds == rtc.seconds,
{
    rtc.seconds
}

pub fn get_timestamp_fraction(rtc: &Rtc) -> (fraction: u32)
    ensures
        fraction == rtc.fraction,
{
    rtc.fraction
}

/// Seconds that have passed since the timestamp `seconds`.
pub fn get_timediff(rtc: &Rtc, seconds: u32) -> (diff: u32)
    ensures
        diff == rtc.elapsed(seconds),
{
    let app_seconds = get_timestamp(rtc);
    if app_seconds >= seconds {
        app_seconds - seconds
    } else {
        0
    }
}

fn enable(rtc: &mut Rtc, hw: &mut Vec<Action>, is_enabled: bool)
    ensures
        *final(rtc) == (Rtc { fraction: 0, seconds: 0, ..*old(rtc) }),
        is_enabled ==> final(hw).deep_view() == old(hw).deep_view().push(
            ActionView::RtcStart { wake_interval: old(rtc).wake_interval },
        ),
        !is_enabled ==> final(hw).deep_view() == old(hw).deep_view(),
{
    if is_enabled {
        record(hw, Action::RtcStart { wake_interval: rtc.wake_interval });
    }
    rtc.seconds = 0;
    rtc.fraction = 0;
}

/// The counter's interrupt handler. `compare_event` tells whether the
/// compare event has fired, that is, whether a wake interval has passed.
pub fn rtc0(rtc: &mut Rtc, compare_event: bool)
    requires
        old(rtc).wf(),
        old(rtc).seconds < u32::MAX,
    ensures
        final(rtc).wf(),
        *final(rtc) == if compare_event {
            old(rtc).tick()
        } else {
            *old(rtc)
        },
{
    if compare_event {
        rtc.fraction += rtc.wake_interval;

        if rtc.fraction >= TICKS_PER_SECOND {
            rtc.seconds += rtc.fraction / TICKS_PER_SECOND;
            rtc.fraction = 0;
        }
    }
}

/// The text that logs a new second.
pub open spec fn second_text() -> &'static str {
    "Next second: "
}

/// Logs each new second. `last_seconds` is the second that was logged
/// last.
pub fn task_handler(rtc: &Rtc, last_seconds: &mut u32, log: &mut Log)
    requires
        old(log).wf(),
    ensures
        final(log).wf(),
        *final(last_seconds) == rtc.seconds,
        final(log)@ == if *old(last_seconds) != rtc.seconds {
            old(log)@.push(second_text().spec_bytes())
        } else {
            old(log)@
        },
{
    if *last_seconds != get_timestamp(rtc) {
        *last_seconds = get_timestamp(rtc);
        log::push_log(log, "Next second: ");
    }
}

} // verus!
