//! A blocking delay with millisecond precision.

use vstd::prelude::*;
use crate::mcu::{record, Action, ActionView};

verus! {

/// Milliseconds between two compare events of the timer.
pub const TIMER_MULTIPLIER: u32 = 10;

/// What the timer's interrupt handler keeps.
#[derive(Clone, Copy, Debug, PartialEq, Eq, Structural)]
pub struct Timer {
    pub count: u32,
    pub running: bool,
}

impl Timer {
    /// A stopped timer.
    pub fn new() -> (timer: Timer)
        ensures
            timer == (Timer { count: 0, running: false }),
    {
        Timer { count: 0, running: false }
    }
}

/// Whether the timer is running.
pub fn get_busy(timer: &Timer) -> (busy: bool)
    ensures
        busy == timer.running,
{
    if timer.running {
        return true;
    }
    false
}

/// Requests a busy-wait of `milliseconds`.
pub fn delay(hw: &mut Vec<Action>, milliseconds: u32)
    ensures
        final(hw).deep_view() == old(hw).deep_view().push(ActionView::Delay { milliseconds }),
{
    record(hw, Action::Delay { milliseconds });
}

/// The count at which a wait of `milliseconds` that begins now is over.
pub fn delay_target(timer: &Timer, milliseconds: u32) -> (target_count: u32)
    requires
        timer.count + milliseconds <= u32::MAX,
    ensures
        target_count == timer.count + milliseconds,
{
    timer.count + milliseconds
}

/// Whether a wait that ends at `target_count` is still going on.
pub fn delay_pending(timer: &Timer, target_count: u32) -> (waiting: bool)
    ensures
        waiting == (timer.count < target_count),
{
    timer.count < target_count
}

/// Marks the timer as started.
pub fn start(timer: &mut Timer)
    ensures
        *final(timer) == (Timer { running: true, ..*old(timer) }),
{
    timer.running = true;
}

/// Marks the timer as stopped and clears its count.
pub fn stop(timer: &mut Timer)
    ensures
        *final(timer) == (Timer { count: 0, running: false }),
{
    timer.running = false;
    timer.count = 0;
    timer.running = false;
}

/// The timer's interrupt handler. `compare_event` tells whether the
/// compare event has fired; each one counts for
/// [`TIMER_MULTIPLIER`] milliseconds.
pub fn timer0(timer: &mut Timer, compare_event: bool)
    requires
        old(timer).count + TIMER_MULTIPLIER <= u32::MAX,
    ensures
        *final(timer) == (Timer {
            count: if compare_event {
                (old(timer).count + TIMER_MULTIPLIER) as u32
            } else {
                old(timer).count
            },
            ..*old(timer)
        }),
{
    if compare_event {
        timer.count = timer.count + TIMER_MULTIPLIER;
    }
}

} // verus!
