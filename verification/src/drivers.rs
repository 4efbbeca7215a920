//! Peripheral drivers.

use vstd::prelude::*;
use crate::drivers::lcd::lcd_api;

pub mod battery;
pub mod button;
pub mod clock;
pub mod lcd;
pub mod log;
pub mod touch;

verus! {

/// What keeps the drivers from being idle.
#[derive(Clone, Copy, Debug, PartialEq, Eq, Structural)]
pub enum DriversState {
    LcdBusy,
    Idle,
}

/// Whether a driver is in the middle of an operation.
pub fn get_busy() -> (state: DriversState)
    ensures
        state == DriversState::Idle,
{
    if lcd_api::get_busy() {
        return DriversState::LcdBusy;
    }
    DriversState::Idle
}

} // verus!
