//! Basic control over GPIO pins.

use vstd::prelude::*;
use crate::mcu::{record, Action, ActionView};

verus! {

#[derive(Clone, Copy, Debug, PartialEq, Eq, Structural)]
pub enum PinDirection {
    Input,
    Output,
}

#[derive(Clone, Copy, Debug, PartialEq, Eq, Structural)]
pub enum PinPull {
    PullUp,
    PullDown,
    PullDisabled,
}

#[derive(Clone, Copy, Debug, PartialEq, Eq, Structural)]
pub enum PinState {
    PinLow,
    PinHigh,
}

/// Number of pins on the port.
pub const PIN_COUNT: u8 = 32;

/// The level of `pin` in a snapshot of the port's input register: bit
/// `pin` of `port_in`.
pub open spec fn pin_level(port_in: u32, pin: u8) -> PinState {
    if port_in & (1u32 << pin) == 0 {
        PinState::PinLow
    } else {
        PinState::PinHigh
    }
}

/// Reads the level of `pin` out of `port_in`, the value of the port's
/// input register.
pub fn get_pin_state(port_in: u32, pin: u8) -> (state: PinState)
    requires
        pin < PIN_COUNT,
    ensures
        state == pin_level(port_in, pin),
{
    if port_in & (1u32 << pin) == 0 {
        PinState::PinLow
    } else {
        PinState::PinHigh
    }
}

/// Requests that `pin` become an input with its buffer disconnected.
pub fn pin_disable(hw: &mut Vec<Action>, pin: u8)
    ensures
        final(hw).deep_view() == old(hw).deep_view().push(ActionView::PinDisable { pin }),
{
    record(hw, Action::PinDisable { pin });
}

/// Requests the full configuration of `pin`: direction, pull resistor and
/// the level it drives as an output.
pub fn pin_setup(hw: &mut Vec<Action>, pin: u8, dir: PinDirection, state: PinState, pull: PinPull)
    ensures
        final(hw).deep_view() == old(hw).deep_view().push(
            ActionView::PinSetup { pin, dir, state, pull },
        ),
{
    record(hw, Action::PinSetup { pin, dir, state, pull });
}

/// Requests that `pin` drive `state`.
pub fn set_pin_state(hw: &mut Vec<Action>, pin: u8, state: PinState)
    ensures
        final(hw).deep_view() == old(hw).deep_view().push(ActionView::SetPin { pin, state }),
{
    record(hw, Action::SetPin { pin, state });
}

} // verus!
