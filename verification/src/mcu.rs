//! The microcontroller as the library sees it: the state its interrupt
//! handlers keep, and the operations the library asks of it.

use vstd::prelude::*;
use crate::app::info::DeviceInfo;
use crate::mcu::gpio::{PinDirection, PinPull, PinState};
use crate::mcu::input::{Callback, Input, Polarity};
use crate::mcu::timer::Timer;

pub mod adc;
pub mod gpio;
pub mod i2c;
pub mod input;
pub mod rtc;
pub mod spi;
pub mod spim;
pub mod timer;

verus! {

/// An operation that can fail on the device. A failure is reported in
/// the log and has no other effect.
#[derive(Clone, Copy, Debug, PartialEq, Eq, Structural)]
pub enum Fault {
    SpiCommand,
    SpiData,
    SpimBlock,
    SpimSolid,
}

impl Fault {
    /// The text that reports the fault in the log.
    pub open spec fn spec_message(self) -> &'static str {
        match self {
            Fault::SpiCommand => "Spi command failed",
            Fault::SpiData => "Spi write data failed",
            Fault::SpimBlock => "Spim write block failed",
            Fault::SpimSolid => "Spim write solid failed",
        }
    }

    #[verifier::when_used_as_spec(spec_message)]
    pub fn message(self) -> (text: &'static str)
        ensures
            text == self.spec_message(),
    {
        match self {
            Fault::SpiCommand => "Spi command failed",
            Fault::SpiData => "Spi write data failed",
            Fault::SpimBlock => "Spim write block failed",
            Fault::SpimSolid => "Spim write solid failed",
        }
    }
}

/// One hardware operation requested by the library. The caller performs
/// the recorded operations on the device, in order.
#[derive(Debug, PartialEq, Eq)]
pub enum Action {
    /// Configure a pin: direction, pull resistor, output level.
    PinSetup { pin: u8, dir: PinDirection, state: PinState, pull: PinPull },
    /// Make a pin an input and disconnect its buffer.
    PinDisable { pin: u8 },
    /// Drive an output pin.
    SetPin { pin: u8, state: PinState },
    /// Send `bytes` in one blocking SPI transaction. If it fails, `fault`
    /// is logged.
    SpiWrite { bytes: Vec<u8>, fault: Fault },
    /// Send each chunk in one DMA transfer, in order. A failed transfer is
    /// logged as `fault`; with `stop_on_fault` the chunks after it are
    /// not sent.
    SpimBlock { chunks: Vec<Vec<u8>>, stop_on_fault: bool, fault: Fault },
    /// Busy-wait.
    Delay { milliseconds: u32 },
    /// Start the real-time counter with the given compare value.
    RtcStart { wake_interval: u32 },
    /// Mask the interrupt line shared by the event channels.
    MaskEvents,
    /// Write the configuration of an event channel: event mode, the pin
    /// it watches and the edge it reacts to.
    ChannelConfig { channel: u8, polarity: Polarity, pin: u8 },
    /// Enable the interrupt of an event channel.
    ChannelEnable { channel: u8 },
    /// Clear the pending event of an event channel.
    ChannelClear { channel: u8 },
    /// Clear the pending state of the shared interrupt line.
    UnpendEvents,
    /// Unmask the shared interrupt line.
    UnmaskEvents,
    /// Reset the system.
    Restart,
}

/// The mathematical value of an [`Action`].
pub enum ActionView {
    PinSetup { pin: u8, dir: PinDirection, state: PinState, pull: PinPull },
    PinDisable { pin: u8 },
    SetPin { pin: u8, state: PinState },
    SpiWrite { bytes: Seq<u8>, fault: Fault },
    SpimBlock { chunks: Seq<Seq<u8>>, stop_on_fault: bool, fault: Fault },
    Delay { milliseconds: u32 },
    RtcStart { wake_interval: u32 },
    MaskEvents,
    ChannelConfig { channel: u8, polarity: Polarity, pin: u8 },
    ChannelEnable { channel: u8 },
    ChannelClear { channel: u8 },
    UnpendEvents,
    UnmaskEvents,
    Restart,
}

impl DeepView for Action {
    type V = ActionView;

    open spec fn deep_view(&self) -> ActionView {
        match *self {
            Action::PinSetup { pin, dir, state, pull } => ActionView::PinSetup {
                pin,
                dir,
                state,
                pull,
            },
            Action::PinDisable { pin } => ActionView::PinDisable { pin },
            Action::SetPin { pin, state } => ActionView::SetPin { pin, state },
            Action::SpiWrite { bytes, fault } => ActionView::SpiWrite { bytes: bytes@, fault },
            Action::SpimBlock { chunks, stop_on_fault, fault } => ActionView::SpimBlock {
                chunks: chunks.deep_view(),
                stop_on_fault,
                fault,
            },
            Action::Delay { milliseconds } => ActionView::Delay { milliseconds },
            Action::RtcStart { wake_interval } => ActionView::RtcStart { wake_interval },
            Action::MaskEvents => ActionView::MaskEvents,
            Action::ChannelConfig { channel, polarity, pin } => ActionView::ChannelConfig {
                channel,
                polarity,
                pin,
            },
            Action::ChannelEnable { channel } => ActionView::ChannelEnable { channel },
            Action::ChannelClear { channel } => ActionView::ChannelClear { channel },
            Action::UnpendEvents => ActionView::UnpendEvents,
            Action::UnmaskEvents => ActionView::UnmaskEvents,
            Action::Restart => ActionView::Restart,
        }
    }
}

/// Appends one operation to the record.
pub fn record(hw: &mut Vec<Action>, action: Action)
    ensures
        final(hw).deep_view() == old(hw).deep_view().push(action.deep_view()),
{
    hw.push(action);
    assert(hw.deep_view() =~= old(hw).deep_view().push(action.deep_view()));
}

/// What keeps the microcontroller from being idle.
#[derive(Clone, Copy, Debug, PartialEq, Eq, Structural)]
pub enum McuState {
    AdcBusy,
    SpiBusy,
    TimerBusy,
    Idle,
}

/// Whether a peripheral is in the middle of an operation. Conversions
/// and transfers block, so only a running timer is.
pub fn get_busy(timer: &Timer) -> (state: McuState)
    ensures
        state == if timer.running {
            McuState::TimerBusy
        } else {
            McuState::Idle
        },
{
    if adc::get_busy() {
        return McuState::AdcBusy;
    }
    if spi::get_busy() {
        return McuState::SpiBusy;
    }
    if timer::get_busy(timer) {
        return McuState::TimerBusy;
    }
    McuState::Idle
}

/// Requests a reset of the system.
pub fn restart(hw: &mut Vec<Action>)
    ensures
        final(hw).deep_view() == old(hw).deep_view().push(ActionView::Restart),
{
    record(hw, Action::Restart);
}

/// The microcontroller's turn: drains the event queue. Returns the
/// handlers of the queued events, oldest first, for the caller to run;
/// none of them is the handler of a real-time channel.
pub fn task_handler(input: &mut Input, _d: &DeviceInfo) -> (callbacks: Vec<Callback>)
    requires
        old(input).wf(),
    ensures
        final(input).wf(),
        callbacks@ == old(input)@.callbacks(),
        forall|i: int|
            0 <= i < callbacks@.len() ==> old(input)@.is_deferred_handler(#[trigger] callbacks@[i]),
        final(input)@ == old(input)@.drained(),
        final(input).event_map == old(input).event_map,
        final(input).queue == old(input).queue,
        final(input).head == old(input).tail,
        final(input).tail == old(input).tail,
        final(input).pending == 0,
{
    input::task_handler(input)
}

} // verus!
