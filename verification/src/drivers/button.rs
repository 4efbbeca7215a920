//! The push button.
//!
//! Each edge on the button's pin is remembered with the level read in
//! its handler, and the task loop publishes one of them a turn, in
//! order. The presses wait in a ring of [`PRESS_QUEUE_LENGTH`] places; an
//! edge that finds the ring full is dropped.

use vstd::prelude::*;
use vstd::string::StringSliceAdditionalSpecFns;
use crate::app::info::{DeviceInfo, DeviceInfoChangeFlags, DeviceInfoFlags};
use crate::config;
use crate::drivers::log;
use crate::drivers::log::{Log, LogView};
use crate::mcu::gpio::{pin_setup, PinDirection, PinPull, PinState};
use crate::mcu::input;
use crate::mcu::input::{BindError, Callback, Input, PinConfig, Polarity};
use crate::mcu::{Action, ActionView};

verus! {

pub const PRESS_QUEUE_LENGTH: usize = 8;

/// What the driver remembers between turns.
pub struct Button {
    pub unhandled_presses: u8,
    pub press_queue: [bool; 8],
    pub head: usize,
    pub tail: usize,
}

/// How the button's pin is armed.
pub open spec fn spec_button_press_config() -> PinConfig {
    PinConfig {
        pin: config::PUSH_BUTTON_IN_PIN,
        polarity: Polarity::Toggle,
        pull: PinPull::PullUp,
        callback: Callback::Press,
        real_time_callback: false,
    }
}

#[verifier::when_used_as_spec(spec_button_press_config)]
pub fn button_press_config() -> (config: PinConfig)
    ensures
        config == spec_button_press_config(),
{
    PinConfig {
        pin: config::PUSH_BUTTON_IN_PIN,
        polarity: Polarity::Toggle,
        pull: PinPull::PullUp,
        callback: Callback::Press,
        real_time_callback: false,
    }
}

impl View for Button {
    type V = Seq<bool>;

    /// The presses that wait to be published, oldest first; `true` is a
    /// press and `false` a release.
    open spec fn view(&self) -> Seq<bool> {
        Seq::new(
            self.unhandled_presses as nat,
            |i: int| self.press_queue@[(self.head + i) % (PRESS_QUEUE_LENGTH as int)],
        )
    }
}

impl Button {
    pub open spec fn wf(&self) -> bool {
        &&& self.head < PRESS_QUEUE_LENGTH
        &&& self.unhandled_presses <= PRESS_QUEUE_LENGTH
        &&& self.tail == (self.head + self.unhandled_presses) % (PRESS_QUEUE_LENGTH as int)
    }

    /// Whether the ring is well-formed, for a caller that cannot know.
    pub fn is_wf(&self) -> (ok: bool)
        ensures
            ok == self.wf(),
    {
        self.head < PRESS_QUEUE_LENGTH && self.unhandled_presses as usize <= PRESS_QUEUE_LENGTH
            && self.tail == (self.head + self.unhandled_presses as usize) % PRESS_QUEUE_LENGTH
    }

    /// The driver with no press waiting.
    pub fn new() -> (button: Button)
        ensures
            button.wf(),
            button@ == Seq::<bool>::empty(),
    {
        let button = Button { unhandled_presses: 0, press_queue: [false;8], head: 0, tail: 0 };
        assert(button@ =~= Seq::<bool>::empty());
        button
    }
}

/// The presses that wait after an edge with the pin at `button_pin`: a
/// low pin is a press, a high pin a release. Unchanged if as many wait
/// as the ring holds.
pub open spec fn pressed(waiting: Seq<bool>, button_pin: PinState) -> Seq<bool> {
    if waiting.len() >= PRESS_QUEUE_LENGTH {
        waiting
    } else {
        waiting.push(button_pin == PinState::PinLow)
    }
}

/// The hardware operations of [`init`].
pub open spec fn init_actions(input: input::InputView) -> Seq<ActionView> {
    input::init_pin_actions(input, spec_button_press_config()) + seq![
        ActionView::PinSetup {
            pin: config::PUSH_BUTTON_OUT_PIN,
            dir: PinDirection::Output,
            state: PinState::PinLow,
            pull: PinPull::PullDisabled,
        },
    ]
}

/// Binds the button's pin, and drives the button's other side low.
pub fn init(input: &mut Input, hw: &mut Vec<Action>) -> (bind: Result<usize, BindError>)
    requires
        old(input).wf(),
    ensures
        final(input).wf(),
        bind == old(input)@.bind_result(spec_button_press_config()),
        final(input)@ == old(input)@.bind(spec_button_press_config()),
        final(hw).deep_view() == old(hw).deep_view() + init_actions(old(input)@),
{
    let bind = input::init_pin(input, hw, button_press_config());
    pin_setup(
        hw,
        config::PUSH_BUTTON_OUT_PIN,
        PinDirection::Output,
        PinState::PinLow,
        PinPull::PullDisabled,
    );
    assert(hw.deep_view() =~= old(hw).deep_view() + init_actions(old(input)@));
    bind
}

/// The handler of the button's event. `button_pin` is the level of the
/// button's pin. If the ring has room, the level is written at its tail,
/// the tail moves on by one place and one more press waits; the head
/// stays where it is. If the ring is full nothing changes.
pub fn press_handler(button: &mut Button, button_pin: PinState)
    requires
        old(button).wf(),
    ensures
        final(button).wf(),
        final(button)@ == pressed(old(button)@, button_pin),
        final(button).head == old(button).head,
        old(button).unhandled_presses < PRESS_QUEUE_LENGTH ==> {
            &&& final(button).unhandled_presses == old(button).unhandled_presses + 1
            &&& final(button).tail == (old(button).tail + 1) % (PRESS_QUEUE_LENGTH as int)
            &&& final(button).press_queue@ == old(button).press_queue@.update(
                old(button).tail as int,
                button_pin == PinState::PinLow,
            )
        },
        old(button).unhandled_presses >= PRESS_QUEUE_LENGTH ==> {
            &&& final(button).unhandled_presses == old(button).unhandled_presses
            &&& final(button).tail == old(button).tail
            &&& final(button).press_queue == old(button).press_queue
        },
{
    if button.unhandled_presses as usize == PRESS_QUEUE_LENGTH {
        return ;
    }
    button.unhandled_presses = button.unhandled_presses + 1;
    let tail: usize = button.tail;
    button.press_queue[tail] = match button_pin {
        PinState::PinHigh => false,
        PinState::PinLow => true,
    };
    button.tail = if (tail + 1) < PRESS_QUEUE_LENGTH {
        tail + 1
    } else {
        0
    };
    proof {
        assert forall|i: int| 0 <= i < old(button).unhandled_presses implies #[trigger] button@[i]
            == old(button)@[i] by {
            assert((button.head + i) % 8 != tail as int);
        }
        assert(button@ =~= pressed(old(button)@, button_pin));
    }
}

/// The text that logs a press.
pub open spec fn pressed_text() -> &'static str {
    "Button pressed!"
}

/// The text that logs a release.
pub open spec fn released_text() -> &'static str {
    "Button released!"
}

/// The device state after a turn with `waiting` presses: the driver's
/// flag is lowered; if a press waits, the oldest is published with the
/// flag raised.
pub open spec fn publish(waiting: Seq<bool>, d: DeviceInfo) -> DeviceInfo {
    if waiting.len() > 0 {
        DeviceInfo {
            change_flags: DeviceInfoChangeFlags { button_press: true, ..d.change_flags },
            flags: DeviceInfoFlags { button_pressed: waiting[0], ..d.flags },
            ..d
        }
    } else {
        DeviceInfo {
            change_flags: DeviceInfoChangeFlags { button_press: false, ..d.change_flags },
            ..d
        }
    }
}

/// The log after a turn with `waiting` presses: a published press is
/// logged if the debug log is active.
pub open spec fn logged(waiting: Seq<bool>, d: DeviceInfo, log: LogView) -> LogView {
    if waiting.len() > 0 && d.flags.debug_log_active {
        log.push(
            if waiting[0] {
                pressed_text().spec_bytes()
            } else {
                released_text().spec_bytes()
            },
        )
    } else {
        log
    }
}

/// The presses that wait after a turn: all but the oldest.
pub open spec fn after_turn(waiting: Seq<bool>) -> Seq<bool> {
    if waiting.len() > 0 {
        waiting.drop_first()
    } else {
        waiting
    }
}

/// One turn of the driver: the flag raised in the last turn is lowered,
/// and the oldest press that waits, if any, is published: it is taken
/// from the head of the ring, and the head moves on by one place.
pub fn task_handler(button: &mut Button, d: &mut DeviceInfo, log: &mut Log)
    requires
        old(button).wf(),
        old(log).wf(),
    ensures
        final(button).wf(),
        final(log).wf(),
        final(button)@ == after_turn(old(button)@),
        final(button).press_queue == old(button).press_queue,
        final(button).tail == old(button).tail,
        final(button).head == if old(button).unhandled_presses > 0 {
            (old(button).head + 1) % (PRESS_QUEUE_LENGTH as int)
        } else {
            old(button).head as int
        },
        final(button).unhandled_presses == if old(button).unhandled_presses > 0 {
            old(button).unhandled_presses - 1
        } else {
            0
        },
        *final(d) == publish(old(button)@, *old(d)),
        final(log)@ == logged(old(button)@, *old(d), old(log)@),
{
    if d.change_flags.button_press {
        d.change_flags.button_press = false;
    }
    if button.unhandled_presses > 0 {
        d.change_flags.button_press = true;
        let head: usize = button.head;
        d.flags.button_pressed = button.press_queue[head];
        assert(button.press_queue@[head as int] == button@[0]);
        button.head = if (head + 1) < PRESS_QUEUE_LENGTH {
            head + 1
        } else {
            0
        };
        button.unhandled_presses = button.unhandled_presses - 1;
        proof {
            assert forall|i: int| 0 <= i < button.unhandled_presses implies #[trigger] button@[i]
                == old(button)@[i + 1] by {
                assert((button.head + i) % 8 == (old(button).head + (i + 1)) % 8);
            }
            assert(button@ =~= after_turn(old(button)@));
        }

        if d.flags.debug_log_active {
            if d.flags.button_pressed {
                log::push_log(log, "Button pressed!");
            } else {
                log::push_log(log, "Button released!");
            }
        }
    } else {
        assert(button@ =~= after_turn(old(button)@));
    }
}

} // verus!
