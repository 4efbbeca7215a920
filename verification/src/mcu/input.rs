//! Pin-change events: the channel table that binds pins to handlers, and
//! the queue through which events reach the task loop.
//!
//! The interrupt handler finds the channel whose event fired. A handler
//! bound as real-time is handed back at once, to be run in interrupt
//! context; any other event is queued and reaches its handler at the next
//! drain, in the order of detection. A drain never returns the handler
//! of a channel that is real-time: should a channel have been bound as
//! real-time after an event on it was queued, that event is forgotten.
//!
//! The queue holds as many events as there are channels. An event that
//! arrives while it is full is dropped: the events already queued are
//! never overwritten.

use vstd::prelude::*;
use crate::mcu::gpio::{pin_setup, PinDirection, PinPull, PinState};
use crate::mcu::{record, Action, ActionView};

verus! {

/// Number of event channels.
pub const EVENT_LEN: usize = 8;

/// Number of events the queue holds.
pub const INPUT_QUEUE_LEN: usize = 8;

/// The edge an event channel reacts to.
#[derive(Clone, Copy, Debug, PartialEq, Eq, Structural)]
pub enum Polarity {
    /// No edge raises an event.
    Inactive,
    LoToHi,
    HiToLo,
    Toggle,
}

/// The handler an event is delivered to.
#[derive(Clone, Copy, Debug, PartialEq, Eq, Structural)]
pub enum Callback {
    /// Does nothing; the handler of an unbound channel.
    Dummy,
    /// The charger was connected or disconnected.
    Connect,
    /// The button was pressed or released.
    Press,
    /// The touch controller has an event to read.
    Touch,
}

/// One channel of the table.
#[derive(Clone, Copy, Debug, PartialEq, Eq, Structural)]
pub struct InputQueueEntry {
    pub pin: Option<u8>,
    pub callback: Callback,
    pub real_time_callback: bool,
}

/// How to arm one input pin.
#[derive(Clone, Copy, Debug, PartialEq, Eq, Structural)]
pub struct PinConfig {
    pub pin: u8,
    pub polarity: Polarity,
    pub pull: PinPull,
    pub callback: Callback,
    pub real_time_callback: bool,
}

/// Why a pin was not bound.
#[derive(Clone, Copy, Debug, PartialEq, Eq, Structural)]
pub enum BindError {
    /// The pin already has a channel; its binding stays as it is.
    AlreadyBound,
    /// Every channel is bound to another pin.
    TableFull,
}

/// What the interrupt handler did with the event it found.
#[derive(Clone, Copy, Debug, PartialEq, Eq, Structural)]
pub enum Dispatch {
    /// No channel had an event pending.
    Idle,
    /// The channel is real-time: its handler is to be run now.
    Immediate(Callback),
    /// The event was queued for the next drain.
    Queued,
    /// The queue was full and the event was dropped.
    Dropped,
}

/// The channel table and the event queue.
pub struct Input {
    pub event_map: [InputQueueEntry; 8],
    pub queue: [u8; 8],
    pub head: usize,
    pub tail: usize,
    pub pending: usize,
}

/// The table and the queue as mathematical values: the channels in order,
/// and the queued channel numbers, oldest first.
pub struct InputView {
    pub slots: Seq<InputQueueEntry>,
    pub queued: Seq<u8>,
}

/// A channel that has never been bound.
pub open spec fn unbound() -> InputQueueEntry {
    InputQueueEntry { pin: None, callback: Callback::Dummy, real_time_callback: false }
}

/// The channel that `config` binds.
pub open spec fn bound(config: PinConfig) -> InputQueueEntry {
    InputQueueEntry {
        pin: Some(config.pin),
        callback: config.callback,
        real_time_callback: config.real_time_callback,
    }
}

/// The first index at or after `from` whose channel is free or bound to
/// `pin`; the number of channels if there is none.
pub open spec fn first_slot_for(slots: Seq<InputQueueEntry>, pin: u8, from: int) -> int
    decreases slots.len() - from,
{
    if from < 0 || from >= slots.len() {
        slots.len() as int
    } else if slots[from].pin is None || slots[from].pin == Some(pin) {
        from
    } else {
        first_slot_for(slots, pin, from + 1)
    }
}

/// The first index at or after `from` whose event is pending; the number
/// of channels if there is none.
pub open spec fn first_pending(events_in: Seq<u32>, from: int) -> int
    decreases events_in.len() - from,
{
    if from < 0 || from >= events_in.len() {
        events_in.len() as int
    } else if events_in[from] != 0 {
        from
    } else {
        first_pending(events_in, from + 1)
    }
}

/// The handlers of the channels `queued`, in order, without those of
/// channels that are real-time.
pub open spec fn handlers(slots: Seq<InputQueueEntry>, queued: Seq<u8>) -> Seq<Callback>
    decreases queued.len(),
{
    if queued.len() == 0 {
        Seq::empty()
    } else if slots[queued.last() as int].real_time_callback {
        handlers(slots, queued.drop_last())
    } else {
        handlers(slots, queued.drop_last()).push(slots[queued.last() as int].callback)
    }
}

impl InputView {
    /// Whether some channel is bound to `pin`.
    pub open spec fn is_bound(self, pin: u8) -> bool {
        exists|e: int| 0 <= e < self.slots.len() && #[trigger] self.slots[e].pin == Some(pin)
    }

    /// Whether `channel` is one whose events are queued: a channel of the
    /// table that is not real-time, bound or not.
    pub open spec fn deferred(self, channel: u8) -> bool {
        &&& channel < self.slots.len()
        &&& !self.slots[channel as int].real_time_callback
    }

    /// The table has a slot for each channel. The queue holds no more
    /// than its capacity, and only channels of the table. No two
    /// channels are bound to the same pin, and a channel that is bound to
    /// none holds the dummy handler.
    pub open spec fn wf(self) -> bool {
        &&& self.slots.len() == EVENT_LEN
        &&& self.queued.len() <= INPUT_QUEUE_LEN
        &&& forall|i: int| 0 <= i < self.queued.len() ==> #[trigger] self.queued[i] < EVENT_LEN
        &&& forall|i: int, j: int|
            0 <= i < j < self.slots.len() && (#[trigger] self.slots[i]).pin is Some ==> self.slots[i].pin
                != (#[trigger] self.slots[j]).pin
        &&& forall|i: int|
            0 <= i < self.slots.len() && (#[trigger] self.slots[i]).pin is None ==> self.slots[i]
                == unbound()
    }

    /// What binding `config` returns: the channel it takes, or why none.
    pub open spec fn bind_result(self, config: PinConfig) -> Result<usize, BindError> {
        if self.is_bound(config.pin) {
            Err(BindError::AlreadyBound)
        } else if first_slot_for(self.slots, config.pin, 0) >= self.slots.len() {
            Err(BindError::TableFull)
        } else {
            Ok(first_slot_for(self.slots, config.pin, 0) as usize)
        }
    }

    /// The table and queue after binding `config`: the first free channel
    /// holds the binding, and nothing else changes. Unchanged if the pin
    /// is bound already or no channel is free.
    pub open spec fn bind(self, config: PinConfig) -> InputView {
        match self.bind_result(config) {
            Ok(e) => InputView { slots: self.slots.update(e as int, bound(config)), queued: self.queued },
            Err(_) => self,
        }
    }

    /// What the interrupt handler returns when the event registers hold
    /// `events_in`.
    pub open spec fn detect_result(self, events_in: Seq<u32>) -> Dispatch {
        let e = first_pending(events_in, 0);
        if e >= events_in.len() {
            Dispatch::Idle
        } else if self.slots[e].real_time_callback {
            Dispatch::Immediate(self.slots[e].callback)
        } else if self.queued.len() >= INPUT_QUEUE_LEN {
            Dispatch::Dropped
        } else {
            Dispatch::Queued
        }
    }

    /// The table and queue after the interrupt handler has run: the
    /// lowest channel with a pending event joins the queue, bound or not,
    /// unless it is real-time or the queue is full.
    pub open spec fn detect(self, events_in: Seq<u32>) -> InputView {
        match self.detect_result(events_in) {
            Dispatch::Queued => InputView {
                slots: self.slots,
                queued: self.queued.push(first_pending(events_in, 0) as u8),
            },
            _ => self,
        }
    }

    /// The event registers after the interrupt handler has run: the
    /// event it found is cleared.
    pub open spec fn acknowledge(events_in: Seq<u32>) -> Seq<u32> {
        if first_pending(events_in, 0) >= events_in.len() {
            events_in
        } else {
            events_in.update(first_pending(events_in, 0), 0)
        }
    }

    /// What a drain returns: the handlers of the queued events, oldest
    /// first, without those of channels that are real-time.
    pub open spec fn callbacks(self) -> Seq<Callback> {
        handlers(self.slots, self.queued)
    }

    /// Whether `callback` is the handler of a queued channel that is not
    /// real-time.
    pub open spec fn is_deferred_handler(self, callback: Callback) -> bool {
        exists|j: int|
            0 <= j < self.queued.len() && self.deferred(#[trigger] self.queued[j])
                && self.slots[self.queued[j] as int].callback == callback
    }

    /// The table with an empty queue.
    pub open spec fn drained(self) -> InputView {
        InputView { slots: self.slots, queued: Seq::empty() }
    }
}

impl View for Input {
    type V = InputView;

    open spec fn view(&self) -> InputView {
        InputView {
            slots: self.event_map@,
            queued: Seq::new(
                self.pending as nat,
                |i: int| self.queue@[(self.head + i) % (INPUT_QUEUE_LEN as int)],
            ),
        }
    }
}

impl Input {
    /// The queue is a ring: `pending` events from `head` on, wrapping at
    /// the end of the buffer, with `tail` the position after the last.
    pub open spec fn wf(&self) -> bool {
        &&& self.head < INPUT_QUEUE_LEN
        &&& self.pending <= INPUT_QUEUE_LEN
        &&& self.tail == (self.head + self.pending) % (INPUT_QUEUE_LEN as int)
        &&& self@.wf()
    }

    /// Whether the table and the queue are well-formed, for a caller that
    /// cannot know.
    pub fn is_wf(&self) -> (ok: bool)
        ensures
            ok == self.wf(),
    {
        if self.head >= INPUT_QUEUE_LEN || self.pending > INPUT_QUEUE_LEN {
            return false;
        }
        if self.tail != (self.head + self.pending) % INPUT_QUEUE_LEN {
            return false;
        }
        let mut i: usize = 0;
        while i < self.pending
            invariant
                i <= self.pending <= INPUT_QUEUE_LEN,
                self.head < INPUT_QUEUE_LEN,
                forall|k: int| 0 <= k < i ==> #[trigger] self@.queued[k] < EVENT_LEN,
            decreases self.pending - i,
        {
            let channel: usize = self.queue[(self.head + i) % INPUT_QUEUE_LEN] as usize;
            assert(channel == self@.queued[i as int]);
            if channel >= EVENT_LEN {
                return false;
            }
            i += 1;
        }
        let mut e: usize = 0;
        while e < EVENT_LEN
            invariant
                e <= EVENT_LEN,
                forall|a: int, b: int|
                    0 <= a < b < EVENT_LEN && a < e && (#[trigger] self@.slots[a]).pin is Some
                        ==> self@.slots[a].pin != (#[trigger] self@.slots[b]).pin,
                forall|a: int|
                    0 <= a < e && (#[trigger] self@.slots[a]).pin is None ==> self@.slots[a]
                        == unbound(),
            decreases EVENT_LEN - e,
        {
            let slot = self.event_map[e];
            match slot.pin {
                None => {
                    let default = match slot.callback {
                        Callback::Dummy => !slot.real_time_callback,
                        _ => false,
                    };
                    if !default {
                        assert(self@.slots[e as int] != unbound());
                        return false;
                    }
                },
                Some(pin) => {
                    let mut other: usize = e + 1;
                    while other < EVENT_LEN
                        invariant
                            e < other <= EVENT_LEN,
                            self@.slots[e as int].pin == Some(pin),
                            forall|b: int|
                                e < b < other ==> (#[trigger] self@.slots[b]).pin != Some(pin),
                        decreases EVENT_LEN - other,
                    {
                        if let Some(held) = self.event_map[other].pin {
                            if held == pin {
                                assert(self@.slots[e as int].pin == self@.slots[other as int].pin);
                                return false;
                            }
                        }
                        other += 1;
                    }
                },
            }
            e += 1;
        }
        true
    }

    /// A table with every channel unbound and an empty queue.
    pub fn new() -> (input: Input)
        ensures
            input.wf(),
            input@ == fresh_input(),
            input.head == 0,
            input.tail == 0,
            input.pending == 0,
    {
        let input = Input {
            event_map: [InputQueueEntry {
                pin: None,
                callback: Callback::Dummy,
                real_time_callback: false,
            };8],
            queue: [0;8],
            head: 0,
            tail: 0,
            pending: 0,
        };
        assert(input@.slots =~= fresh_input().slots);
        assert(input@.queued =~= fresh_input().queued);
        input
    }
}

/// Whether `pin` already has a channel.
pub fn get_event_exists(input: &Input, pin: u8) -> (exists: bool)
    ensures
        exists == input@.is_bound(pin),
{
    let mut e: usize = 0;
    while e < EVENT_LEN
        invariant
            e <= EVENT_LEN,
            forall|j: int| 0 <= j < e ==> (#[trigger] input.event_map@[j]).pin != Some(pin),
        decreases EVENT_LEN - e,
    {
        if let Some(tmp_pin) = input.event_map[e].pin {
            if tmp_pin == pin {
                return true;
            }
        }
        e += 1;
    }
    false
}

/// The channel for `pin`: the first that is bound to it or free.
pub fn get_event_index(input: &Input, pin: u8) -> (index: Option<usize>)
    ensures
        match index {
            Some(e) => e < EVENT_LEN && e == first_slot_for(input@.slots, pin, 0),
            None => first_slot_for(input@.slots, pin, 0) >= EVENT_LEN,
        },
{
    let mut e: usize = 0;
    while e < EVENT_LEN
        invariant
            e <= EVENT_LEN,
            first_slot_for(input@.slots, pin, 0) == first_slot_for(input@.slots, pin, e as int),
        decreases EVENT_LEN - e,
    {
        if let Some(tmp_pin) = input.event_map[e].pin {
            if tmp_pin == pin {
                return Some(e);
            }
        } else {
            return Some(e);
        }
        e += 1;
    }
    None
}

/// Arming channel `event` for `config`: with the shared interrupt line
/// masked, the channel is configured, its interrupt enabled and its stale
/// event cleared; then the line is unpended and unmasked.
pub open spec fn configure_actions(config: PinConfig, event: u8) -> Seq<ActionView> {
    seq![
        ActionView::MaskEvents,
        ActionView::ChannelConfig { channel: event, polarity: config.polarity, pin: config.pin },
        ActionView::ChannelEnable { channel: event },
        ActionView::ChannelClear { channel: event },
        ActionView::UnpendEvents,
        ActionView::UnmaskEvents,
    ]
}

fn configure(hw: &mut Vec<Action>, config: PinConfig, event: usize)
    requires
        event < EVENT_LEN,
    ensures
        final(hw).deep_view() == old(hw).deep_view() + configure_actions(config, event as u8),
{
    let channel: u8 = event as u8;
    // Pause interrupts during config
    record(hw, Action::MaskEvents);
    // Assign the pin config to the event
    record(hw, Action::ChannelConfig { channel, polarity: config.polarity, pin: config.pin });
    // Enable the interrupt
    record(hw, Action::ChannelEnable { channel });
    // Just in case, clear any pending events that need handling
    record(hw, Action::ChannelClear { channel });
    record(hw, Action::UnpendEvents);
    record(hw, Action::UnmaskEvents);
    assert(hw.deep_view() =~= old(hw).deep_view() + configure_actions(config, event as u8));
}

/// The setup of the pin of `config` as an input with its pull resistor.
pub open spec fn input_pin_action(config: PinConfig) -> ActionView {
    ActionView::PinSetup {
        pin: config.pin,
        dir: PinDirection::Input,
        state: PinState::PinLow,
        pull: config.pull,
    }
}

/// The hardware operations of binding `config` to a table in state
/// `input`: none if the pin is bound already; otherwise the pin becomes
/// an input, and if a channel is free it is armed.
pub open spec fn init_pin_actions(input: InputView, config: PinConfig) -> Seq<ActionView> {
    match input.bind_result(config) {
        Err(BindError::AlreadyBound) => Seq::empty(),
        Err(BindError::TableFull) => seq![input_pin_action(config)],
        Ok(e) => seq![input_pin_action(config)] + configure_actions(config, e as u8),
    }
}

/// Binds the pin of `config` to the first free channel and arms it.
///
/// A pin that is bound already keeps its binding: nothing changes and no
/// hardware operation is requested. With no channel free the pin has been
/// made an input, but nothing is bound. The queue is never touched.
pub fn init_pin(input: &mut Input, hw: &mut Vec<Action>, config: PinConfig) -> (bind: Result<
    usize,
    BindError,
>)
    requires
        old(input).wf(),
    ensures
        final(input).wf(),
        bind == old(input)@.bind_result(config),
        final(input)@ == old(input)@.bind(config),
        final(input).queue == old(input).queue,
        final(input).head == old(input).head,
        final(input).tail == old(input).tail,
        final(input).pending == old(input).pending,
        final(hw).deep_view() == old(hw).deep_view() + init_pin_actions(old(input)@, config),
{
    // If pin is already configured, quit
    if get_event_exists(input, config.pin) {
        assert(hw.deep_view() =~= old(hw).deep_view() + init_pin_actions(old(input)@, config));
        return Err(BindError::AlreadyBound);
    }
    pin_setup(hw, config.pin, PinDirection::Input, PinState::PinLow, config.pull);

    // Get the next available interrupt index
    match get_event_index(input, config.pin) {
        Some(event) => {
            configure(hw, config, event);
            // Assign this pin config to the event map
            input.event_map[event] = InputQueueEntry {
                pin: Some(config.pin),
                callback: config.callback,
                real_time_callback: config.real_time_callback,
            };
            proof {
                lemma_first_slot_is_free(old(input)@.slots, config.pin, 0);
                assert(input@.queued =~= old(input)@.queued);
                assert(input@.slots =~= old(input)@.slots.update(event as int, bound(config)));
                assert(hw.deep_view() =~= old(hw).deep_view() + init_pin_actions(
                    old(input)@,
                    config,
                ));
            }
            Ok(event)
        },
        None => {
            assert(hw.deep_view() =~= old(hw).deep_view() + init_pin_actions(old(input)@, config));
            Err(BindError::TableFull)
        },
    }
}

/// The slot found for a pin is in the table, nothing before it is free,
/// and it is free itself unless it holds the pin.
pub proof fn lemma_first_slot_is_free(slots: Seq<InputQueueEntry>, pin: u8, from: int)
    requires
        0 <= from,
    ensures
        from <= first_slot_for(slots, pin, from) || first_slot_for(slots, pin, from) == slots.len(),
        first_slot_for(slots, pin, from) < slots.len() ==> slots[first_slot_for(slots, pin, from)].pin
            is None || slots[first_slot_for(slots, pin, from)].pin == Some(pin),
        forall|j: int|
            from <= j < first_slot_for(slots, pin, from) && j < slots.len() ==> (#[trigger] slots[j]).pin
                is Some && slots[j].pin != Some(pin),
    decreases slots.len() - from,
{
    if from < slots.len() && !(slots[from].pin is None || slots[from].pin == Some(pin)) {
        lemma_first_slot_is_free(slots, pin, from + 1);
    }
}

/// The first pending event is in range, is pending, and nothing before
/// it is.
pub proof fn lemma_first_pending(events_in: Seq<u32>, from: int)
    requires
        0 <= from,
    ensures
        from <= first_pending(events_in, from) || first_pending(events_in, from) == events_in.len(),
        first_pending(events_in, from) < events_in.len() ==> events_in[first_pending(events_in, from)]
            != 0,
        forall|j: int|
            from <= j < first_pending(events_in, from) && j < events_in.len() ==> events_in[j] == 0,
    decreases events_in.len() - from,
{
    if from < events_in.len() && events_in[from] == 0 {
        lemma_first_pending(events_in, from + 1);
    }
}

/// The interrupt handler of the event channels.
///
/// `events_in` holds the event register of each channel. The lowest
/// channel whose event is pending is served and its register cleared. If
/// the channel is real-time its handler is returned to be run at once,
/// and the queue is left alone. Otherwise the channel number is written
/// at the tail of the queue and the tail moves on by one place, or the
/// event is dropped if the queue is full. The table and the head of the
/// queue never change.
pub fn gpiote(input: &mut Input, events_in: &mut [u32; 8]) -> (dispatch: Dispatch)
    requires
        old(input).wf(),
    ensures
        final(input).wf(),
        dispatch == old(input)@.detect_result(old(events_in)@),
        final(input)@ == old(input)@.detect(old(events_in)@),
        final(events_in)@ == InputView::acknowledge(old(events_in)@),
        final(input).event_map == old(input).event_map,
        final(input).head == old(input).head,
        final(input).tail == if dispatch == Dispatch::Queued {
            (old(input).tail + 1) % (INPUT_QUEUE_LEN as int)
        } else {
            old(input).tail as int
        },
        final(input).pending == if dispatch == Dispatch::Queued {
            old(input).pending + 1
        } else {
            old(input).pending as int
        },
        final(input).queue@ == if dispatch == Dispatch::Queued {
            old(input).queue@.update(
                old(input).tail as int,
                first_pending(old(events_in)@, 0) as u8,
            )
        } else {
            old(input).queue@
        },
{
    let mut event: Option<usize> = None;

    // Find the event that caused the interrupt
    let mut e: usize = 0;
    while e < EVENT_LEN
        invariant_except_break
            e <= EVENT_LEN,
            event is None,
            events_in@ == old(events_in)@,
            first_pending(events_in@, 0) == first_pending(events_in@, e as int),
        ensures
            events_in@ == InputView::acknowledge(old(events_in)@),
            match event {
                Some(found) => found < EVENT_LEN && found == first_pending(old(events_in)@, 0),
                None => first_pending(old(events_in)@, 0) >= EVENT_LEN,
            },
        decreases EVENT_LEN - e,
    {
        if events_in[e] != 0 {
            // Clear the event flag
            events_in[e] = 0;
            event = Some(e);
            break ;
        }
        e += 1;
    }

    // Save this event in the queue
    match event {
        Some(e) => {
            // If real time callback enabled, hand the handler back at once
            if input.event_map[e].real_time_callback {
                return Dispatch::Immediate(input.event_map[e].callback);
            }
            if input.pending == INPUT_QUEUE_LEN {
                return Dispatch::Dropped;
            }
            // Push this event onto the queue
            let tail: usize = input.tail;
            input.queue[tail] = e as u8;

            // Update the tail pointer to the next available position
            input.tail = if tail + 1 == INPUT_QUEUE_LEN {
                0
            } else {
                tail + 1
            };
            input.pending = input.pending + 1;
            proof {
                assert(input@.slots =~= old(input)@.slots);
                assert forall|i: int| 0 <= i < old(input).pending implies #[trigger] input@.queued[i]
                    == old(input)@.queued[i] by {
                    assert((input.head + i) % 8 != tail as int);
                }
                assert(input@.queued =~= old(input)@.queued.push(e as u8));
                assert forall|i: int| 0 <= i < input@.queued.len() implies #[trigger] input@.queued[i]
                    < EVENT_LEN by {
                    if i < old(input).pending {
                        assert(input@.queued[i] == old(input)@.queued[i]);
                    }
                }
            }
            Dispatch::Queued
        },
        None => Dispatch::Idle,
    }
}

/// Every handler among `handlers(slots, queued)` is the handler of one
/// of the channels `queued` that is not real-time; and where none of
/// them is real-time, the handlers are those of all of them.
pub proof fn lemma_handlers(input: InputView)
    requires
        forall|i: int| 0 <= i < input.queued.len() ==> #[trigger] input.queued[i] < input.slots.len(),
    ensures
        forall|i: int|
            0 <= i < input.callbacks().len() ==> input.is_deferred_handler(
                #[trigger] input.callbacks()[i],
            ),
        (forall|i: int| 0 <= i < input.queued.len() ==> input.deferred(#[trigger] input.queued[i]))
            ==> input.callbacks() == Seq::new(
            input.queued.len(),
            |i: int| input.slots[input.queued[i] as int].callback,
        ),
    decreases input.queued.len(),
{
    if input.queued.len() > 0 {
        let rest = InputView { slots: input.slots, queued: input.queued.drop_last() };
        let last = input.queued.len() - 1;
        lemma_handlers(rest);
        assert forall|i: int| 0 <= i < input.callbacks().len() implies input.is_deferred_handler(
            #[trigger] input.callbacks()[i],
        ) by {
            if i < rest.callbacks().len() {
                assert(input.callbacks()[i] == rest.callbacks()[i]);
                assert(rest.is_deferred_handler(rest.callbacks()[i]));
                let j = choose|j: int|
                    0 <= j < rest.queued.len() && rest.deferred(#[trigger] rest.queued[j])
                        && rest.slots[rest.queued[j] as int].callback == rest.callbacks()[i];
                assert(input.queued[j] == rest.queued[j]);
                assert(input.deferred(input.queued[j]));
            } else {
                assert(input.deferred(input.queued[last]));
            }
        }
        if forall|i: int| 0 <= i < input.queued.len() ==> input.deferred(#[trigger] input.queued[i]) {
            assert(input.deferred(input.queued[last]));
            assert forall|i: int| 0 <= i < rest.queued.len() implies rest.deferred(
                #[trigger] rest.queued[i],
            ) by {
                assert(input.deferred(input.queued[i]));
            }
            assert(input.callbacks() =~= Seq::new(
                input.queued.len(),
                |i: int| input.slots[input.queued[i] as int].callback,
            ));
        }
    } else {
        assert(input.callbacks() =~= Seq::new(
            input.queued.len(),
            |i: int| input.slots[input.queued[i] as int].callback,
        ));
    }
}

/// Drains the queue: returns the handlers of the queued events, oldest
/// first, and leaves the queue empty, with its head where its tail is.
/// No handler of a real-time channel is returned: every handler returned
/// is that of a queued channel that is not real-time.
pub fn task_handler(input: &mut Input) -> (callbacks: Vec<Callback>)
    requires
        old(input).wf(),
    ensures
        final(input).wf(),
        callbacks@ == old(input)@.callbacks(),
        forall|i: int|
            0 <= i < callbacks@.len() ==> old(input)@.is_deferred_handler(#[trigger] callbacks@[i]),
        final(input)@ == old(input)@.drained(),
        final(input).event_map == old(input).event_map,
        final(input).queue == old(input).queue,
        final(input).head == old(input).tail,
        final(input).tail == old(input).tail,
        final(input).pending == 0,
{
    let mut callbacks: Vec<Callback> = Vec::new();
    let mut head: usize = input.head;
    let mut pending: usize = input.pending;
    let ghost queued = input@.queued;
    let ghost slots = input@.slots;

    assert(queued.take(0) =~= Seq::<u8>::empty());
    while pending > 0
        invariant
            input.wf(),
            *input == *old(input),
            queued == input@.queued,
            slots == input@.slots,
            pending <= input.pending,
            head < INPUT_QUEUE_LEN,
            head == (input.head + (input.pending - pending)) % 8,
            callbacks@ == handlers(slots, queued.take(input.pending - pending)),
        decreases pending,
    {
        let ghost done = input.pending - pending;
        let event: usize = input.queue[head] as usize;
        assert(event == queued[done]);
        proof {
            assert(queued.take(done + 1).drop_last() =~= queued.take(done));
            assert(queued.take(done + 1).last() == queued[done]);
        }
        // Handlers of real-time channels have run when their events were detected
        if !input.event_map[event].real_time_callback {
            callbacks.push(input.event_map[event].callback);
        }
        // Increment the head pointer
        head = head + 1;
        if head == INPUT_QUEUE_LEN {
            head = 0;
        }
        pending = pending - 1;
    }

    // Reset the head pointer
    input.head = head;
    input.pending = 0;
    proof {
        assert(queued.take(old(input).pending as int) =~= queued);
        lemma_handlers(old(input)@);
        assert(input@.queued =~= Seq::<u8>::empty());
        assert(input@.slots =~= old(input)@.slots);
    }
    callbacks
}

/// The event registers when only channel `channel` has an event pending.
pub open spec fn edge(channel: u8) -> Seq<u32> {
    Seq::new(EVENT_LEN as nat, |i: int| if i == channel { 1u32 } else { 0u32 })
}

/// The table and queue after the interrupt handler has served one edge
/// on each of `channels`, in that order.
pub open spec fn after_edges(input: InputView, channels: Seq<u8>) -> InputView
    decreases channels.len(),
{
    if channels.len() == 0 {
        input
    } else {
        after_edges(input, channels.drop_last()).detect(edge(channels.last()))
    }
}

/// Events are delivered first in, first out. From an empty queue, after
/// edges on any channels that are not real-time, no more of them than
/// the queue holds, a drain returns the handlers of those channels in
/// the order in which the edges were detected.
pub proof fn law_fifo(input: InputView, channels: Seq<u8>)
    requires
        input.wf(),
        input.queued.len() == 0,
        channels.len() <= INPUT_QUEUE_LEN,
        forall|i: int| 0 <= i < channels.len() ==> input.deferred(#[trigger] channels[i]),
    ensures
        after_edges(input, channels).wf(),
        after_edges(input, channels).slots == input.slots,
        after_edges(input, channels).queued == channels,
        after_edges(input, channels).callbacks() == Seq::new(
            channels.len(),
            |i: int| input.slots[channels[i] as int].callback,
        ),
    decreases channels.len(),
{
    if channels.len() > 0 {
        let before = after_edges(input, channels.drop_last());
        law_fifo(input, channels.drop_last());
        let c = channels.last();
        assert(c == channels[channels.len() - 1]);
        assert(forall|i: int| 0 <= i < channels.len() - 1 ==> channels.drop_last()[i] == channels[i]);
        lemma_first_pending(edge(c), 0);
        assert(edge(c)[c as int] == 1);
        assert(first_pending(edge(c), 0) == c);
        assert(after_edges(input, channels).queued =~= channels);
    } else {
        assert(after_edges(input, channels).queued =~= channels);
    }
    lemma_handlers(after_edges(input, channels));
}

/// A pin is bound at most once. Binding a pin that a first binding holds
/// changes nothing and requests no hardware operation, whatever the
/// second configuration asks for: the first handler stays in effect.
pub proof fn law_no_duplicate_binding(input: InputView, first: PinConfig, second: PinConfig)
    requires
        input.wf(),
        input.bind_result(first) is Ok,
        second.pin == first.pin,
    ensures
        input.bind(first).wf(),
        input.bind(first).bind_result(second) == Err::<usize, BindError>(BindError::AlreadyBound),
        input.bind(first).bind(second) == input.bind(first),
        init_pin_actions(input.bind(first), second) == Seq::<ActionView>::empty(),
        input.bind(first).slots[input.bind_result(first)->Ok_0 as int] == bound(first),
{
    lemma_first_slot_is_free(input.slots, first.pin, 0);
    let e = first_slot_for(input.slots, first.pin, 0);
    assert(input.bind(first).slots[e].pin == Some(first.pin));
}

/// Whether some channel is free.
pub open spec fn has_free_slot(input: InputView) -> bool {
    exists|e: int| 0 <= e < input.slots.len() && (#[trigger] input.slots[e]).pin is None
}

/// The table has room for exactly as many pins as it has channels. A pin
/// that is not bound yet is bound if and only if a channel is free; when
/// binding it takes the last free channel, binding one more pin fails
/// with `TableFull` and changes nothing.
pub proof fn law_capacity_boundary(input: InputView, last: PinConfig, more: PinConfig)
    requires
        input.wf(),
        !input.is_bound(last.pin),
    ensures
        input.bind_result(last) is Ok <==> has_free_slot(input),
        !has_free_slot(input) ==> input.bind_result(last) == Err::<usize, BindError>(
            BindError::TableFull,
        ),
        input.bind_result(last) is Ok && !has_free_slot(input.bind(last)) && more.pin != last.pin
            && !input.is_bound(more.pin) ==> input.bind(last).bind_result(more) == Err::<
            usize,
            BindError,
        >(BindError::TableFull) && input.bind(last).bind(more) == input.bind(last),
{
    lemma_first_slot_is_free(input.slots, last.pin, 0);
    let e = first_slot_for(input.slots, last.pin, 0);
    if has_free_slot(input) {
        let free = choose|f: int| 0 <= f < input.slots.len() && (#[trigger] input.slots[f]).pin is None;
        assert(e <= free);
    }
    if e < input.slots.len() {
        assert(input.slots[e].pin is None);
    }
    if input.bind_result(last) is Ok && !has_free_slot(input.bind(last)) && more.pin != last.pin
        && !input.is_bound(more.pin) {
        let full = input.bind(last);
        lemma_first_slot_is_free(full.slots, more.pin, 0);
        let m = first_slot_for(full.slots, more.pin, 0);
        if m < full.slots.len() {
            assert(full.slots[m].pin is None || full.slots[m].pin == Some(more.pin));
            if m != e {
                assert(full.slots[m] == input.slots[m]);
            }
            assert(false);
        }
        assert(!full.is_bound(more.pin)) by {
            if full.is_bound(more.pin) {
                let b = choose|b: int|
                    0 <= b < full.slots.len() && #[trigger] full.slots[b].pin == Some(more.pin);
                if b != e {
                    assert(input.slots[b].pin == Some(more.pin));
                }
            }
        }
    }
}

/// A table with every channel unbound and an empty queue.
pub open spec fn fresh_input() -> InputView {
    InputView { slots: Seq::new(EVENT_LEN as nat, |i: int| unbound()), queued: Seq::empty() }
}

/// The table after `configs` have been bound to `input` one after
/// another.
pub open spec fn bind_all(input: InputView, configs: Seq<PinConfig>) -> InputView
    decreases configs.len(),
{
    if configs.len() == 0 {
        input
    } else {
        bind_all(input, configs.drop_last()).bind(configs.last())
    }
}

/// Whether no two of `configs` name the same pin.
pub open spec fn distinct_pins(configs: Seq<PinConfig>) -> bool {
    forall|i: int, j: int| 0 <= i < j < configs.len() ==> configs[i].pin != configs[j].pin
}

/// After the first `n` of `configs` with distinct pins have been bound
/// to a fresh table, the table holds the first of them, as many as it
/// has channels, in order, and its other channels are unbound.
pub proof fn lemma_bound_in_order(configs: Seq<PinConfig>, n: int)
    requires
        distinct_pins(configs),
        0 <= n <= configs.len(),
    ensures
        bind_all(fresh_input(), configs.take(n)).wf(),
        bind_all(fresh_input(), configs.take(n)).queued == Seq::<u8>::empty(),
        forall|i: int|
            0 <= i < EVENT_LEN ==> #[trigger] bind_all(fresh_input(), configs.take(n)).slots[i] == if i
                < n {
                bound(configs[i])
            } else {
                unbound()
            },
    decreases n,
{
    if n > 0 {
        lemma_bound_in_order(configs, n - 1);
        let before = bind_all(fresh_input(), configs.take(n - 1));
        let config = configs[n - 1];
        assert(configs.take(n).drop_last() =~= configs.take(n - 1));
        assert(configs.take(n).last() == config);
        assert(bind_all(fresh_input(), configs.take(n)) == before.bind(config));
        assert(!before.is_bound(config.pin)) by {
            assert forall|e: int| 0 <= e < before.slots.len() implies #[trigger] before.slots[e].pin
                != Some(config.pin) by {
                if e < n - 1 {
                    assert(configs[e].pin != configs[n - 1].pin);
                }
            }
        }
        lemma_first_slot_is_free(before.slots, config.pin, 0);
        let e = first_slot_for(before.slots, config.pin, 0);
        if n - 1 < EVENT_LEN {
            assert(before.slots[n - 1].pin is None);
            assert(e <= n - 1);
            if e < n - 1 {
                assert(before.slots[e].pin is Some);
            }
            assert(e == n - 1);
        } else {
            if e < EVENT_LEN {
                assert(before.slots[e].pin is Some);
            }
        }
    }
}

/// The table holds one pin a channel. When pins that differ from one
/// another are bound to a fresh table one after another, the first eight
/// are bound, each to the next channel, and every one after them is
/// refused with `TableFull`.
pub proof fn law_table_holds_eight(configs: Seq<PinConfig>, n: int)
    requires
        distinct_pins(configs),
        0 <= n < configs.len(),
    ensures
        bind_all(fresh_input(), configs.take(n)).bind_result(configs[n]) == if n < EVENT_LEN {
            Ok::<usize, BindError>(n as usize)
        } else {
            Err::<usize, BindError>(BindError::TableFull)
        },
{
    lemma_bound_in_order(configs, n);
    let before = bind_all(fresh_input(), configs.take(n));
    let config = configs[n];
    assert(!before.is_bound(config.pin)) by {
        assert forall|e: int| 0 <= e < before.slots.len() implies #[trigger] before.slots[e].pin
            != Some(config.pin) by {
            if e < n {
                assert(configs[e].pin != configs[n].pin);
            }
        }
    }
    lemma_first_slot_is_free(before.slots, config.pin, 0);
    let e = first_slot_for(before.slots, config.pin, 0);
    if n < EVENT_LEN {
        assert(before.slots[n].pin is None);
        if e < n {
            assert(before.slots[e].pin is Some);
        }
    } else {
        if e < EVENT_LEN {
            assert(before.slots[e].pin is Some);
        }
    }
}

} // verus!
