use watch_core::mcu::gpio::{PinDirection, PinPull, PinState};
use watch_core::mcu::input::{
    get_event_exists, get_event_index, gpiote, init_pin, task_handler, BindError, Callback,
    Dispatch, Input, InputQueueEntry, PinConfig, Polarity,
};
use watch_core::mcu::Action;

fn config(pin: u8, callback: Callback, real_time_callback: bool) -> PinConfig {
    PinConfig { pin, polarity: Polarity::HiToLo, pull: PinPull::PullUp, callback, real_time_callback }
}

fn edge(channel: usize) -> [u32; 8] {
    let mut events_in = [0u32; 8];
    events_in[channel] = 1;
    events_in
}

#[test]
fn new_table_is_unbound_and_empty() {
    let mut input = Input::new();
    for slot in input.event_map.iter() {
        assert_eq!(
            *slot,
            InputQueueEntry { pin: None, callback: Callback::Dummy, real_time_callback: false }
        );
    }
    assert_eq!(input.pending, 0);
    assert!(!get_event_exists(&input, 13));
    assert_eq!(get_event_index(&input, 13), Some(0));
    assert_eq!(task_handler(&mut input), vec![]);
}

#[test]
fn binding_takes_the_first_free_channel_and_arms_it() {
    let mut input = Input::new();
    let mut hw = Vec::new();
    let button = PinConfig {
        pin: 13,
        polarity: Polarity::Toggle,
        pull: PinPull::PullUp,
        callback: Callback::Press,
        real_time_callback: false,
    };
    assert_eq!(init_pin(&mut input, &mut hw, button), Ok(0));
    assert_eq!(
        input.event_map[0],
        InputQueueEntry { pin: Some(13), callback: Callback::Press, real_time_callback: false }
    );
    assert_eq!(input.event_map[1].pin, None);
    assert_eq!(
        hw,
        vec![
            Action::PinSetup {
                pin: 13,
                dir: PinDirection::Input,
                state: PinState::PinLow,
                pull: PinPull::PullUp
            },
            Action::MaskEvents,
            Action::ChannelConfig { channel: 0, polarity: Polarity::Toggle, pin: 13 },
            Action::ChannelEnable { channel: 0 },
            Action::ChannelClear { channel: 0 },
            Action::UnpendEvents,
            Action::UnmaskEvents,
        ]
    );
    assert_eq!(init_pin(&mut input, &mut hw, config(28, Callback::Touch, true)), Ok(1));
    assert_eq!(hw.len(), 14);
    assert_eq!(hw[9], Action::ChannelConfig { channel: 1, polarity: Polarity::HiToLo, pin: 28 });
    assert!(get_event_exists(&input, 13));
    assert!(get_event_exists(&input, 28));
    assert!(!get_event_exists(&input, 12));
    assert_eq!(get_event_index(&input, 28), Some(1));
    assert_eq!(get_event_index(&input, 12), Some(2));
}

#[test]
fn binding_a_pin_twice_keeps_the_first_callback() {
    let mut input = Input::new();
    let mut hw = Vec::new();
    assert_eq!(init_pin(&mut input, &mut hw, config(13, Callback::Press, false)), Ok(0));
    let recorded = hw.len();
    assert_eq!(
        init_pin(&mut input, &mut hw, config(13, Callback::Touch, true)),
        Err(BindError::AlreadyBound)
    );
    assert_eq!(hw.len(), recorded);
    assert_eq!(
        input.event_map[0],
        InputQueueEntry { pin: Some(13), callback: Callback::Press, real_time_callback: false }
    );
    assert_eq!(input.event_map[1].pin, None);

    let mut events_in = edge(0);
    assert_eq!(gpiote(&mut input, &mut events_in), Dispatch::Queued);
    assert_eq!(task_handler(&mut input), vec![Callback::Press]);
}

#[test]
fn eight_pins_bind_and_the_ninth_is_refused() {
    let mut input = Input::new();
    let mut hw = Vec::new();
    for pin in 0..8u8 {
        assert_eq!(
            init_pin(&mut input, &mut hw, config(pin + 10, Callback::Press, false)),
            Ok(pin as usize)
        );
    }
    let recorded = hw.len();
    assert_eq!(recorded, 8 * 7);
    let table = input.event_map;
    assert_eq!(
        init_pin(&mut input, &mut hw, config(30, Callback::Connect, false)),
        Err(BindError::TableFull)
    );
    assert_eq!(input.event_map, table);
    assert_eq!(get_event_index(&input, 30), None);
    // The pin itself has been made an input; no channel was touched.
    assert_eq!(
        hw[recorded..],
        [Action::PinSetup {
            pin: 30,
            dir: PinDirection::Input,
            state: PinState::PinLow,
            pull: PinPull::PullUp
        }]
    );
    // A pin that is bound is still reported as bound, not as refused.
    assert_eq!(
        init_pin(&mut input, &mut hw, config(17, Callback::Connect, false)),
        Err(BindError::AlreadyBound)
    );
}

#[test]
fn events_are_delivered_in_the_order_of_detection() {
    let mut input = Input::new();
    let mut hw = Vec::new();
    let callbacks =
        [Callback::Connect, Callback::Press, Callback::Touch, Callback::Dummy, Callback::Press];
    for (i, callback) in callbacks.iter().enumerate() {
        assert_eq!(init_pin(&mut input, &mut hw, config(i as u8, *callback, false)), Ok(i));
    }
    for channel in [3usize, 0, 4, 2, 1] {
        let mut events_in = edge(channel);
        assert_eq!(gpiote(&mut input, &mut events_in), Dispatch::Queued);
        assert_eq!(events_in, [0u32; 8]);
    }
    assert_eq!(
        task_handler(&mut input),
        vec![
            Callback::Dummy,
            Callback::Connect,
            Callback::Press,
            Callback::Touch,
            Callback::Press
        ]
    );
    assert_eq!(task_handler(&mut input), vec![]);
}

#[test]
fn a_full_queue_of_eight_distinct_edges_drains_in_order() {
    let mut input = Input::new();
    let mut hw = Vec::new();
    for pin in 0..8u8 {
        let callback = if pin % 2 == 0 { Callback::Press } else { Callback::Connect };
        init_pin(&mut input, &mut hw, config(pin, callback, false)).unwrap();
    }
    for channel in [7usize, 6, 5, 4, 3, 2, 1, 0] {
        let mut events_in = edge(channel);
        assert_eq!(gpiote(&mut input, &mut events_in), Dispatch::Queued);
    }
    assert_eq!(input.pending, 8);
    assert_eq!(
        task_handler(&mut input),
        vec![
            Callback::Connect,
            Callback::Press,
            Callback::Connect,
            Callback::Press,
            Callback::Connect,
            Callback::Press,
            Callback::Connect,
            Callback::Press
        ]
    );
}

#[test]
fn simultaneous_edges_are_served_lowest_channel_first() {
    let mut input = Input::new();
    let mut hw = Vec::new();
    init_pin(&mut input, &mut hw, config(1, Callback::Connect, false)).unwrap();
    init_pin(&mut input, &mut hw, config(2, Callback::Press, false)).unwrap();
    init_pin(&mut input, &mut hw, config(3, Callback::Touch, false)).unwrap();
    let mut events_in = [0u32, 5, 1, 0, 0, 0, 0, 0];
    assert_eq!(gpiote(&mut input, &mut events_in), Dispatch::Queued);
    assert_eq!(events_in, [0u32, 0, 1, 0, 0, 0, 0, 0]);
    assert_eq!(gpiote(&mut input, &mut events_in), Dispatch::Queued);
    assert_eq!(events_in, [0u32; 8]);
    assert_eq!(gpiote(&mut input, &mut events_in), Dispatch::Idle);
    assert_eq!(task_handler(&mut input), vec![Callback::Press, Callback::Touch]);
}

#[test]
fn an_event_that_finds_the_queue_full_is_dropped() {
    let mut input = Input::new();
    let mut hw = Vec::new();
    init_pin(&mut input, &mut hw, config(1, Callback::Connect, false)).unwrap();
    init_pin(&mut input, &mut hw, config(2, Callback::Press, false)).unwrap();
    for _ in 0..8 {
        let mut events_in = edge(0);
        assert_eq!(gpiote(&mut input, &mut events_in), Dispatch::Queued);
    }
    let mut events_in = edge(1);
    assert_eq!(gpiote(&mut input, &mut events_in), Dispatch::Dropped);
    // The event is acknowledged all the same.
    assert_eq!(events_in, [0u32; 8]);
    assert_eq!(task_handler(&mut input), vec![Callback::Connect; 8]);
    // After the drain there is room again.
    let mut events_in = edge(1);
    assert_eq!(gpiote(&mut input, &mut events_in), Dispatch::Queued);
    assert_eq!(task_handler(&mut input), vec![Callback::Press]);
}

#[test]
fn the_queue_wraps_around_its_buffer() {
    let mut input = Input::new();
    let mut hw = Vec::new();
    init_pin(&mut input, &mut hw, config(1, Callback::Connect, false)).unwrap();
    init_pin(&mut input, &mut hw, config(2, Callback::Press, false)).unwrap();
    for round in 0..5 {
        for channel in [0usize, 1, 1] {
            let mut events_in = edge(channel);
            assert_eq!(gpiote(&mut input, &mut events_in), Dispatch::Queued, "round {}", round);
        }
        assert_eq!(
            task_handler(&mut input),
            vec![Callback::Connect, Callback::Press, Callback::Press]
        );
        assert!(input.head < 8 && input.tail < 8);
        assert_eq!(input.head, input.tail);
    }
}

#[test]
fn a_real_time_event_is_handed_back_at_once_and_never_queued() {
    let mut input = Input::new();
    let mut hw = Vec::new();
    init_pin(&mut input, &mut hw, config(13, Callback::Press, false)).unwrap();
    init_pin(&mut input, &mut hw, config(28, Callback::Touch, true)).unwrap();
    let mut events_in = edge(1);
    assert_eq!(gpiote(&mut input, &mut events_in), Dispatch::Immediate(Callback::Touch));
    assert_eq!(events_in, [0u32; 8]);
    assert_eq!(input.pending, 0);
    let mut events_in = edge(1);
    assert_eq!(gpiote(&mut input, &mut events_in), Dispatch::Immediate(Callback::Touch));
    assert_eq!(task_handler(&mut input), vec![]);
}

#[test]
fn an_event_on_an_unbound_channel_reaches_the_dummy_handler() {
    let mut input = Input::new();
    let mut hw = Vec::new();
    init_pin(&mut input, &mut hw, config(13, Callback::Press, false)).unwrap();
    let mut events_in = edge(5);
    assert_eq!(gpiote(&mut input, &mut events_in), Dispatch::Queued);
    assert_eq!(events_in, [0u32; 8]);
    assert_eq!(input.pending, 1);
    assert_eq!(input.queue[0], 5);
    assert_eq!(task_handler(&mut input), vec![Callback::Dummy]);
}

#[test]
fn an_event_queued_before_its_channel_became_real_time_is_not_drained() {
    let mut input = Input::new();
    let mut hw = Vec::new();
    init_pin(&mut input, &mut hw, config(13, Callback::Press, false)).unwrap();
    // Noise on channel 1, which nothing is bound to yet, and a press.
    let mut events_in = edge(1);
    assert_eq!(gpiote(&mut input, &mut events_in), Dispatch::Queued);
    let mut events_in = edge(0);
    assert_eq!(gpiote(&mut input, &mut events_in), Dispatch::Queued);
    let queue = input.queue;
    let (head, tail, pending) = (input.head, input.tail, input.pending);
    // Binding leaves the queue alone.
    assert_eq!(init_pin(&mut input, &mut hw, config(28, Callback::Touch, true)), Ok(1));
    assert_eq!(input.queue, queue);
    assert_eq!((input.head, input.tail, input.pending), (head, tail, pending));
    assert!(input.is_wf());
    // The drain never returns the handler of a real-time channel.
    assert_eq!(task_handler(&mut input), vec![Callback::Press]);
    assert_eq!((input.head, input.tail, input.pending), (2, 2, 0));
}

#[test]
fn the_interrupt_handler_writes_one_cell_at_the_tail() {
    let mut input = Input::new();
    let mut hw = Vec::new();
    init_pin(&mut input, &mut hw, config(13, Callback::Press, false)).unwrap();
    init_pin(&mut input, &mut hw, config(28, Callback::Touch, true)).unwrap();
    assert_eq!((input.head, input.tail, input.pending), (0, 0, 0));
    input.queue = [9, 9, 9, 9, 9, 9, 9, 9];
    let table = input.event_map;

    // A real-time event bypasses the queue entirely.
    let mut events_in = edge(1);
    assert_eq!(gpiote(&mut input, &mut events_in), Dispatch::Immediate(Callback::Touch));
    assert_eq!(input.queue, [9; 8]);
    assert_eq!((input.head, input.tail, input.pending), (0, 0, 0));
    // So does no event at all.
    let mut events_in = [0u32; 8];
    assert_eq!(gpiote(&mut input, &mut events_in), Dispatch::Idle);
    assert_eq!(input.queue, [9; 8]);
    assert_eq!((input.head, input.tail, input.pending), (0, 0, 0));

    // A queued event is written at the tail, which moves on by one.
    let mut expected = [9u8; 8];
    for n in 0..8 {
        let mut events_in = edge(0);
        assert_eq!(gpiote(&mut input, &mut events_in), Dispatch::Queued);
        expected[n] = 0;
        assert_eq!(input.queue, expected);
        assert_eq!((input.head, input.tail, input.pending), (0, (n + 1) % 8, n + 1));
    }
    // A dropped event writes nothing.
    let mut events_in = edge(0);
    assert_eq!(gpiote(&mut input, &mut events_in), Dispatch::Dropped);
    assert_eq!(input.queue, expected);
    assert_eq!((input.head, input.tail, input.pending), (0, 0, 8));
    assert_eq!(input.event_map, table);

    // The drain leaves the cells and the tail, and brings the head to the tail.
    input.head = 3;
    input.tail = 5;
    input.pending = 2;
    assert_eq!(task_handler(&mut input), vec![Callback::Press, Callback::Press]);
    assert_eq!(input.queue, expected);
    assert_eq!((input.head, input.tail, input.pending), (5, 5, 0));
    // Draining an empty queue changes nothing.
    assert_eq!(task_handler(&mut input), vec![]);
    assert_eq!((input.head, input.tail, input.pending), (5, 5, 0));
    assert_eq!(input.event_map, table);
}

#[test]
fn a_dummy_handler_can_be_bound_like_any_other() {
    let mut input = Input::new();
    let mut hw = Vec::new();
    init_pin(&mut input, &mut hw, config(9, Callback::Dummy, false)).unwrap();
    let mut events_in = edge(0);
    assert_eq!(gpiote(&mut input, &mut events_in), Dispatch::Queued);
    assert_eq!(task_handler(&mut input), vec![Callback::Dummy]);
}

#[test]
fn a_table_and_queue_that_were_tampered_with_are_found_out() {
    let mut input = Input::new();
    let mut hw = Vec::new();
    init_pin(&mut input, &mut hw, config(13, Callback::Press, false)).unwrap();
    init_pin(&mut input, &mut hw, config(28, Callback::Touch, true)).unwrap();
    let mut events_in = edge(0);
    gpiote(&mut input, &mut events_in);
    assert!(input.is_wf());
    // A queued channel must be a channel of the table.
    for (channel, sound) in [(0u8, true), (1, true), (2, true), (7, true), (8, false), (255, false)] {
        input.queue[input.head] = channel;
        assert_eq!(input.is_wf(), sound, "channel {}", channel);
    }
    input.queue[input.head] = 0;
    input.event_map[3].pin = Some(28);
    assert!(!input.is_wf());
    input.event_map[3].pin = None;
    input.event_map[3].callback = Callback::Press;
    assert!(!input.is_wf());
    input.event_map[3].callback = Callback::Dummy;
    assert!(input.is_wf());
    input.pending = 9;
    assert!(!input.is_wf());
}

#[test]
fn no_event_pending_changes_nothing() {
    let mut input = Input::new();
    let mut events_in = [0u32; 8];
    assert_eq!(gpiote(&mut input, &mut events_in), Dispatch::Idle);
    assert_eq!(events_in, [0u32; 8]);
    assert_eq!(input.pending, 0);
}
