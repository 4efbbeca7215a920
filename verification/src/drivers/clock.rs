//! The clock: the time of day, and the clock face on the home page.

use vstd::prelude::*;
use crate::app::info::{DeviceInfo, DeviceInfoChangeFlags};
use crate::drivers::lcd::font;
use crate::drivers::lcd::lcd_api;
use crate::drivers::lcd::lcd_api::Color;
use crate::mcu::rtc;
use crate::mcu::rtc::Rtc;
use crate::mcu::{Action, ActionView};

verus! {

#[derive(Clone, Copy, Debug, PartialEq, Eq, Structural)]
pub struct Time {
    pub hours: u8,
    pub minutes: u8,
    pub seconds: u8,
}

/// What the driver remembers between turns.
pub struct Clock {
    pub time: Time,
    /// The digit shown in each place of the face; 10 where none is.
    pub digits_on_display: [u8; 6],
    pub last_timestamp: u32,
}

/// Left and top edge of the four digits of the face.
pub open spec fn spec_digit_x(place: int) -> u16 {
    if place == 0 {
        35
    } else if place == 1 {
        75
    } else if place == 2 {
        125
    } else {
        165
    }
}

pub const DIGITS_Y: u16 = 120;

/// Number of marks around the face.
pub const BLOCK_COUNT: usize = 12;

/// The marks around the face: left edge, top edge, size and colour.
pub open spec fn spec_block(index: int) -> (u16, u16, u16, Color) {
    if index == 0 {
        (45, 0, 4, Color::Gray)
    } else if index == 1 {
        (115, 0, 8, Color::GrayDark)
    } else if index == 2 {
        (189, 0, 4, Color::GrayDark)
    } else if index == 3 {
        (0, 45, 4, Color::GrayDark)
    } else if index == 4 {
        (235, 45, 4, Color::Gray)
    } else if index == 5 {
        (0, 115, 8, Color::GrayDark)
    } else if index == 6 {
        (231, 115, 8, Color::GrayDark)
    } else if index == 7 {
        (0, 189, 4, Color::Gray)
    } else if index == 8 {
        (235, 189, 4, Color::GrayDark)
    } else if index == 9 {
        (45, 235, 4, Color::GrayDark)
    } else if index == 10 {
        (115, 231, 8, Color::GrayDark)
    } else {
        (189, 235, 4, Color::Gray)
    }
}

fn block(index: usize) -> (b: (u16, u16, u16, Color))
    requires
        index < BLOCK_COUNT,
    ensures
        b == spec_block(index as int),
        b.0 <= 235,
        b.1 <= 235,
        4 <= b.2 <= 8,
{
    if index == 0 {
        (45, 0, 4, Color::Gray)
    } else if index == 1 {
        (115, 0, 8, Color::GrayDark)
    } else if index == 2 {
        (189, 0, 4, Color::GrayDark)
    } else if index == 3 {
        (0, 45, 4, Color::GrayDark)
    } else if index == 4 {
        (235, 45, 4, Color::Gray)
    } else if index == 5 {
        (0, 115, 8, Color::GrayDark)
    } else if index == 6 {
        (231, 115, 8, Color::GrayDark)
    } else if index == 7 {
        (0, 189, 4, Color::Gray)
    } else if index == 8 {
        (235, 189, 4, Color::GrayDark)
    } else if index == 9 {
        (45, 235, 4, Color::GrayDark)
    } else if index == 10 {
        (115, 231, 8, Color::GrayDark)
    } else {
        (189, 235, 4, Color::Gray)
    }
}

fn digit_x(place: usize) -> (x: u16)
    requires
        place < 4,
    ensures
        x == spec_digit_x(place as int),
{
    if place == 0 {
        35
    } else if place == 1 {
        75
    } else if place == 2 {
        125
    } else {
        165
    }
}

impl Time {
    /// A time of day.
    pub open spec fn wf(self) -> bool {
        self.hours < 24 && self.minutes < 60 && self.seconds < 60
    }

    /// The time one second later, midnight following 23:59:59.
    pub open spec fn next_second(self) -> Time {
        if self.seconds + 1 < 60 {
            Time { seconds: (self.seconds + 1) as u8, ..self }
        } else if self.minutes + 1 < 60 {
            Time { seconds: 0, minutes: (self.minutes + 1) as u8, ..self }
        } else if self.hours + 1 < 24 {
            Time { seconds: 0, minutes: 0, hours: (self.hours + 1) as u8 }
        } else {
            Time { seconds: 0, minutes: 0, hours: 0 }
        }
    }

    /// The hour as the face shows it: as it is on a 24-hour face, else 1
    /// to 12.
    pub open spec fn shown_hours(self, is_military_time: bool) -> int {
        if is_military_time {
            self.hours as int
        } else if self.hours % 12 == 0 {
            12
        } else {
            (self.hours % 12) as int
        }
    }

    /// The four digits of the face: tens and units of the hour, tens and
    /// units of the minute.
    pub open spec fn digits(self, is_military_time: bool) -> Seq<u8> {
        seq![
            ((self.shown_hours(is_military_time) / 10) % 10) as u8,
            (self.shown_hours(is_military_time) % 10) as u8,
            ((self.minutes / 10) % 10) as u8,
            (self.minutes % 10) as u8,
        ]
    }
}

impl Clock {
    pub open spec fn wf(&self) -> bool {
        self.time.wf()
    }

    /// Whether the clock holds a time of day, for a caller that cannot
    /// know.
    pub fn is_wf(&self) -> (ok: bool)
        ensures
            ok == self.wf(),
    {
        self.time.hours < 24 && self.time.minutes < 60 && self.time.seconds < 60
    }

    /// Midnight, nothing on the face.
    pub fn new() -> (clock: Clock)
        ensures
            clock.wf(),
            clock.time == (Time { hours: 0, minutes: 0, seconds: 0 }),
            clock.digits_on_display@ == Seq::new(6, |i: int| 10u8),
            clock.last_timestamp == 0,
    {
        let clock = Clock {
            time: Time { hours: 0, minutes: 0, seconds: 0 },
            digits_on_display: [10;6],
            last_timestamp: 0,
        };
        assert(clock.digits_on_display@ =~= Seq::new(6, |i: int| 10u8));
        clock
    }
}

/// Starts the clock: the time moves on by a second.
pub fn init(clock: &mut Clock)
    requires
        old(clock).wf(),
    ensures
        final(clock).wf(),
        final(clock).time == old(clock).time.next_second(),
        final(clock).digits_on_display == old(clock).digits_on_display,
        final(clock).last_timestamp == old(clock).last_timestamp,
{
    let _ = update_add_second(clock);
}

/// Draws the digits of the face that differ from those shown.
pub fn update_time(clock: &mut Clock, hw: &mut Vec<Action>, is_military_time: bool)
    requires
        old(clock).wf(),
    ensures
        final(clock).time == old(clock).time,
        final(clock).last_timestamp == old(clock).last_timestamp,
        final(clock).digits_on_display@ == shown_after(
            old(clock).digits_on_display@,
            old(clock).time.digits(is_military_time),
            false,
            4,
        ),
        final(hw).deep_view() == old(hw).deep_view() + write_digits_actions(
            old(clock).digits_on_display@,
            old(clock).time.digits(is_military_time),
            false,
            4,
        ),
{
    let digits = get_digits(clock.time, is_military_time);
    write(clock, hw, digits, false);
    assert(hw.deep_view() =~= old(hw).deep_view() + write_digits_actions(
        old(clock).digits_on_display@,
        old(clock).time.digits(is_military_time),
        false,
        4,
    ));
}

/// The first `count` marks around the face.
pub open spec fn write_analog_actions(count: nat) -> Seq<ActionView>
    decreases count,
{
    if count == 0 {
        Seq::empty()
    } else {
        write_analog_actions((count - 1) as nat) + lcd_api::fill_rectangle_actions(
            spec_block(count - 1).0,
            spec_block(count - 1).2,
            spec_block(count - 1).1,
            spec_block(count - 1).2,
            spec_block(count - 1).3,
        )
    }
}

/// Draws the marks around the face.
pub fn write_analog(hw: &mut Vec<Action>)
    ensures
        final(hw).deep_view() == old(hw).deep_view() + write_analog_actions(BLOCK_COUNT as nat),
{
    let mut i: usize = 0;
    assert(hw.deep_view() =~= old(hw).deep_view() + write_analog_actions(0));
    while i < BLOCK_COUNT
        invariant
            i <= BLOCK_COUNT,
            hw.deep_view() == old(hw).deep_view() + write_analog_actions(i as nat),
        decreases BLOCK_COUNT - i,
    {
        let (x, y, size, color) = block(i);
        assert(size * size <= 64) by (nonlinear_arith)
            requires
                4 <= size <= 8,
        ;
        lcd_api::fill_rectangle(hw, x, size, y, size, color);
        i += 1;
        assert(hw.deep_view() =~= old(hw).deep_view() + write_analog_actions(i as nat));
    }
}

/// What a full drawing of the face requests: the marks, then all four
/// digits.
pub open spec fn write_time_actions(digits: Seq<u8>) -> Seq<ActionView> {
    write_analog_actions(BLOCK_COUNT as nat) + write_digits_actions(Seq::empty(), digits, true, 4)
}

/// Draws the whole face: the marks around it and all four digits.
pub fn write_time(clock: &mut Clock, hw: &mut Vec<Action>, is_military_time: bool)
    requires
        old(clock).wf(),
    ensures
        final(clock).time == old(clock).time,
        final(clock).last_timestamp == old(clock).last_timestamp,
        final(clock).digits_on_display@ == shown_after(
            old(clock).digits_on_display@,
            old(clock).time.digits(is_military_time),
            true,
            4,
        ),
        final(hw).deep_view() == old(hw).deep_view() + write_time_actions(
            old(clock).time.digits(is_military_time),
        ),
{
    let digits = get_digits(clock.time, is_military_time);
    write(clock, hw, digits, true);
    proof {
        lemma_forced_digits(
            old(clock).digits_on_display@,
            old(clock).time.digits(is_military_time),
            4,
        );
        assert(hw.deep_view() =~= old(hw).deep_view() + write_time_actions(
            old(clock).time.digits(is_military_time),
        ));
    }
}

/// A forced drawing does not depend on what the face shows.
pub proof fn lemma_forced_digits(shown: Seq<u8>, digits: Seq<u8>, count: nat)
    ensures
        write_digits_actions(shown, digits, true, count) == write_digits_actions(
            Seq::empty(),
            digits,
            true,
            count,
        ),
    decreases count,
{
    if count > 0 {
        lemma_forced_digits(shown, digits, (count - 1) as nat);
    }
}

fn get_digits(time: Time, is_military_time: bool) -> (digits: [u8; 4])
    requires
        time.wf(),
    ensures
        digits@ == time.digits(is_military_time),
        forall|i: int| 0 <= i < 4 ==> digits@[i] <= 9,
{
    let mut hours = time.hours;

    // Bring in military time flag as needed
    if !is_military_time {
        hours = hours % 12;
        if hours == 0 {
            hours = 12;
        }
    }
    // Return each digit
    let digits: [u8; 4] = [(hours / 10) % 10, hours % 10, (time.minutes / 10) % 10, time.minutes % 10];
    assert(digits@ =~= time.digits(is_military_time));
    digits
}

fn update_add_second(clock: &mut Clock) -> (update_needed: bool)
    requires
        old(clock).wf(),
    ensures
        final(clock).wf(),
        final(clock).time == old(clock).time.next_second(),
        final(clock).digits_on_display == old(clock).digits_on_display,
        final(clock).last_timestamp == old(clock).last_timestamp,
        update_needed == (old(clock).time.seconds == 59),
{
    let mut update_needed: bool = false;
    let mut time = clock.time;
    time.seconds += 1;

    if time.seconds >= 60 {
        update_needed = true;
        time.seconds = 0;
        time.minutes += 1;

        if time.minutes >= 60 {
            time.minutes = 0;
            time.hours += 1;

            if time.hours >= 24 {
                time.hours = 0;
            }
        }
    }
    clock.time = time;
    update_needed
}

/// Whether place `place` of the face is drawn.
pub open spec fn place_drawn(shown: Seq<u8>, digits: Seq<u8>, force_update: bool, place: int) -> bool {
    force_update || digits[place] != shown[place]
}

/// What drawing one place of the face requests: a leading zero is
/// blanked, any other digit is written.
pub open spec fn write_digit_actions(digits: Seq<u8>, place: int) -> Seq<ActionView> {
    if place == 0 && digits[place] == 0 {
        lcd_api::fill_rectangle_actions(
            spec_digit_x(place),
            font::TIME_CHARACTER_WIDTH,
            DIGITS_Y,
            font::TIME_CHARACTER_HEIGHT,
            Color::Black,
        )
    } else {
        font::write_minimal_character_actions(
            font::digit_character(digits[place]),
            spec_digit_x(place),
            DIGITS_Y,
            Color::Gray,
            Color::Black,
            font::TIME_CHARACTER_SCALE,
        )
    }
}

/// What drawing the first `count` places requests, when the face shows
/// `shown` and is to show `digits`: each place that is forced or differs
/// is drawn.
pub open spec fn write_digits_actions(shown: Seq<u8>, digits: Seq<u8>, force_update: bool, count: nat) -> Seq<
    ActionView,
>
    decreases count,
{
    if count == 0 {
        Seq::empty()
    } else {
        write_digits_actions(shown, digits, force_update, (count - 1) as nat) + if place_drawn(
            shown,
            digits,
            force_update,
            count - 1,
        ) {
            write_digit_actions(digits, count - 1)
        } else {
            Seq::empty()
        }
    }
}

/// What the face shows after its first `count` places have been gone
/// through: the new digit in each of them, the rest as before.
pub open spec fn shown_after(shown: Seq<u8>, digits: Seq<u8>, force_update: bool, count: int) -> Seq<u8> {
    Seq::new(
        shown.len(),
        |i: int| if i < count {
            digits[i]
        } else {
            shown[i]
        },
    )
}

fn write(clock: &mut Clock, hw: &mut Vec<Action>, digits: [u8; 4], force_update: bool)
    requires
        forall|i: int| 0 <= i < 4 ==> digits@[i] <= 9,
    ensures
        final(clock).time == old(clock).time,
        final(clock).last_timestamp == old(clock).last_timestamp,
        final(clock).digits_on_display@ == shown_after(
            old(clock).digits_on_display@,
            digits@,
            force_update,
            4,
        ),
        final(hw).deep_view() == old(hw).deep_view() + if force_update {
            write_analog_actions(BLOCK_COUNT as nat)
        } else {
            Seq::<ActionView>::empty()
        } + write_digits_actions(old(clock).digits_on_display@, digits@, force_update, 4),
{
    if force_update {
        write_analog(hw);
    }
    let ghost start = hw.deep_view();
    let ghost shown = clock.digits_on_display@;
    let mut i: usize = 0;
    assert(hw.deep_view() =~= start + write_digits_actions(shown, digits@, force_update, 0));
    assert(clock.digits_on_display@ =~= shown_after(shown, digits@, force_update, 0));
    while i < 4
        invariant
            i <= 4,
            shown == old(clock).digits_on_display@,
            shown.len() == 6,
            forall|j: int| 0 <= j < 4 ==> digits@[j] <= 9,
            clock.time == old(clock).time,
            clock.last_timestamp == old(clock).last_timestamp,
            clock.digits_on_display@ == shown_after(shown, digits@, force_update, i as int),
            hw.deep_view() == start + write_digits_actions(shown, digits@, force_update, i as nat),
        decreases 4 - i,
    {
        if force_update || digits[i] != clock.digits_on_display[i] {
            if i == 0 && digits[i] == 0 {
                lcd_api::fill_rectangle(
                    hw,
                    digit_x(i),
                    font::TIME_CHARACTER_WIDTH,
                    DIGITS_Y,
                    font::TIME_CHARACTER_HEIGHT,
                    Color::Black,
                );
            } else {
                font::write_time_character(hw, digits[i], digit_x(i), DIGITS_Y, Color::Gray, Color::Black);
            }
            clock.digits_on_display[i] = digits[i];
        }
        i += 1;
        assert(clock.digits_on_display@ =~= shown_after(shown, digits@, force_update, i as int));
        assert(hw.deep_view() =~= start + write_digits_actions(shown, digits@, force_update, i as nat));
    }
    assert(hw.deep_view() =~= old(hw).deep_view() + if force_update {
        write_analog_actions(BLOCK_COUNT as nat)
    } else {
        Seq::<ActionView>::empty()
    } + write_digits_actions(old(clock).digits_on_display@, digits@, force_update, 4));
}

impl Clock {
    /// Whether a turn at time `rtc` moves the time on.
    pub open spec fn second_due(&self, rtc: Rtc) -> bool {
        rtc.elapsed(self.last_timestamp) >= 1
    }

    /// The time after a turn at time `rtc`: a second later if at least a
    /// second has passed since the last turn that moved it.
    pub open spec fn time_after(&self, rtc: Rtc) -> Time {
        if self.second_due(rtc) {
            self.time.next_second()
        } else {
            self.time
        }
    }

    /// Whether a turn at time `rtc` begins a new minute.
    pub open spec fn minute_begins(&self, rtc: Rtc) -> bool {
        self.second_due(rtc) && self.time.seconds == 59
    }

    /// The device state after a turn at time `rtc`: the driver's flag is
    /// lowered; when a new minute begins the time is published with the
    /// flag raised.
    pub open spec fn publish(&self, d: DeviceInfo, rtc: Rtc) -> DeviceInfo {
        if self.minute_begins(rtc) {
            DeviceInfo {
                change_flags: DeviceInfoChangeFlags { time_change: true, ..d.change_flags },
                time: self.time.next_second(),
                ..d
            }
        } else {
            DeviceInfo {
                change_flags: DeviceInfoChangeFlags { time_change: false, ..d.change_flags },
                ..d
            }
        }
    }
}

/// One turn of the driver: the flag raised in the last turn is lowered,
/// and if a second has passed the time moves on by one second.
pub fn task_handler(clock: &mut Clock, d: &mut DeviceInfo, rtc: &Rtc)
    requires
        old(clock).wf(),
    ensures
        final(clock).wf(),
        final(clock).time == old(clock).time_after(*rtc),
        final(clock).digits_on_display == old(clock).digits_on_display,
        final(clock).last_timestamp == if old(clock).second_due(*rtc) {
            rtc.seconds
        } else {
            old(clock).last_timestamp
        },
        *final(d) == old(clock).publish(*old(d), *rtc),
{
    if d.change_flags.time_change {
        d.change_flags.time_change = false;
    }
    if rtc::get_timediff(rtc, clock.last_timestamp) >= 1 {
        clock.last_timestamp = rtc::get_timestamp(rtc);
        if update_add_second(clock) {
            d.change_flags.time_change = true;
            d.time = clock.time;
        }
    }
}

} // verus!
