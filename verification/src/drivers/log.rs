//! A scrolling log of short text lines, shown on the log page.
//!
//! The first line is a header and stays. When the log is full, a new
//! entry pushes the oldest line below the header out.

use vstd::prelude::*;
use vstd::string::StringSliceAdditionalSpecFns;
use crate::app::info::DeviceInfo;
use crate::app::page::AppPage;
use crate::drivers::lcd::font;
use crate::drivers::lcd::lcd_api;
use crate::drivers::lcd::lcd_api::Color;
use crate::mcu::{Action, ActionView};

verus! {

#[derive(Clone, Copy, Debug, PartialEq, Eq)]
pub struct LogLine {
    pub active: bool,
    pub stale: bool,
    pub line: [u8; 24],
}

pub const LOG_INITIAL_X: u16 = 0;

pub const LOG_INITIAL_Y: u16 = 0;

pub const LOG_SCALE: u16 = 2;

pub const LOG_PREFIX_LENGTH: usize = 3;

pub const LOG_MAX_LENGTH: usize = 24;

/// Characters of an entry that are kept.
pub const LOG_ACTUAL_LEN: usize = 21;

pub const LOG_LINE_ENTRIES: usize = 15;

/// The lines of the log; the first `lines_active` of them are in use.
pub struct Log {
    pub lines_active: usize,
    pub lines: [LogLine; 15],
}

/// A line as a mathematical value.
#[verifier::ext_equal]
pub struct LineView {
    pub active: bool,
    pub stale: bool,
    pub text: Seq<u8>,
}

/// The log as a mathematical value.
#[verifier::ext_equal]
pub struct LogView {
    pub lines_active: int,
    pub lines: Seq<LineView>,
}

impl View for LogLine {
    type V = LineView;

    open spec fn view(&self) -> LineView {
        LineView { active: self.active, stale: self.stale, text: self.line@ }
    }
}

impl View for Log {
    type V = LogView;

    open spec fn view(&self) -> LogView {
        LogView {
            lines_active: self.lines_active as int,
            lines: Seq::new(LOG_LINE_ENTRIES as nat, |i: int| self.lines@[i]@),
        }
    }
}

/// The text of the header line.
pub open spec fn welcome() -> &'static str {
    "** Log Output Window **"
}

/// A line that has never been written: not active, stale, all zero.
pub open spec fn blank_line() -> LineView {
    LineView { active: false, stale: true, text: Seq::new(LOG_MAX_LENGTH as nat, |i: int| 0u8) }
}

/// The number of characters of a text of `len` bytes that an entry keeps.
pub open spec fn kept(len: int) -> int {
    if len < LOG_ACTUAL_LEN {
        len
    } else {
        LOG_ACTUAL_LEN as int
    }
}

/// The bytes of a line after `text` has been written over `before`: the
/// kept characters, then a terminator if the text is shorter than an
/// entry; the rest is what the line held.
pub open spec fn text_line(before: Seq<u8>, text: Seq<u8>) -> Seq<u8> {
    Seq::new(
        LOG_MAX_LENGTH as nat,
        |i: int| if i < kept(text.len() as int) {
            text[i]
        } else if i == text.len() && text.len() < LOG_ACTUAL_LEN {
            0u8
        } else {
            before[i]
        },
    )
}

/// 10 to the power `exponent`.
pub open spec fn pow10(exponent: nat) -> int
    decreases exponent,
{
    if exponent == 0 {
        1
    } else {
        10 * pow10((exponent - 1) as nat)
    }
}

/// The number of decimal digits of `num`; 1 for 0.
pub open spec fn num_len(num: int) -> int
    decreases num,
{
    if num < 10 {
        1
    } else {
        1 + num_len(num / 10)
    }
}

/// The bytes of a line after `text` and `num` have been written over
/// `before`: the kept characters of the text; then the decimal digits of
/// the number, least significant first, as far as the entry has room;
/// then, if both fit in an entry, a terminator three places after the
/// last digit. The rest is what the line held.
pub open spec fn number_line(before: Seq<u8>, text: Seq<u8>, num: u32) -> Seq<u8> {
    let string_len = kept(text.len() as int);
    let digits = num_len(num as int);
    Seq::new(
        LOG_MAX_LENGTH as nat,
        |i: int| if i < string_len {
            text[i]
        } else if i < string_len + digits && i < LOG_ACTUAL_LEN {
            (0x30 + (num as int / pow10((i - string_len) as nat)) % 10) as u8
        } else if i == string_len + digits + 3 && string_len + digits <= LOG_ACTUAL_LEN {
            0u8
        } else {
            before[i]
        },
    )
}

/// Whether an entry made of `text` and `num` can be written: its
/// terminator has a place in the line, and ten digits are not all
/// written.
pub open spec fn number_fits(text: Seq<u8>, num: u32) -> bool {
    &&& kept(text.len() as int) + num_len(num as int) != LOG_ACTUAL_LEN
    &&& (num_len(num as int) < 10 || kept(text.len() as int) > LOG_ACTUAL_LEN - 10)
}

impl LogView {
    pub open spec fn wf(self) -> bool {
        &&& 0 <= self.lines_active <= LOG_LINE_ENTRIES
        &&& self.lines.len() == LOG_LINE_ENTRIES
        &&& forall|i: int| 0 <= i < self.lines.len() ==> (#[trigger] self.lines[i]).text.len() == LOG_MAX_LENGTH
    }

    /// The log after the oldest entry below the header has been dropped:
    /// every line from the second on takes the text of the one after it
    /// and is marked active and stale, and the last line in use is
    /// retired.
    pub open spec fn popped(self) -> LogView {
        LogView {
            lines_active: self.lines_active - 1,
            lines: Seq::new(
                self.lines.len(),
                |i: int| if 1 <= i < self.lines_active - 1 {
                    LineView { active: true, stale: true, text: self.lines[i + 1].text }
                } else if i == self.lines_active - 1 {
                    LineView { active: false, ..self.lines[i] }
                } else {
                    self.lines[i]
                },
            ),
        }
    }

    /// The log with room for a new entry: as it is, or with the oldest
    /// entry dropped if it is full.
    pub open spec fn room(self) -> LogView {
        if self.lines_active == LOG_LINE_ENTRIES {
            self.popped()
        } else {
            self
        }
    }

    /// The log after a new entry with the bytes `text` has been made in
    /// the first line not in use.
    pub open spec fn entered(self, text: Seq<u8>) -> LogView {
        LogView {
            lines_active: self.lines_active + 1,
            lines: self.lines.update(
                self.lines_active,
                LineView { active: true, stale: true, text },
            ),
        }
    }

    /// The line that a new entry is written over.
    pub open spec fn next_line(self) -> Seq<u8> {
        self.room().lines[self.room().lines_active].text
    }

    /// The log after `text` has been pushed.
    pub open spec fn push(self, text: Seq<u8>) -> LogView {
        self.room().entered(text_line(self.next_line(), text))
    }

    /// The log after `text` and `num` have been pushed.
    pub open spec fn push_number(self, text: Seq<u8>, num: u32) -> LogView {
        self.room().entered(number_line(self.next_line(), text, num))
    }

    /// The log with its first `count` lines marked stale or not.
    pub open spec fn marked(self, count: int, stale: bool) -> LogView {
        LogView {
            lines_active: self.lines_active,
            lines: Seq::new(
                self.lines.len(),
                |i: int| if i < count {
                    LineView { stale, ..self.lines[i] }
                } else {
                    self.lines[i]
                },
            ),
        }
    }

    /// How many lines a showing of the log goes through, counted from
    /// line `from`: the lines in use up to the first that is not active.
    pub open spec fn shown(self, from: int) -> int
        decreases self.lines_active - from,
    {
        if from < 0 || from >= self.lines_active {
            self.lines_active
        } else if !self.lines[from].active {
            from
        } else {
            self.shown(from + 1)
        }
    }
}

impl Log {
    pub open spec fn wf(&self) -> bool {
        self.lines_active <= LOG_LINE_ENTRIES
    }

    /// Whether the log is well-formed, for a caller that cannot know.
    pub fn is_wf(&self) -> (ok: bool)
        ensures
            ok == self.wf(),
    {
        self.lines_active <= LOG_LINE_ENTRIES
    }

    /// An empty log.
    pub fn new() -> (log: Log)
        ensures
            log.wf(),
            log@.lines_active == 0,
            log@.lines == Seq::new(LOG_LINE_ENTRIES as nat, |i: int| blank_line()),
    {
        let line: [u8; 24] = [0u8;24];
        let log = Log { lines_active: 0, lines: [LogLine { active: false, stale: true, line };15] };
        assert(log@.lines =~~= Seq::new(LOG_LINE_ENTRIES as nat, |i: int| blank_line()));
        log
    }
}

/// Starts the log with its header line.
pub fn init(log: &mut Log)
    requires
        old(log).wf(),
    ensures
        final(log).wf(),
        final(log)@ == old(log)@.push(welcome().spec_bytes()),
{
    // Push the welcome message
    push_log(log, "** Log Output Window **");
}

/// Marks every line in use as not yet shown.
pub fn make_stale(log: &mut Log)
    requires
        old(log).wf(),
    ensures
        final(log).wf(),
        final(log)@ == old(log)@.marked(old(log)@.lines_active, true),
{
    let mut i: usize = 0;
    assert(log@ =~~= old(log)@.marked(0, true));
    while i < log.lines_active
        invariant
            i <= log.lines_active <= LOG_LINE_ENTRIES,
            log.lines_active == old(log).lines_active,
            log@ == old(log)@.marked(i as int, true),
        decreases log.lines_active - i,
    {
        let line = log.lines[i];
        let ghost marked = log@;
        log.lines[i] = LogLine { active: line.active, stale: true, line: line.line };
        assert forall|j: int| 0 <= j < LOG_LINE_ENTRIES implies log@.lines[j] == old(log)@.marked(
            i + 1,
            true,
        ).lines[j] by {
            if j != i {
                assert(log@.lines[j] == marked.lines[j]);
            } else {
                assert(line@ == marked.lines[j]);
            }
        }
        i += 1;
        assert(log@ =~~= old(log)@.marked(i as int, true));
    }
}

/// Adds `string` to the log as a new entry.
pub fn push_log(log: &mut Log, string: &str)
    requires
        old(log).wf(),
    ensures
        final(log).wf(),
        final(log)@ == old(log)@.push(string.spec_bytes()),
{
    if log.lines_active == LOG_LINE_ENTRIES {
        pop_log(log);
    }
    let index: usize = log.lines_active;
    log.lines_active = log.lines_active + 1;

    let string = string.as_bytes();
    let len: usize = if string.len() < LOG_ACTUAL_LEN {
        string.len()
    } else {
        LOG_ACTUAL_LEN
    };
    let mut line: [u8; 24] = log.lines[index].line;
    let ghost before = line@;

    // Copy bytes from string into the log lines object
    let mut i: usize = 0;
    while i < len
        invariant
            i <= len <= LOG_ACTUAL_LEN,
            len <= string@.len(),
            before.len() == LOG_MAX_LENGTH,
            forall|j: int| 0 <= j < i ==> line@[j] == string@[j],
            forall|j: int| i <= j < LOG_MAX_LENGTH ==> line@[j] == before[j],
        decreases len - i,
    {
        line[i] = string[i];
        i += 1;
    }
    if len < LOG_ACTUAL_LEN {
        line[len] = 0;
    }
    assert(line@ =~= text_line(before, string@));
    log.lines[index] = LogLine { active: true, stale: true, line };
    assert(log@ =~~= old(log)@.push(string@));
}

/// The digits of a 32-bit number are at most ten.
pub proof fn lemma_num_len_bound(num: u32)
    ensures
        1 <= num_len(num as int) <= 10,
{
    reveal_with_fuel(num_len, 11);
}

/// Adds `string` followed by the decimal digits of `num`, least
/// significant digit first, to the log as a new entry.
pub fn push_log_number(log: &mut Log, string: &str, num: &u32)
    requires
        old(log).wf(),
        number_fits(string.spec_bytes(), *num),
    ensures
        final(log).wf(),
        final(log)@ == old(log)@.push_number(string.spec_bytes(), *num),
{
    if log.lines_active == LOG_LINE_ENTRIES {
        pop_log(log);
    }
    let index: usize = log.lines_active;
    log.lines_active = log.lines_active + 1;

    let string = string.as_bytes();
    let string_len: usize = if string.len() < LOG_ACTUAL_LEN {
        string.len()
    } else {
        LOG_ACTUAL_LEN
    };
    let digits: usize = get_num_len(*num);
    proof {
        lemma_num_len_bound(*num);
    }
    let mut line: [u8; 24] = log.lines[index].line;
    let ghost before = line@;

    // Copy bytes from string into the log lines object
    let mut i: usize = 0;
    while i < string_len
        invariant
            i <= string_len <= LOG_ACTUAL_LEN,
            string_len <= string@.len(),
            before.len() == LOG_MAX_LENGTH,
            forall|j: int| 0 <= j < i ==> line@[j] == string@[j],
            forall|j: int| i <= j < LOG_MAX_LENGTH ==> line@[j] == before[j],
        decreases string_len - i,
    {
        line[i] = string[i];
        i += 1;
    }
    // Copy in number as ascii
    let mut div: u32 = 1;
    let mut i: usize = string_len;
    while i < string_len + digits
        invariant_except_break
            string_len <= i <= string_len + digits,
            i <= LOG_ACTUAL_LEN,
        invariant
            string_len <= LOG_ACTUAL_LEN,
            string_len <= string@.len(),
            before.len() == LOG_MAX_LENGTH,
            1 <= digits <= 10,
            digits < 10 || string_len > LOG_ACTUAL_LEN - 10,
            i - string_len <= 9,
            div == pow10((i - string_len) as nat),
            forall|j: int| 0 <= j < string_len ==> line@[j] == string@[j],
            forall|j: int|
                string_len <= j < i ==> line@[j] == (0x30 + (*num as int / pow10(
                    (j - string_len) as nat,
                )) % 10) as u8,
            forall|j: int| i <= j < LOG_MAX_LENGTH ==> line@[j] == before[j],
        ensures
            i == string_len + digits || i == LOG_ACTUAL_LEN,
            string_len <= i <= string_len + digits,
            i <= LOG_ACTUAL_LEN,
        decreases string_len + digits - i,
    {
        proof {
            reveal_with_fuel(pow10, 11);
        }
        if i == LOG_ACTUAL_LEN {
            break ;
        } else {
            line[i] = (0x30 + ((*num / div) % 10)) as u8;
            div = div * 10;
        }
        i += 1;
    }

    if string_len + digits <= LOG_ACTUAL_LEN {
        line[string_len + digits + 3] = 0;
    }
    assert(line@ =~= number_line(before, string@, *num));
    log.lines[index] = LogLine { active: true, stale: true, line };
    assert(log@ =~~= old(log)@.push_number(string@, *num));
}

/// The top edge of log line `line_number` on the display.
pub open spec fn line_y(line_number: int) -> int {
    LOG_INITIAL_Y + line_number * (font::MINIMAL_CHARACTER_HEIGHT * LOG_SCALE)
}

pub open spec fn clear_line_actions(line_number: int) -> Seq<ActionView> {
    lcd_api::fill_rectangle_actions(
        0,
        lcd_api::PANEL_SIZE,
        line_y(line_number) as u16,
        (font::MINIMAL_CHARACTER_HEIGHT * LOG_SCALE) as u16,
        Color::Black,
    )
}

fn clear_line(hw: &mut Vec<Action>, line_number: usize)
    requires
        line_number < LOG_LINE_ENTRIES,
    ensures
        final(hw).deep_view() == old(hw).deep_view() + clear_line_actions(line_number as int),
{
    let y: u16 = LOG_INITIAL_Y + ((line_number as u16) * font::MINIMAL_CHARACTER_HEIGHT * LOG_SCALE);
    lcd_api::fill_rectangle(
        hw,
        0,
        lcd_api::PANEL_SIZE,
        y,
        font::MINIMAL_CHARACTER_HEIGHT * LOG_SCALE,
        Color::Black,
    );
}

/// The length of the text of a line, counted from `from`: up to and
/// with its first terminator, or the whole line if it has none.
pub open spec fn line_length(line: Seq<u8>, from: int) -> int
    decreases line.len() - from,
{
    if from < 0 || from >= line.len() {
        line.len() as int
    } else if line[from] == 0 {
        from + 1
    } else {
        line_length(line, from + 1)
    }
}

fn get_line_length(log: &Log, line_number: usize) -> (length: usize)
    requires
        line_number < LOG_LINE_ENTRIES,
    ensures
        length == line_length(log@.lines[line_number as int].text, 0),
        1 <= length <= LOG_MAX_LENGTH,
{
    let line: [u8; 24] = log.lines[line_number].line;
    let mut i: usize = 0;
    while i < LOG_MAX_LENGTH
        invariant
            i <= LOG_MAX_LENGTH,
            line@ == log@.lines[line_number as int].text,
            line_length(line@, 0) == line_length(line@, i as int),
        decreases LOG_MAX_LENGTH - i,
    {
        if line[i] == 0 {
            return i + 1;
        }
        i += 1;
    }
    LOG_MAX_LENGTH
}

fn get_num_len(num: u32) -> (len: usize)
    ensures
        len == num_len(num as int),
{
    let ghost all = num;
    let mut num = num;
    let mut len: usize = 1;
    num = num / 10;
    proof {
        lemma_num_len_bound(all);
    }
    while num > 0
        invariant
            1 <= num_len(all as int) <= 10,
            num_len(all as int) == if num > 0 {
                len + num_len(num as int)
            } else {
                len as int
            },
        decreases num,
    {
        proof {
            lemma_num_len_bound(num);
        }
        len += 1;
        num = num / 10;
    }

    len
}

fn pop_log(log: &mut Log)
    requires
        old(log).wf(),
        old(log).lines_active >= 1,
    ensures
        final(log).wf(),
        final(log)@ == old(log)@.popped(),
{
    // Show that a line has just been popped
    log.lines_active = log.lines_active - 1;

    // Shift all entries up one - leaving the bottom entry available
    // Start at 1 to always show the header on row 0
    let mut i: usize = 1;
    while i < log.lines_active
        invariant
            1 <= i,
            i <= log.lines_active || i == 1,
            log.lines_active == old(log).lines_active - 1,
            old(log).lines_active <= LOG_LINE_ENTRIES,
            forall|j: int|
                0 <= j < LOG_LINE_ENTRIES ==> #[trigger] log@.lines[j] == if 1 <= j < i {
                    LineView { active: true, stale: true, text: old(log)@.lines[j + 1].text }
                } else {
                    old(log)@.lines[j]
                },
        decreases log.lines_active - i,
    {
        let next: [u8; 24] = log.lines[i + 1].line;
        assert(next@ == log@.lines[i + 1].text);
        let ghost shifted = log@;
        log.lines[i] = LogLine { active: true, stale: true, line: next };
        assert forall|j: int| 0 <= j < LOG_LINE_ENTRIES implies #[trigger] log@.lines[j] == if 1 <= j
            < i + 1 {
            LineView { active: true, stale: true, text: old(log)@.lines[j + 1].text }
        } else {
            old(log)@.lines[j]
        } by {
            if j != i {
                assert(log@.lines[j] == shifted.lines[j]);
            }
        }
        i += 1;
    }
    let last = log.lines[log.lines_active];
    let ghost shifted = log@;
    log.lines[log.lines_active] = LogLine { active: false, stale: last.stale, line: last.line };
    assert forall|j: int| 0 <= j < LOG_LINE_ENTRIES implies log@.lines[j] == old(log)@.popped().lines[j] by {
        if j != log.lines_active {
            assert(log@.lines[j] == shifted.lines[j]);
        } else {
            assert(last@ == shifted.lines[j]);
            assert(shifted.lines[j] == old(log)@.lines[j]);
        }
    }
    assert(log@ =~~= old(log)@.popped());
}

/// The text `line` of line `line_number` drawn at its place.
pub open spec fn write_line_actions(line: Seq<u8>, line_number: int) -> Seq<ActionView> {
    font::write_minimal_line_actions(
        line.subrange(0, line_length(line, 0)),
        line_length(line, 0) as nat,
        LOG_INITIAL_X,
        line_y(line_number) as u16,
        Color::White,
        Color::Black,
        LOG_SCALE,
    )
}

fn write_line(log: &mut Log, hw: &mut Vec<Action>, line_number: usize)
    requires
        old(log).wf(),
        line_number < LOG_LINE_ENTRIES,
    ensures
        final(log).wf(),
        final(log)@ == (LogView {
            lines: old(log)@.lines.update(
                line_number as int,
                LineView { stale: false, ..old(log)@.lines[line_number as int] },
            ),
            ..old(log)@
        }),
        final(hw).deep_view() == old(hw).deep_view() + write_line_actions(
            old(log)@.lines[line_number as int].text,
            line_number as int,
        ),
{
    let y: u16 = LOG_INITIAL_Y + ((line_number as u16) * font::MINIMAL_CHARACTER_HEIGHT * LOG_SCALE);
    let len: usize = get_line_length(log, line_number);
    let entry = log.lines[line_number];
    let text = vstd::slice::slice_subrange(entry.line.as_slice(), 0, len);
    assert(text@.len() * (6 * LOG_SCALE) <= 24 * 12) by (nonlinear_arith)
        requires
            text@.len() <= 24,
            LOG_SCALE == 2,
    ;
    font::write_minimal_line(hw, text, LOG_INITIAL_X, y, Color::White, Color::Black, LOG_SCALE);

    // Update the stale line flag showing it has been displayed
    log.lines[line_number] = LogLine { active: entry.active, stale: false, line: entry.line };
    assert(log@ =~~= (LogView {
        lines: old(log)@.lines.update(
            line_number as int,
            LineView { stale: false, ..old(log)@.lines[line_number as int] },
        ),
        ..old(log)@
    }));
}

/// What showing the first `count` lines draws: each stale line is cleared
/// and written again, top to bottom.
pub open spec fn show_actions(lines: Seq<LineView>, count: nat) -> Seq<ActionView>
    decreases count,
{
    if count == 0 {
        Seq::empty()
    } else {
        show_actions(lines, (count - 1) as nat) + if lines[count - 1].stale {
            clear_line_actions(count - 1) + write_line_actions(lines[count - 1].text, count - 1)
        } else {
            Seq::empty()
        }
    }
}

/// The log after a turn while `page` is open: on the log page the lines
/// that were gone through are no longer stale.
pub open spec fn after_turn(log: LogView, page: AppPage) -> LogView {
    if page == AppPage::Log {
        log.marked(log.shown(0), false)
    } else {
        log
    }
}

/// What a turn draws while `page` is open.
pub open spec fn task_handler_actions(log: LogView, page: AppPage) -> Seq<ActionView> {
    if page == AppPage::Log {
        show_actions(log.lines, log.shown(0) as nat)
    } else {
        Seq::empty()
    }
}

/// Shows the log if the log page is open: every line in use that is
/// stale is drawn again and is no longer stale. The showing ends at the
/// first line in use that is not active.
pub fn task_handler(log: &mut Log, d: &DeviceInfo, hw: &mut Vec<Action>)
    requires
        old(log).wf(),
    ensures
        final(log).wf(),
        final(log)@ == after_turn(old(log)@, d.app_page),
        final(hw).deep_view() == old(hw).deep_view() + task_handler_actions(old(log)@, d.app_page),
{
    if let AppPage::Log = d.app_page {
        let mut i: usize = 0;
        assert(hw.deep_view() =~= old(hw).deep_view() + show_actions(old(log)@.lines, 0));
        assert(log@ =~~= old(log)@.marked(0, false));
        while i < log.lines_active
            invariant
                d.app_page == AppPage::Log,
                i <= log.lines_active <= LOG_LINE_ENTRIES,
                log.lines_active == old(log).lines_active,
                old(log)@.shown(0) == old(log)@.shown(i as int),
                hw.deep_view() == old(hw).deep_view() + show_actions(old(log)@.lines, i as nat),
                log@ == old(log)@.marked(i as int, false),
            decreases log.lines_active - i,
        {
            assert(log@.lines[i as int] == old(log)@.lines[i as int]);
            // If log lines are current, do nothing
            if !log.lines[i].active {
                proof {
                    assert(log@.lines[i as int] == old(log)@.lines[i as int]);
                    assert(old(log)@.shown(i as int) == i);
                }
                return ;
            }
            if log.lines[i].stale {
                clear_line(hw, i);
                write_line(log, hw, i);
            }
            i += 1;
            assert(hw.deep_view() =~= old(hw).deep_view() + show_actions(old(log)@.lines, i as nat));
            assert(log@ =~~= old(log)@.marked(i as int, false));
        }
    } else {
        assert(hw.deep_view() =~= old(hw).deep_view() + task_handler_actions(old(log)@, d.app_page));
    }
}

} // verus!
