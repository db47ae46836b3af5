//! Log records on their way into the graphics library, and log lines on
//! their way out of it.
//!
//! The library takes a record as a level, a file name, a line number, a
//! function name and a message, and gives out a level and a line of text.
//! This module decides what is handed over; the calls are made outside.
use vstd::prelude::*;
use vstd::string::*;
use crate::support::LogLevel;
use crate::text::chars_of;

verus! {

/// The levels at which a program logs, from the most to the least severe.
#[derive(Debug, Copy, Clone, Eq, PartialEq, Structural)]
pub enum Level {
    Error,
    Warn,
    Info,
    Debug,
    Trace,
}

/// The graphics library's level for a record logged at `level`. The library
/// has no level for debugging: such a record is traced.
pub open spec fn lv_level(level: Level) -> LogLevel {
    match level {
        Level::Trace => LogLevel::Trace,
        Level::Debug => LogLevel::Trace,
        Level::Info => LogLevel::Info,
        Level::Warn => LogLevel::Warn,
        Level::Error => LogLevel::Error,
    }
}

/// The line number as the graphics library takes it: a signed number of 32
/// bits with the same bits.
pub open spec fn lv_line(line: u32) -> int {
    if line <= i32::MAX {
        line as int
    } else {
        line - 0x1_0000_0000
    }
}

/// A record as it is handed to the graphics library.
pub struct LogRecord {
    pub level: LogLevel,
    pub file: String,
    pub line: i32,
    pub func: String,
    pub message: String,
}

/// The graphics library's level for a record logged at `level`.
pub fn as_lv_log_level(level: Level) -> (r: LogLevel)
    ensures
        r == lv_level(level),
{
    match level {
        Level::Trace => LogLevel::Trace,
        Level::Debug => LogLevel::Trace,
        Level::Info => LogLevel::Info,
        Level::Warn => LogLevel::Warn,
        Level::Error => LogLevel::Error,
    }
}

/// The line number as the graphics library takes it.
pub fn as_lv_line(line: u32) -> (r: i32)
    ensures
        r == lv_line(line),
{
    if line <= 0x7fff_ffff {
        line as i32
    } else {
        ((line - 0x8000_0000) as i32) + i32::MIN
    }
}

/// The record that the graphics library is handed for a message logged at
/// one of its own levels from line `line` of `file`, in function `func`.
pub fn lv_log_record(level: LogLevel, file: &str, line: u32, func: &str, message: &str) -> (r:
    LogRecord)
    ensures
        r.level == level,
        r.file@ == file@,
        r.line == lv_line(line),
        r.func@ == func@,
        r.message@ == message@,
{
    LogRecord {
        level,
        file: file.to_owned(),
        line: as_lv_line(line),
        func: func.to_owned(),
        message: message.to_owned(),
    }
}

/// The record that the graphics library is handed for a message logged at
/// `level` from line `line` of `file`, in function `func`.
pub fn lv_log_add(level: Level, file: &str, line: u32, func: &str, message: &str) -> (r:
    LogRecord)
    ensures
        r.level == lv_level(level),
        r.file@ == file@,
        r.line == lv_line(line),
        r.func@ == func@,
        r.message@ == message@,
{
    lv_log_record(as_lv_log_level(level), file, line, func, message)
}

/// Whether `c` is white space, as `char::is_whitespace` tells.
pub uninterp spec fn whitespace(c: char) -> bool;

/// Calls `char::is_whitespace`, which tells whether a character has the
/// Unicode property White_Space. The contract gives the answer its name
/// and claims nothing else of it.
#[verifier::external_body]
fn is_whitespace(c: char) -> (r: bool)
    ensures
        r == whitespace(c),
{
    c.is_whitespace()
}

/// The number of white space characters with which `s` begins.
pub open spec fn leading_blanks(s: Seq<char>) -> nat
    decreases s.len(),
{
    if s.len() > 0 && whitespace(s[0]) {
        1 + leading_blanks(s.skip(1))
    } else {
        0
    }
}

/// The number of white space characters with which `s` ends.
pub open spec fn trailing_blanks(s: Seq<char>) -> nat
    decreases s.len(),
{
    if s.len() > 0 && whitespace(s.last()) {
        1 + trailing_blanks(s.drop_last())
    } else {
        0
    }
}

/// `s` without the white space at its ends.
pub open spec fn trimmed(s: Seq<char>) -> Seq<char> {
    let rest = s.skip(leading_blanks(s) as int);
    rest.take(rest.len() - trailing_blanks(rest))
}

/// The index of the first `c` in `s`, or the length of `s` where there is
/// none.
pub open spec fn first_index(s: Seq<char>, c: char) -> nat
    decreases s.len(),
{
    if s.len() > 0 && s[0] != c {
        1 + first_index(s.skip(1), c)
    } else {
        0
    }
}

/// The number of characters after the last `c` in `s`, or the length of
/// `s` where there is none.
pub open spec fn after_last(s: Seq<char>, c: char) -> nat
    decreases s.len(),
{
    if s.len() > 0 && s.last() != c {
        1 + after_last(s.drop_last(), c)
    } else {
        0
    }
}

/// A line of the graphics library's log as plain values.
pub ghost struct LogLineView {
    pub target: Seq<char>,
    pub message: Seq<char>,
}

/// What a line of the graphics library's log says, and of what.
///
/// The line is trimmed. What stands before its first colon is the heading,
/// whose last word, the text after its last blank, is the target. What
/// stands after the first colon, trimmed, is the message; a line without a
/// colon has an empty message.
pub open spec fn log_line(text: Seq<char>) -> LogLineView {
    let line = trimmed(text);
    let colon = first_index(line, ':') as int;
    let heading = line.take(colon);
    let rest = if colon < line.len() {
        line.skip(colon + 1)
    } else {
        Seq::empty()
    };
    LogLineView {
        target: heading.skip(heading.len() - after_last(heading, ' ')),
        message: trimmed(rest),
    }
}

/// The level at which a line that the graphics library logged at `level`
/// is logged again, where there is one: the library logs lines at its
/// levels from tracing to errors, and at no other.
pub open spec fn relogged_at(level: LogLevel) -> Option<Level> {
    match level {
        LogLevel::Trace => Some(Level::Trace),
        LogLevel::Info => Some(Level::Info),
        LogLevel::Warn => Some(Level::Warn),
        LogLevel::Error => Some(Level::Error),
        LogLevel::User => None,
        LogLevel::Off => None,
    }
}

/// A line of the graphics library's log, taken apart.
pub struct LogLine {
    pub target: String,
    pub message: String,
}

impl View for LogLine {
    type V = LogLineView;

    open spec fn view(&self) -> LogLineView {
        LogLineView { target: self.target@, message: self.message@ }
    }
}

/// What to do with a line that the graphics library logged.
pub enum Relog {
    /// Log the line at this level.
    Line(Level, LogLine),
    /// The library does not log lines at the level given.
    InvalidLevel,
}

/// The bounds of `trimmed` within `s[from..to]`: the indices of the first
/// character kept and of the first character dropped at the end.
fn trim_bounds(s: &Vec<char>, from: usize, to: usize) -> (r: (usize, usize))
    requires
        from <= to <= s.len(),
    ensures
        from <= r.0 <= r.1 <= to,
        s@.subrange(r.0 as int, r.1 as int) == trimmed(s@.subrange(from as int, to as int)),
{
    let ghost part = s@.subrange(from as int, to as int);
    let mut start: usize = from;
    while start < to && is_whitespace(s[start])
        invariant
            from <= start <= to <= s.len(),
            part == s@.subrange(from as int, to as int),
            leading_blanks(part) == (start - from) + leading_blanks(
                s@.subrange(start as int, to as int),
            ),
        decreases to - start,
    {
        proof {
            let here = s@.subrange(start as int, to as int);
            assert(here[0] == s@[start as int]);
            assert(here.skip(1) =~= s@.subrange(start + 1, to as int));
        }
        start += 1;
    }
    proof {
        let here = s@.subrange(start as int, to as int);
        if start < to {
            assert(here[0] == s@[start as int]);
        }
        assert(leading_blanks(here) == 0);
        assert(part.skip(leading_blanks(part) as int) =~= here);
    }
    let ghost rest = s@.subrange(start as int, to as int);
    let mut end: usize = to;
    while end > start && is_whitespace(s[end - 1])
        invariant
            from <= start <= end <= to <= s.len(),
            rest == s@.subrange(start as int, to as int),
            trailing_blanks(rest) == (to - end) + trailing_blanks(
                s@.subrange(start as int, end as int),
            ),
        decreases end - start,
    {
        proof {
            let here = s@.subrange(start as int, end as int);
            assert(here.last() == s@[end - 1]);
            assert(here.drop_last() =~= s@.subrange(start as int, end - 1));
        }
        end -= 1;
    }
    proof {
        let here = s@.subrange(start as int, end as int);
        if end > start {
            assert(here.last() == s@[end - 1]);
        }
        assert(trailing_blanks(here) == 0);
        assert(rest.take(rest.len() - trailing_blanks(rest)) =~= here);
    }
    (start, end)
}

/// Takes a line of the graphics library's log apart.
pub fn split_log_line(text: &str) -> (r: LogLine)
    ensures
        r@ == log_line(text@),
{
    let s = chars_of(text);
    let (start, end) = trim_bounds(&s, 0, s.len());
    assert(s@.subrange(0, s.len() as int) =~= s@);
    let ghost line = s@.subrange(start as int, end as int);

    let mut colon: usize = start;
    while colon < end && s[colon] != ':'
        invariant
            start <= colon <= end <= s.len(),
            line == s@.subrange(start as int, end as int),
            first_index(line, ':') == (colon - start) + first_index(
                s@.subrange(colon as int, end as int),
                ':',
            ),
        decreases end - colon,
    {
        proof {
            let here = s@.subrange(colon as int, end as int);
            assert(here[0] == s@[colon as int]);
            assert(here.skip(1) =~= s@.subrange(colon + 1, end as int));
        }
        colon += 1;
    }
    proof {
        let here = s@.subrange(colon as int, end as int);
        if colon < end {
            assert(here[0] == s@[colon as int]);
        }
        assert(first_index(here, ':') == 0);
    }
    let ghost heading = s@.subrange(start as int, colon as int);
    assert(heading =~= line.take(first_index(line, ':') as int));

    let mut word: usize = colon;
    while word > start && s[word - 1] != ' '
        invariant
            start <= word <= colon <= s.len(),
            heading == s@.subrange(start as int, colon as int),
            after_last(heading, ' ') == (colon - word) + after_last(
                s@.subrange(start as int, word as int),
                ' ',
            ),
        decreases word - start,
    {
        proof {
            let here = s@.subrange(start as int, word as int);
            assert(here.last() == s@[word - 1]);
            assert(here.drop_last() =~= s@.subrange(start as int, word - 1));
        }
        word -= 1;
    }
    proof {
        let here = s@.subrange(start as int, word as int);
        if word > start {
            assert(here.last() == s@[word - 1]);
        }
        assert(after_last(here, ' ') == 0);
        assert(s@.subrange(word as int, colon as int) =~= heading.skip(
            heading.len() - after_last(heading, ' '),
        ));
    }
    let target = text.substring_char(word, colon).to_owned();

    let message = if colon < end {
        let (from, to) = trim_bounds(&s, colon + 1, end);
        proof {
            assert(s@.subrange(colon + 1, end as int) =~= line.skip(colon - start + 1));
        }
        text.substring_char(from, to).to_owned()
    } else {
        proof {
            assert(trimmed(Seq::<char>::empty()) =~= Seq::<char>::empty());
        }
        String::new()
    };
    LogLine { target, message }
}

/// Decides what to do with a line that the graphics library logged at
/// `level`: the line is taken apart and logged again at the matching level,
/// unless the library logs no lines at `level`.
pub fn lvgl_log(level: LogLevel, text: &str) -> (r: Relog)
    ensures
        match r {
            Relog::Line(at, line) => relogged_at(level) == Some(at) && line@ == log_line(text@),
            Relog::InvalidLevel => relogged_at(level) is None,
        },
{
    let at = match level {
        LogLevel::Trace => Level::Trace,
        LogLevel::Info => Level::Info,
        LogLevel::Warn => Level::Warn,
        LogLevel::Error => Level::Error,
        _ => {
            return Relog::InvalidLevel;
        },
    };
    Relog::Line(at, split_log_line(text))
}

/// No more white space stands at the beginning of a text than the text is
/// long, and none is left where that much is skipped.
pub proof fn leading_blanks_end(s: Seq<char>)
    ensures
        leading_blanks(s) <= s.len(),
        leading_blanks(s.skip(leading_blanks(s) as int)) == 0,
    decreases s.len(),
{
    if s.len() > 0 && whitespace(s[0]) {
        leading_blanks_end(s.skip(1));
        assert(s.skip(1).skip(leading_blanks(s.skip(1)) as int) =~= s.skip(
            leading_blanks(s) as int,
        ));
    } else {
        assert(s.skip(0) =~= s);
    }
}

/// No more white space stands at the end of a text than the text is long,
/// and none is left where that much is dropped.
pub proof fn trailing_blanks_end(s: Seq<char>)
    ensures
        trailing_blanks(s) <= s.len(),
        trailing_blanks(s.take(s.len() - trailing_blanks(s))) == 0,
    decreases s.len(),
{
    if s.len() > 0 && whitespace(s.last()) {
        trailing_blanks_end(s.drop_last());
        let shorter = s.drop_last();
        assert(shorter.take(shorter.len() - trailing_blanks(shorter)) =~= s.take(
            s.len() - trailing_blanks(s),
        ));
    } else {
        assert(s.take(s.len() as int) =~= s);
    }
}

/// A trimmed text neither begins nor ends with white space, and trimming
/// it again changes nothing.
pub proof fn trimmed_has_no_blank_ends(s: Seq<char>)
    ensures
        leading_blanks(trimmed(s)) == 0,
        trailing_blanks(trimmed(s)) == 0,
        trimmed(trimmed(s)) == trimmed(s),
{
    leading_blanks_end(s);
    let rest = s.skip(leading_blanks(s) as int);
    trailing_blanks_end(rest);
    let t = trimmed(s);
    if t.len() > 0 {
        assert(t[0] == rest[0]);
    }
    assert(t.skip(0) =~= t);
    assert(t.take(t.len() as int) =~= t);
}

/// What stands after the last blank holds no blank.
pub proof fn last_word_has_no_blank(s: Seq<char>, i: int)
    requires
        0 <= i < after_last(s, ' '),
    ensures
        after_last(s, ' ') <= s.len(),
        s[s.len() - after_last(s, ' ') + i] != ' ',
    decreases s.len(),
{
    if s.len() > 0 && s.last() != ' ' {
        if i < after_last(s, ' ') - 1 {
            last_word_has_no_blank(s.drop_last(), i);
        } else {
            after_last_is_short(s.drop_last());
        }
    }
}

/// No more characters stand after the last blank than the text is long.
pub proof fn after_last_is_short(s: Seq<char>)
    ensures
        after_last(s, ' ') <= s.len(),
    decreases s.len(),
{
    if s.len() > 0 && s.last() != ' ' {
        after_last_is_short(s.drop_last());
    }
}

/// The target of a log line holds no blank.
pub proof fn log_target_is_one_word(text: Seq<char>, i: int)
    requires
        0 <= i < log_line(text).target.len(),
    ensures
        log_line(text).target[i] != ' ',
{
    let line = trimmed(text);
    let heading = line.take(first_index(line, ':') as int);
    after_last_is_short(heading);
    last_word_has_no_blank(heading, i);
}

/// The message of a log line neither begins nor ends with white space.
pub proof fn log_message_is_trimmed(text: Seq<char>)
    ensures
        leading_blanks(log_line(text).message) == 0,
        trailing_blanks(log_line(text).message) == 0,
{
    let line = trimmed(text);
    let colon = first_index(line, ':') as int;
    let rest = if colon < line.len() {
        line.skip(colon + 1)
    } else {
        Seq::empty()
    };
    trimmed_has_no_blank_ends(rest);
}

} // verus!
