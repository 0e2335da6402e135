//! Log-line and timestamp formatting.
//!
//! Every diagnostic line has the shape `[<timestamp>] <message>\n`, with the
//! timestamp rendered as a 4-digit year, 2-digit month and day, a space, and
//! a 24-hour clock with 2-digit hour, minute and second.

use crate::decimal::{digit_char, four_digits, is_digit, two_digits};
use vstd::prelude::*;
use vstd::string::*;

verus! {

/// A local calendar time, broken into the fields the log format prints.
#[derive(Clone, Copy, Debug)]
pub struct Timestamp {
    pub year: u32,
    pub month: u32,
    pub day: u32,
    pub hour: u32,
    pub minute: u32,
    pub second: u32,
}

impl Timestamp {
    /// Field ranges under which the fixed-width rendering is faithful.
    pub open spec fn wf(&self) -> bool {
        self.year <= 9999 && 1 <= self.month <= 12 && 1 <= self.day <= 31 && self.hour <= 23
            && self.minute <= 59 && self.second <= 59
    }

    /// Runtime check of `wf`, for callers outside verified code.
    pub fn is_well_formed(&self) -> (b: bool)
        ensures
            b == self.wf(),
    {
        self.year <= 9999 && 1 <= self.month && self.month <= 12 && 1 <= self.day && self.day <= 31
            && self.hour <= 23 && self.minute <= 59 && self.second <= 59
    }
}

/// The 19 characters `YYYY-MM-DD hh:mm:ss` for `t`.
pub open spec fn spec_format_ts(t: Timestamp) -> Seq<char> {
    seq![
        digit_char(t.year as int / 1000),
        digit_char(t.year as int / 100 % 10),
        digit_char(t.year as int / 10 % 10),
        digit_char(t.year as int % 10),
        '-',
        digit_char(t.month as int / 10),
        digit_char(t.month as int % 10),
        '-',
        digit_char(t.day as int / 10),
        digit_char(t.day as int % 10),
        ' ',
        digit_char(t.hour as int / 10),
        digit_char(t.hour as int % 10),
        ':',
        digit_char(t.minute as int / 10),
        digit_char(t.minute as int % 10),
        ':',
        digit_char(t.second as int / 10),
        digit_char(t.second as int % 10),
    ]
}

/// A full log line: `[` timestamp `] ` message `\n`.
pub open spec fn spec_format_line(t: Timestamp, msg: Seq<char>) -> Seq<char> {
    seq!['['] + spec_format_ts(t) + seq![']', ' '] + msg + seq!['\n']
}

/// Shape of a rendered timestamp: 19 characters, digits everywhere but the
/// fixed separators.
pub open spec fn is_timestamp(s: Seq<char>) -> bool {
    s.len() == 19 && s[4] == '-' && s[7] == '-' && s[10] == ' ' && s[13] == ':' && s[16] == ':'
        && forall|i: int|
        0 <= i < 19 && i != 4 && i != 7 && i != 10 && i != 13 && i != 16 ==> is_digit(#[trigger] s[i])
}

/// Renders `t` in the fixed `YYYY-MM-DD hh:mm:ss` shape.
pub fn format_timestamp(t: &Timestamp) -> (r: String)
    requires
        t.wf(),
    ensures
        r@ == spec_format_ts(*t),
{
    proof {
        reveal_strlit("-");
        reveal_strlit(" ");
        reveal_strlit(":");
    }
    let s = four_digits(t.year);
    let s = s.concat("-");
    let s = s.concat(two_digits(t.month).as_str());
    let s = s.concat("-");
    let s = s.concat(two_digits(t.day).as_str());
    let s = s.concat(" ");
    let s = s.concat(two_digits(t.hour).as_str());
    let s = s.concat(":");
    let s = s.concat(two_digits(t.minute).as_str());
    let s = s.concat(":");
    let s = s.concat(two_digits(t.second).as_str());
    proof {
        assert(s@ =~= spec_format_ts(*t));
    }
    s
}

/// Renders one full log line for message `msg` at time `t`.
pub fn format_line(t: &Timestamp, msg: &str) -> (r: String)
    requires
        t.wf(),
    ensures
        r@ == spec_format_line(*t, msg@),
{
    proof {
        reveal_strlit("[");
        reveal_strlit("] ");
        reveal_strlit("\n");
    }
    let s = String::from_str("[");
    let s = s.concat(format_timestamp(t).as_str());
    let s = s.concat("] ");
    let s = s.concat(msg);
    let s = s.concat("\n");
    proof {
        assert(s@ =~= spec_format_line(*t, msg@));
    }
    s
}

/// A well-formed `Timestamp` always renders to a well-shaped timestamp.
pub proof fn lemma_timestamp_shape(t: Timestamp)
    requires
        t.wf(),
    ensures
        is_timestamp(spec_format_ts(t)),
{
    let s = spec_format_ts(t);
    assert forall|i: int|
        0 <= i < 19 && i != 4 && i != 7 && i != 10 && i != 13 && i != 16 implies is_digit(
        #[trigger] s[i],
    ) by {
        assert(s[i] == digit_char(
            if i == 0 {
                t.year as int / 1000
            } else if i == 1 {
                t.year as int / 100 % 10
            } else if i == 2 {
                t.year as int / 10 % 10
            } else if i == 3 {
                t.year as int % 10
            } else if i == 5 {
                t.month as int / 10
            } else if i == 6 {
                t.month as int % 10
            } else if i == 8 {
                t.day as int / 10
            } else if i == 9 {
                t.day as int % 10
            } else if i == 11 {
                t.hour as int / 10
            } else if i == 12 {
                t.hour as int % 10
            } else if i == 14 {
                t.minute as int / 10
            } else if i == 15 {
                t.minute as int % 10
            } else if i == 17 {
                t.second as int / 10
            } else {
                t.second as int % 10
            },
        ));
    }
}

/// The number of newline characters in `s`.
pub open spec fn newline_count(s: Seq<char>) -> int
    decreases s.len(),
{
    if s.len() == 0 {
        0
    } else {
        newline_count(s.drop_last()) + if s.last() == '\n' {
            1int
        } else {
            0int
        }
    }
}

/// The text an append-only sink holds after writing one line per entry, in
/// call order: each entry is the message logged and the time it was logged
/// at.
pub open spec fn spec_log_text(entries: Seq<(Timestamp, Seq<char>)>) -> Seq<char>
    decreases entries.len(),
{
    if entries.len() == 0 {
        Seq::<char>::empty()
    } else {
        spec_log_text(entries.drop_last()) + spec_format_line(
            entries.last().0,
            entries.last().1,
        )
    }
}

proof fn lemma_newline_count_concat(a: Seq<char>, b: Seq<char>)
    ensures
        newline_count(a + b) == newline_count(a) + newline_count(b),
    decreases b.len(),
{
    if b.len() == 0 {
        assert(a + b =~= a);
    } else {
        lemma_newline_count_concat(a, b.drop_last());
        assert((a + b).drop_last() =~= a + b.drop_last());
        assert((a + b).last() == b.last());
    }
}

proof fn lemma_newline_count_single_terminator(s: Seq<char>)
    requires
        s.len() > 0,
        s.last() == '\n',
        forall|i: int| 0 <= i < s.len() - 1 ==> s[i] != '\n',
    ensures
        newline_count(s) == 1,
{
    lemma_newline_count_free(s.drop_last());
}

proof fn lemma_newline_count_free(s: Seq<char>)
    requires
        forall|i: int| 0 <= i < s.len() ==> s[i] != '\n',
    ensures
        newline_count(s) == 0,
    decreases s.len(),
{
    if s.len() > 0 {
        lemma_newline_count_free(s.drop_last());
    }
}

/// Writing `N` lines, each for a newline-free message at a well-formed
/// time, leaves a sink holding the `N` formatted lines in call order —
/// that is what `spec_log_text` concatenates — with exactly `N` newline
/// characters, and ending in a newline whenever anything was written.
pub proof fn lemma_log_text_n_lines(entries: Seq<(Timestamp, Seq<char>)>)
    requires
        forall|k: int| 0 <= k < entries.len() ==> (#[trigger] entries[k].0).wf(),
        forall|k: int, i: int|
            0 <= k < entries.len() && 0 <= i < entries[k].1.len() ==> #[trigger] entries[k].1[i]
                != '\n',
    ensures
        newline_count(spec_log_text(entries)) == entries.len(),
        entries.len() > 0 ==> spec_log_text(entries).last() == '\n',
    decreases entries.len(),
{
    if entries.len() > 0 {
        let rest = entries.drop_last();
        let t = entries.last().0;
        let msg = entries.last().1;
        assert(entries[entries.len() - 1].0 == t);
        assert(forall|k: int| 0 <= k < rest.len() ==> rest[k] == entries[k]);
        lemma_log_text_n_lines(rest);
        lemma_line_single_newline(t, msg);
        let line = spec_format_line(t, msg);
        lemma_newline_count_single_terminator(line);
        lemma_newline_count_concat(spec_log_text(rest), line);
        assert(spec_log_text(entries).last() == line.last());
    }
}

/// A log line for a newline-free message holds exactly one newline, at its
/// end, and carries the rendered timestamp at positions 1 to 19.
pub proof fn lemma_line_single_newline(t: Timestamp, msg: Seq<char>)
    requires
        t.wf(),
        forall|i: int| 0 <= i < msg.len() ==> #[trigger] msg[i] != '\n',
    ensures
        spec_format_line(t, msg).len() == msg.len() + 23,
        spec_format_line(t, msg)[spec_format_line(t, msg).len() - 1] == '\n',
        forall|i: int|
            0 <= i < spec_format_line(t, msg).len() - 1 ==> #[trigger] spec_format_line(t, msg)[i]
                != '\n',
        spec_format_line(t, msg).subrange(1, 20) == spec_format_ts(t),
{
    lemma_timestamp_shape(t);
    let line = spec_format_line(t, msg);
    let ts = spec_format_ts(t);
    assert(line.subrange(1, 20) =~= ts);
    assert forall|i: int| 0 <= i < line.len() - 1 implies #[trigger] line[i] != '\n' by {
        if i == 0 {
        } else if i < 20 {
            assert(line[i] == ts[i - 1]);
            assert(is_digit(ts[i - 1]) || ts[i - 1] == '-' || ts[i - 1] == ' ' || ts[i - 1]
                == ':');
        } else if i < 22 {
        } else {
            assert(line[i] == msg[i - 22]);
        }
    }
}

} // verus!
