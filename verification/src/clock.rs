//! The one clock read the logger needs: the current local time, broken into
//! the fields the log format prints.

use crate::timefmt::Timestamp;
use chrono::{Datelike, Timelike};
use vstd::prelude::*;

verus! {

/// Relies on chrono: `Local::now` for the current local time, and the
/// `Datelike`/`Timelike` accessors `year`, `month`, `day`, `hour`, `minute`
/// and `second` to read its fields. chrono documents `month` as 1 to 12,
/// `day` as 1 to 31, `hour` as 0 to 23, and `minute` and `second` as 0 to
/// 59; the year is documented only as a calendar year number. Nothing more
/// is assumed: the result is the time of the call.
#[verifier::external_body]
fn local_now_fields() -> (r: (i64, u32, u32, u32, u32, u32))
    ensures
        1 <= r.1 <= 12,
        1 <= r.2 <= 31,
        r.3 <= 23,
        r.4 <= 59,
        r.5 <= 59,
{
    let now = chrono::Local::now();
    (now.year() as i64, now.month(), now.day(), now.hour(), now.minute(), now.second())
}

/// Reads the current local time as a well-formed `Timestamp`. A year
/// outside the four-digit range — which no system clock reports — is
/// saturated to `0` or `9999` so that the fixed-width rendering stays
/// faithful to its format.
pub fn current_timestamp() -> (r: Timestamp)
    ensures
        r.wf(),
{
    let (year, month, day, hour, minute, second) = local_now_fields();
    let year_clamped: u32 = if year < 0 {
        0
    } else if year > 9999 {
        9999
    } else {
        year as u32
    };
    Timestamp { year: year_clamped, month, day, hour, minute, second }
}

} // verus!
