//! The one read of the wall clock, and its validation into a `Timestamp`.

use vstd::prelude::*;

use crate::stamp::Timestamp;
use chrono::Datelike;
use chrono::Timelike;

verus! {

/// Relies on `chrono::Local::now` for the current local wall-clock time,
/// read through chrono's `Datelike` and `Timelike` accessors.  The stated
/// ranges are the ones those accessors document: month 1 to 12, day 1 to 31,
/// hour 0 to 23, minute and second 0 to 59.  Nothing is promised of the year
/// (chrono documents no range for it), and nothing of which moment is
/// returned: the caller validates the year and takes the time as it comes.
#[verifier::external_body]
fn read_local_clock() -> (r: (i32, u32, u32, u32, u32, u32))
    ensures
        1 <= r.1 <= 12,
        1 <= r.2 <= 31,
        r.3 <= 23,
        r.4 <= 59,
        r.5 <= 59,
{
    let now = chrono::Local::now();
    (now.year(), now.month(), now.day(), now.hour(), now.minute(), now.second())
}

/// Reads the current local time as a timestamp for artifact naming.  `None`
/// only for a clock year that four digits cannot carry; any timestamp
/// handed out is well-formed.
pub fn now_timestamp() -> (r: Option<Timestamp>)
    ensures
        r matches Some(ts) ==> ts.wf(),
{
    let (year, month, day, hour, minute, second) = read_local_clock();
    if year < 0 || year > 9999 {
        return None;
    }
    Timestamp::new(year as u16, month as u8, day as u8, hour as u8, minute as u8, second as u8)
}

} // verus!
