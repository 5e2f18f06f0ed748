//! Calendar time without a time zone, as the rows of the store carry it.

use chrono::{Datelike, Timelike};
use vstd::prelude::*;

verus! {

/// A date and a time of day, with no time zone attached; the pipeline reads
/// every such value as UTC. A leap second is held as second 59 with a
/// nanosecond of a thousand million or more.
#[derive(Debug, Clone, Copy, PartialEq, Eq, Structural)]
pub struct Timestamp {
    pub year: i32,
    pub month: u32,
    pub day: u32,
    pub hour: u32,
    pub minute: u32,
    pub second: u32,
    pub nanosecond: u32,
}

/// The layout of `gps_datetime`: `YYYY-MM-DD HH:MM:SS`.
pub const GPS_DATETIME_FORMAT: &'static str = "%Y-%m-%d %H:%M:%S";

/// What `chrono::NaiveDateTime::parse_from_str` makes of `text` under the
/// layout `format`: the date and time it reads, or `None` where it reports an
/// error.
pub uninterp spec fn naive_datetime_from_str(text: Seq<char>, format: Seq<char>) -> Option<
    Timestamp,
>;

/// Calls `chrono::NaiveDateTime::parse_from_str` and copies the fields of
/// what it returns. Trusted: that the outcome depends on the two texts alone,
/// which is all that the contract claims; which texts chrono accepts is not
/// stated here.
#[verifier::external_body]
fn parse_naive_datetime(text: &str, format: &str) -> (parsed: Option<Timestamp>)
    ensures
        parsed == naive_datetime_from_str(text@, format@),
{
    match chrono::NaiveDateTime::parse_from_str(text, format) {
        Ok(t) => Some(
            Timestamp {
                year: t.year(),
                month: t.month(),
                day: t.day(),
                hour: t.hour(),
                minute: t.minute(),
                second: t.second(),
                nanosecond: t.nanosecond(),
            },
        ),
        Err(_) => None,
    }
}

/// The time that a `gps_datetime` text stands for. The empty text stands for
/// no time at all, and so does a text that does not follow the layout.
pub open spec fn gps_datetime_of(text: Seq<char>) -> Option<Timestamp> {
    if text.len() == 0 {
        None
    } else {
        naive_datetime_from_str(text, GPS_DATETIME_FORMAT@)
    }
}

/// Reads a `gps_datetime` text. An empty text is never handed to the parser.
pub fn parse_gps_datetime(text: &str) -> (out: Option<Timestamp>)
    ensures
        out == gps_datetime_of(text@),
{
    if text.is_empty() {
        None
    } else {
        parse_naive_datetime(text, GPS_DATETIME_FORMAT)
    }
}

} // verus!
