//! A date-time written as ISO 8601 text with signed six-digit years, the
//! form that `time`'s own serde support reads and writes.

use vstd::prelude::*;
use crate::datetime::{
    format_iso8601_six_digit_year, iso8601_formattable, iso8601_text, iso8601_value, parse_iso8601,
    DateTime,
};

verus! {

/// Reads an ISO 8601 date-time; `Err` when the text is not valid ISO 8601.
pub fn deserialize(text: &str) -> (r: Result<DateTime, ()>)
    ensures
        match iso8601_value(text@) {
            Some(v) => r == Ok::<DateTime, ()>(DateTime { unix_nanos: v.0, offset_seconds: v.1 }),
            None => r is Err,
        },
{
    match parse_iso8601(text) {
        Some(d) => Ok(d),
        None => Err(()),
    }
}

/// Writes a date-time as ISO 8601 text with a signed six-digit year, such as
/// `+002023-01-02T03:04:05.000000000Z`; `Err` when it cannot be written so.
/// Reading the text back with `deserialize` gives the same instant in the
/// same offset.
pub fn serialize(time: &DateTime) -> (r: Result<String, ()>)
    ensures
        if iso8601_formattable(true, time.unix_nanos as int, time.offset_seconds as int) {
            r matches Ok(s) && iso8601_text(true, time.unix_nanos, time.offset_seconds) == Some(s@)
        } else {
            r is Err && iso8601_text(true, time.unix_nanos, time.offset_seconds) is None
        },
        // What is written reads back as the same instant in the same offset.
        r matches Ok(s) ==> iso8601_value(s@) == Some((time.unix_nanos, time.offset_seconds)),
{
    match format_iso8601_six_digit_year(time) {
        Some(s) => Ok(s),
        None => Err(()),
    }
}

} // verus!
