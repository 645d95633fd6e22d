//! An optional date-time written as ISO 8601 text.

use vstd::prelude::*;
use crate::datetime::{
    format_iso8601, iso8601_formattable, iso8601_text, iso8601_value, parse_iso8601, DateTime,
};

verus! {

/// Reads the value behind an optional ISO 8601 field: `None` stays `None`;
/// text becomes the date-time it denotes, or `Err` when it is not valid
/// ISO 8601.
pub fn deserialize(ts_opt: Option<String>) -> (r: Result<Option<DateTime>, ()>)
    ensures
        match ts_opt {
            None => r == Ok::<Option<DateTime>, ()>(None),
            Some(ts) => match iso8601_value(ts@) {
                Some(v) => r == Ok::<Option<DateTime>, ()>(
                    Some(DateTime { unix_nanos: v.0, offset_seconds: v.1 }),
                ),
                None => r is Err,
            },
        },
{
    match ts_opt {
        Some(ts) => match parse_iso8601(ts.as_str()) {
            Some(d) => Ok(Some(d)),
            None => Err(()),
        },
        None => Ok(None),
    }
}

/// Writes an optional date-time as optional ISO 8601 text, with four-digit
/// years; `Err` when the date-time cannot be written so. Reading the text
/// back with `deserialize` gives the same instant in the same offset.
pub fn serialize(time: &Option<DateTime>) -> (r: Result<Option<String>, ()>)
    ensures
        match time {
            None => r matches Ok(None),
            Some(d) => if iso8601_formattable(false, d.unix_nanos as int, d.offset_seconds as int) {
                r matches Ok(Some(s)) && iso8601_text(false, d.unix_nanos, d.offset_seconds) == Some(s@)
            } else {
                r is Err && iso8601_text(false, d.unix_nanos, d.offset_seconds) is None
            },
        },
        // What is written reads back as the same instant in the same offset.
        r matches Ok(Some(s)) ==> (time matches Some(d) && iso8601_value(s@) == Some(
            (d.unix_nanos, d.offset_seconds),
        )),
{
    match time {
        Some(value) => match format_iso8601(value) {
            Some(s) => Ok(Some(s)),
            None => Err(()),
        },
        None => Ok(None),
    }
}

} // verus!
