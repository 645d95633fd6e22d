//! An optional date-time written as a Unix timestamp in whole seconds.

use vstd::prelude::*;
use crate::datetime::{from_unix_timestamp, representable, DateTime, MAX_UNIX_TIMESTAMP, MIN_UNIX_TIMESTAMP, NANOS_PER_SECOND};

verus! {

/// Reads the value behind an optional timestamp field: `None` stays
/// `None`; a timestamp becomes that instant in UTC, or `Err` when it lies
/// outside the range that `time` can represent.
pub fn deserialize(ts_opt: Option<i64>) -> (r: Result<Option<DateTime>, ()>)
    ensures
        match ts_opt {
            None => r == Ok::<Option<DateTime>, ()>(None),
            Some(ts) => if MIN_UNIX_TIMESTAMP <= ts <= MAX_UNIX_TIMESTAMP {
                r == Ok::<Option<DateTime>, ()>(
                    Some(DateTime { unix_nanos: (ts * NANOS_PER_SECOND) as i128, offset_seconds: 0 }),
                )
            } else {
                r is Err
            },
        },
{
    match ts_opt {
        Some(ts) => match from_unix_timestamp(ts) {
            Some(d) => Ok(Some(d)),
            None => Err(()),
        },
        None => Ok(None),
    }
}

/// Writes an optional date-time as an optional Unix timestamp in whole
/// seconds, rounded towards the past.
pub fn serialize(time: &Option<DateTime>) -> (r: Option<i64>)
    requires
        time matches Some(d) ==> representable(d.unix_nanos as int),
    ensures
        match time {
            Some(d) => r == Some((d.unix_nanos as int / NANOS_PER_SECOND as int) as i64),
            None => r is None,
        },
{
    match time {
        Some(value) => Some(value.unix_timestamp()),
        None => None,
    }
}

/// A timestamp that is read and written again comes back unchanged.
pub proof fn law_timestamp_round_trip(ts: i64)
    requires
        MIN_UNIX_TIMESTAMP <= ts <= MAX_UNIX_TIMESTAMP,
    ensures
        representable(ts * NANOS_PER_SECOND),
        (ts * NANOS_PER_SECOND) / (NANOS_PER_SECOND as int) == ts,
{
    assert((ts * 1_000_000_000int) / 1_000_000_000int == ts) by (nonlinear_arith);
    assert(MIN_UNIX_TIMESTAMP * NANOS_PER_SECOND <= ts * NANOS_PER_SECOND) by (nonlinear_arith)
        requires MIN_UNIX_TIMESTAMP <= ts, NANOS_PER_SECOND > 0;
    assert(ts * NANOS_PER_SECOND < (MAX_UNIX_TIMESTAMP + 1) * NANOS_PER_SECOND) by (nonlinear_arith)
        requires ts <= MAX_UNIX_TIMESTAMP, NANOS_PER_SECOND > 0;
}

} // verus!
