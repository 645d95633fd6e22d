//! Instants with a UTC offset, held as plain integers.

use vstd::prelude::*;

verus! {

/// An instant together with the UTC offset it is written in.
///
/// Two values denote the same instant when their `unix_nanos` agree; the
/// offset only changes how the instant is written down, and `==` compares
/// the instants alone.
#[derive(Clone, Copy, Debug, Eq)]
pub struct DateTime {
    /// Nanoseconds since 1970-01-01T00:00:00Z.
    pub unix_nanos: i128,
    /// East-positive offset from UTC, in seconds.
    pub offset_seconds: i32,
}

impl PartialEq for DateTime {
    /// Whether both values denote the same instant, whatever their offsets.
    fn eq(&self, other: &Self) -> (r: bool) {
        self.unix_nanos == other.unix_nanos
    }
}

impl vstd::std_specs::cmp::PartialEqSpecImpl for DateTime {
    open spec fn obeys_eq_spec() -> bool {
        true
    }

    open spec fn eq_spec(&self, other: &Self) -> bool {
        self.unix_nanos == other.unix_nanos
    }
}

/// The earliest Unix timestamp, in seconds, that `time` accepts
/// (-9999-01-01T00:00:00Z).
pub const MIN_UNIX_TIMESTAMP: i64 = -377_705_116_800i64;

/// The latest Unix timestamp, in seconds, that `time` accepts
/// (9999-12-31T23:59:59Z).
pub const MAX_UNIX_TIMESTAMP: i64 = 253_402_300_799i64;

/// Nanoseconds in a second.
pub const NANOS_PER_SECOND: i128 = 1_000_000_000i128;

/// Whether `nanos` lies within the instants that `time` can represent.
pub open spec fn representable(nanos: int) -> bool {
    MIN_UNIX_TIMESTAMP * NANOS_PER_SECOND <= nanos < (MAX_UNIX_TIMESTAMP + 1) * NANOS_PER_SECOND
}

/// Whether `nanos` lies within the instants that `time` can represent.
pub fn representable_nanos(nanos: i128) -> (r: bool)
    ensures
        r == representable(nanos as int),
{
    (MIN_UNIX_TIMESTAMP as i128) * NANOS_PER_SECOND <= nanos
        && nanos < (MAX_UNIX_TIMESTAMP as i128 + 1) * NANOS_PER_SECOND
}

impl DateTime {
    /// Whether `self` is an earlier instant than `other`, whatever their
    /// offsets.
    pub fn before(&self, other: &DateTime) -> (r: bool)
        ensures
            r == (self.unix_nanos < other.unix_nanos),
    {
        self.unix_nanos < other.unix_nanos
    }

    /// The whole seconds since the Unix epoch, rounded towards the past.
    pub fn unix_timestamp(&self) -> (r: i64)
        requires
            representable(self.unix_nanos as int),
        ensures
            r as int == self.unix_nanos as int / NANOS_PER_SECOND as int,
    {
        let n = self.unix_nanos;
        if n >= 0 {
            (n / NANOS_PER_SECOND) as i64
        } else {
            let m: i128 = -n;
            let q: i128 = (m + (NANOS_PER_SECOND - 1)) / NANOS_PER_SECOND;
            assert(-q == n as int / NANOS_PER_SECOND as int) by (nonlinear_arith)
                requires
                    m == -n,
                    n < 0,
                    q == (m + 999_999_999) / 1_000_000_000,
                    NANOS_PER_SECOND == 1_000_000_000,
            ;
            (-q) as i64
        }
    }
}

/// The current time, as the system clock gives it, in UTC.
///
/// Calls `time::OffsetDateTime::now_utc`; the result is stated to be in
/// UTC, as that function's documentation says. Which instant comes back
/// depends on the clock and is left unsaid.
#[verifier::external_body]
pub(crate) fn now_utc() -> (r: DateTime)
    ensures
        r.offset_seconds == 0,
{
    let now = time::OffsetDateTime::now_utc();
    DateTime { unix_nanos: now.unix_timestamp_nanos(), offset_seconds: now.offset().whole_seconds() }
}

/// The instant `timestamp` seconds after the Unix epoch, in UTC.
///
/// Calls `time::OffsetDateTime::from_unix_timestamp`, which accepts exactly
/// the timestamps from `MIN_UNIX_TIMESTAMP` to `MAX_UNIX_TIMESTAMP` (those of
/// `Date::MIN` at midnight and `Date::MAX` at 23:59:59, without the
/// `large-dates` feature) and gives a UTC value whose nanosecond is zero.
#[verifier::external_body]
pub(crate) fn from_unix_timestamp(timestamp: i64) -> (r: Option<DateTime>)
    ensures
        r is Some <==> MIN_UNIX_TIMESTAMP <= timestamp <= MAX_UNIX_TIMESTAMP,
        r matches Some(d) ==> d.unix_nanos == timestamp * NANOS_PER_SECOND && d.offset_seconds == 0,
{
    match time::OffsetDateTime::from_unix_timestamp(timestamp) {
        Ok(d) => Some(
            DateTime { unix_nanos: d.unix_timestamp_nanos(), offset_seconds: d.offset().whole_seconds() },
        ),
        Err(_) => None,
    }
}

/// The largest offset from UTC, in seconds, that `time` accepts
/// (25 hours, 59 minutes and 59 seconds, either way).
pub const MAX_OFFSET_SECONDS: i32 = 93_599i32;

/// The wall-clock time 1900-01-01T00:00:00 as seconds since the epoch read
/// as UTC: RFC 2822 output starts there.
pub const RFC2822_MIN_LOCAL_TIMESTAMP: i64 = -2_208_988_800i64;

/// The wall-clock time 0000-01-01T00:00:00 as seconds since the epoch read
/// as UTC: four-digit years start there.
pub const YEAR_ZERO_LOCAL_TIMESTAMP: i64 = -62_167_219_200i64;

/// The wall-clock time of the instant `unix_nanos` in the offset
/// `offset_seconds`, in whole seconds since the epoch read as UTC.
pub open spec fn local_timestamp(unix_nanos: int, offset_seconds: int) -> int {
    unix_nanos / NANOS_PER_SECOND as int + offset_seconds
}

/// Whether `time` can hold the instant `unix_nanos` in the offset
/// `offset_seconds`, and the offset has no seconds part: the offset is
/// within `MAX_OFFSET_SECONDS` either way, the instant is representable, and
/// its local date falls in a year from -9999 to 9999.
pub open spec fn offset_value_writable(unix_nanos: int, offset_seconds: int) -> bool {
    &&& -MAX_OFFSET_SECONDS <= offset_seconds <= MAX_OFFSET_SECONDS
    &&& offset_seconds % 60 == 0
    &&& representable(unix_nanos)
    &&& MIN_UNIX_TIMESTAMP <= local_timestamp(unix_nanos, offset_seconds) <= MAX_UNIX_TIMESTAMP
}

/// Whether the instant `unix_nanos`, written in the offset `offset_seconds`,
/// can be written in RFC 2822: it can be held with its offset, and its local
/// date falls in a year from 1900 on.
pub open spec fn rfc2822_formattable(unix_nanos: int, offset_seconds: int) -> bool {
    &&& offset_value_writable(unix_nanos, offset_seconds)
    &&& RFC2822_MIN_LOCAL_TIMESTAMP <= local_timestamp(unix_nanos, offset_seconds)
}

/// Whether the instant `unix_nanos`, written in the offset `offset_seconds`,
/// can be written as ISO 8601 with six-digit years (`six_digit_year`) or
/// four-digit ones: it can be held with its offset, and for four digits its
/// local date falls in a year from 0 on.
pub open spec fn iso8601_formattable(six_digit_year: bool, unix_nanos: int, offset_seconds: int) -> bool {
    &&& offset_value_writable(unix_nanos, offset_seconds)
    &&& (six_digit_year || YEAR_ZERO_LOCAL_TIMESTAMP <= local_timestamp(unix_nanos, offset_seconds))
}

/// The bytes that formatting the instant `unix_nanos`, written in the
/// offset `offset_seconds`, as RFC 2822 gives (`None` when it fails).
pub uninterp spec fn rfc2822_text(unix_nanos: i128, offset_seconds: i32) -> Option<Seq<u8>>;

/// Writes `d` in the RFC 2822 format.
///
/// Calls `time::OffsetDateTime::format_into` with `Rfc2822` on the value
/// that `d` stands for. The bytes are stated only through `rfc2822_text`.
/// When it succeeds is stated exactly: `UtcOffset::from_whole_seconds`
/// accepts offsets up to `MAX_OFFSET_SECONDS` either way,
/// `from_unix_timestamp_nanos` accepts the representable instants,
/// `checked_to_offset` fails where the local year leaves -9999 to 9999, and
/// the RFC 2822 formatter refuses a local year before 1900 and an offset with
/// a seconds part; writing into a `Vec` does not fail.
#[verifier::external_body]
pub(crate) fn format_rfc2822(d: &DateTime) -> (r: Option<Vec<u8>>)
    ensures
        r is Some <==> rfc2822_formattable(d.unix_nanos as int, d.offset_seconds as int),
        match r {
            Some(v) => rfc2822_text(d.unix_nanos, d.offset_seconds) == Some(v@),
            None => rfc2822_text(d.unix_nanos, d.offset_seconds) is None,
        },
{
    let offset = time::UtcOffset::from_whole_seconds(d.offset_seconds).ok()?;
    let value = time::OffsetDateTime::from_unix_timestamp_nanos(d.unix_nanos).ok()?;
    let value = value.checked_to_offset(offset)?;
    let mut buf = Vec::new();
    value.format_into(&mut buf, &time::format_description::well_known::Rfc2822).ok()?;
    Some(buf)
}

/// The instant and offset that parsing `text` as ISO 8601 gives (`None`
/// when it fails).
pub uninterp spec fn iso8601_value(text: Seq<char>) -> Option<(i128, i32)>;

/// Reads an ISO 8601 date-time.
///
/// Calls `time::OffsetDateTime::parse` with `Iso8601::DEFAULT`; the result is
/// stated only through `iso8601_value`. `time` reads the same texts with
/// every `Iso8601` configuration: its configuration only shapes output.
#[verifier::external_body]
pub(crate) fn parse_iso8601(text: &str) -> (r: Option<DateTime>)
    ensures
        match r {
            Some(d) => iso8601_value(text@) == Some((d.unix_nanos, d.offset_seconds)),
            None => iso8601_value(text@) is None,
        },
{
    match time::OffsetDateTime::parse(text, &time::format_description::well_known::Iso8601::DEFAULT) {
        Ok(v) => Some(
            DateTime { unix_nanos: v.unix_timestamp_nanos(), offset_seconds: v.offset().whole_seconds() },
        ),
        Err(_) => None,
    }
}

/// The encoded `time` ISO 8601 configuration that writes years with a sign
/// and six digits and is otherwise `Config::DEFAULT`: the one that
/// `time::serde::iso8601` uses.
pub const ISO8601_SIX_DIGIT_YEAR_CONFIG: u128 = 0x0501_0100_0209_0100_0000_0000_0000_0000u128;

/// The text that formatting the instant `unix_nanos`, written in the offset
/// `offset_seconds`, as ISO 8601 gives (`None` when it fails), with the
/// default configuration, or with six-digit years where `six_digit_year`.
pub uninterp spec fn iso8601_text(six_digit_year: bool, unix_nanos: i128, offset_seconds: i32) -> Option<Seq<char>>;

/// Writes `d` as ISO 8601 with four-digit years.
///
/// Calls `time::OffsetDateTime::format` with `Iso8601::DEFAULT` on the value
/// that `d` stands for. The text is stated only through `iso8601_text`. When
/// it succeeds is stated exactly: as for RFC 2822, the offset, the instant
/// and the local year must be ones that `time` holds, the formatter refuses
/// an offset with a seconds part, and a four-digit year below 0.
///
/// Reading the text back with `parse_iso8601` gives `d`, offset included:
/// the text holds the local date, the time with all nine digits of the
/// nanosecond, and the offset in hours and minutes (`Z` for UTC), and the
/// ISO 8601 parser of `time` reads each of these back (the year with four
/// digits or a sign and six, the fraction of the second rounded to whole
/// nanoseconds, the offset minutes with the sign of the offset) and builds
/// the date-time in that offset.
#[verifier::external_body]
pub(crate) fn format_iso8601(d: &DateTime) -> (r: Option<String>)
    ensures
        r is Some <==> iso8601_formattable(false, d.unix_nanos as int, d.offset_seconds as int),
        match r {
            Some(s) => iso8601_text(false, d.unix_nanos, d.offset_seconds) == Some(s@),
            None => iso8601_text(false, d.unix_nanos, d.offset_seconds) is None,
        },
        r matches Some(s) ==> iso8601_value(s@) == Some((d.unix_nanos, d.offset_seconds)),
{
    let offset = time::UtcOffset::from_whole_seconds(d.offset_seconds).ok()?;
    let value = time::OffsetDateTime::from_unix_timestamp_nanos(d.unix_nanos).ok()?;
    let value = value.checked_to_offset(offset)?;
    value.format(&time::format_description::well_known::Iso8601::DEFAULT).ok()
}

/// Writes `d` as ISO 8601 with signed six-digit years, as
/// `time::serde::iso8601` does.
///
/// Calls `time::OffsetDateTime::format` with
/// `Iso8601::<ISO8601_SIX_DIGIT_YEAR_CONFIG>` on the value that `d` stands
/// for. The text is stated only through `iso8601_text`. When it succeeds is
/// stated exactly, as for `format_iso8601`, with every year that `time`
/// holds written. Reading the text back with `parse_iso8601` gives `d`,
/// offset included, as for `format_iso8601`.
#[verifier::external_body]
pub(crate) fn format_iso8601_six_digit_year(d: &DateTime) -> (r: Option<String>)
    ensures
        r is Some <==> iso8601_formattable(true, d.unix_nanos as int, d.offset_seconds as int),
        match r {
            Some(s) => iso8601_text(true, d.unix_nanos, d.offset_seconds) == Some(s@),
            None => iso8601_text(true, d.unix_nanos, d.offset_seconds) is None,
        },
        r matches Some(s) ==> iso8601_value(s@) == Some((d.unix_nanos, d.offset_seconds)),
{
    let offset = time::UtcOffset::from_whole_seconds(d.offset_seconds).ok()?;
    let value = time::OffsetDateTime::from_unix_timestamp_nanos(d.unix_nanos).ok()?;
    let value = value.checked_to_offset(offset)?;
    value.format(&time::format_description::well_known::Iso8601::<ISO8601_SIX_DIGIT_YEAR_CONFIG>).ok()
}

} // verus!
