//! Reading and printing instants.

use vstd::prelude::*;
use vstd::string::*;
use chrono::{Datelike, Timelike};
use std::fmt::Write;
use crate::models::types::Timestamp;

verus! {

/// The instant that `chrono` reads out of a text that carries its own offset
/// from UTC, under a format: seconds since the epoch and nanoseconds, or
/// `None` where the text does not fit the format.
pub uninterp spec fn zoned_instant(text: Seq<char>, format: Seq<char>) -> Option<(int, int)>;

/// The instant that `chrono` reads out of a text without offset, taken as
/// UTC, under a format: seconds since the epoch and nanoseconds.
pub uninterp spec fn naive_instant(text: Seq<char>, format: Seq<char>) -> Option<(int, int)>;

/// The calendar date and clock time on which an instant falls in UTC, as
/// `chrono` computes them: year, month, day, hour, minute, second; `None`
/// for an instant that `chrono` cannot hold.
pub uninterp spec fn civil_fields(seconds: int, nanos: int) -> Option<
    (int, int, int, int, int, int),
>;

/// Whether the civil fields of `t` are those on which its instant falls.
/// Every instant that the library reads from a text is consistent.
pub open spec fn consistent(t: Timestamp) -> bool {
    civil_fields(t.seconds as int, t.nanos as int) == Some(
        (
            t.year as int,
            t.month as int,
            t.day as int,
            t.hour as int,
            t.minute as int,
            t.second as int,
        ),
    )
}

/// Reads an instant with offset.
///
/// Calls `chrono::DateTime::parse_from_str`. The outcome depends on the two
/// texts alone; the contract names it.
#[verifier::external_body]
pub(crate) fn parse_zoned(text: &str, format: &str) -> (r: Option<(i64, u32)>)
    ensures
        match r {
            Some(t) => zoned_instant(text@, format@) == Some((t.0 as int, t.1 as int)),
            None => zoned_instant(text@, format@).is_none(),
        },
{
    let t = chrono::DateTime::parse_from_str(text, format).ok()?;
    Some((t.timestamp(), t.timestamp_subsec_nanos()))
}

/// Reads an instant without offset and takes it as UTC.
///
/// Calls `chrono::NaiveDateTime::parse_from_str`; the contract names the
/// outcome.
#[verifier::external_body]
pub(crate) fn parse_naive(text: &str, format: &str) -> (r: Option<(i64, u32)>)
    ensures
        match r {
            Some(t) => naive_instant(text@, format@) == Some((t.0 as int, t.1 as int)),
            None => naive_instant(text@, format@).is_none(),
        },
{
    let t = chrono::NaiveDateTime::parse_from_str(text, format).ok()?.and_utc();
    Some((t.timestamp(), t.timestamp_subsec_nanos()))
}

/// Finds the calendar date and clock time of an instant in UTC.
///
/// Calls `chrono::DateTime::from_timestamp` and reads the fields off with
/// `chrono::Datelike` and `chrono::Timelike`; the contract names them.
#[verifier::external_body]
pub(crate) fn civil_of(seconds: i64, nanos: u32) -> (r: Option<Timestamp>)
    ensures
        match r {
            Some(t) => t.seconds == seconds && t.nanos == nanos && consistent(t),
            None => civil_fields(seconds as int, nanos as int).is_none(),
        },
{
    let t = chrono::DateTime::from_timestamp(seconds, nanos)?;
    Some(Timestamp {
        seconds,
        nanos,
        year: t.year(),
        month: t.month(),
        day: t.day(),
        hour: t.hour(),
        minute: t.minute(),
        second: t.second(),
    })
}

/// A reading of a text as far as it can be dated: the instant, where there
/// is one and `chrono` can tell the day on which it falls.
pub open spec fn dated(instant: Option<(int, int)>) -> Option<(int, int)> {
    match instant {
        Some(i) => if civil_fields(i.0, i.1) is Some {
            Some(i)
        } else {
            None
        },
        None => None,
    }
}

/// Whether `t` is the instant `i` with its civil fields.
pub open spec fn is_instant(t: Timestamp, i: (int, int)) -> bool {
    t.seconds == i.0 && t.nanos == i.1 && consistent(t)
}

/// Gives a reading its civil fields.
pub fn date_reading(reading: Option<(i64, u32)>) -> (r: Option<Timestamp>)
    ensures
        match r {
            Some(t) => reading matches Some(i) && dated(Some((i.0 as int, i.1 as int))) is Some
                && is_instant(t, (i.0 as int, i.1 as int)),
            None => match reading {
                Some(i) => dated(Some((i.0 as int, i.1 as int))) is None,
                None => true,
            },
        },
{
    match reading {
        Some(i) => civil_of(i.0, i.1),
        None => None,
    }
}

/// The date a document carries in its front matter, as it is resolved.
///
/// A date text is read with offset first (`2023-01-01 12:00:00 +0800`), then
/// without (`2023-01-01 12:00:00`); what fits neither stands for `now`. A
/// document without date text is dated by the last change of its file.
pub open spec fn resolved_date(
    date_text: Option<Seq<char>>,
    zoned: Option<Timestamp>,
    naive: Option<Timestamp>,
    modified: Timestamp,
    now: Timestamp,
) -> Timestamp {
    match date_text {
        Some(_) => match zoned {
            Some(t) => t,
            None => match naive {
                Some(t) => t,
                None => now,
            },
        },
        None => modified,
    }
}

/// Picks the date of a document from the two readings of its date text.
pub fn choose_date(
    has_date_text: bool,
    zoned: Option<Timestamp>,
    naive: Option<Timestamp>,
    modified: Timestamp,
    now: Timestamp,
) -> (r: Timestamp)
    ensures
        r == resolved_date(
            if has_date_text {
                Some(Seq::empty())
            } else {
                None
            },
            zoned,
            naive,
            modified,
            now,
        ),
{
    if has_date_text {
        match zoned {
            Some(t) => t,
            None => match naive {
                Some(t) => t,
                None => now,
            },
        }
    } else {
        modified
    }
}

/// Whether `r` is the date that the date text `text` stands for: the instant
/// read with offset if there is one, else the instant read without, else
/// `now`.
pub open spec fn is_date_of(text: Seq<char>, r: Timestamp, now: Timestamp) -> bool {
    match dated(zoned_instant(text, "%Y-%m-%d %H:%M:%S %z"@)) {
        Some(instant) => is_instant(r, instant),
        None => match dated(naive_instant(text, "%Y-%m-%d %H:%M:%S"@)) {
            Some(instant) => is_instant(r, instant),
            None => r == now,
        },
    }
}

/// Resolves the date of a document. The date is consistent where the two
/// instants that are given are.
pub fn resolve_date(date_text: Option<&str>, modified: Timestamp, now: Timestamp) -> (r: Timestamp)
    ensures
        match date_text {
            Some(text) => is_date_of(text@, r, now),
            None => r == modified,
        },
        consistent(modified) && consistent(now) ==> consistent(r),
{
    match date_text {
        Some(text) => {
            let zoned = date_reading(parse_zoned(text, "%Y-%m-%d %H:%M:%S %z"));
            let naive = date_reading(parse_naive(text, "%Y-%m-%d %H:%M:%S"));
            choose_date(true, zoned, naive, modified, now)
        },
        None => modified,
    }
}

/// The instant that `chrono` reads out of a text in the format of RFC 3339:
/// seconds since the epoch, nanoseconds, and the offset from UTC in seconds.
pub uninterp spec fn rfc3339_instant(text: Seq<char>) -> Option<(int, int, int)>;

/// An instant as it is read from a text that names its own offset.
#[derive(Clone, Copy, Debug, PartialEq, Eq, Structural)]
pub struct ZonedInstant {
    pub seconds: i64,
    pub nanos: u32,
    /// The offset from UTC, in seconds east.
    pub offset: i32,
}

/// Reads an instant in the format of RFC 3339.
///
/// Calls `chrono::DateTime::parse_from_rfc3339`; the contract names the
/// outcome.
#[verifier::external_body]
pub(crate) fn parse_rfc3339(text: &str) -> (r: Option<ZonedInstant>)
    ensures
        match r {
            Some(t) => rfc3339_instant(text@) == Some(
                (t.seconds as int, t.nanos as int, t.offset as int),
            ),
            None => rfc3339_instant(text@).is_none(),
        },
{
    let t = chrono::DateTime::parse_from_rfc3339(text).ok()?;
    Some(
        ZonedInstant {
            seconds: t.timestamp(),
            nanos: t.timestamp_subsec_nanos(),
            offset: t.offset().local_minus_utc(),
        },
    )
}

/// The text that `chrono` writes for an instant, seen at an offset from UTC,
/// under a format; `None` where the instant or the offset is out of range or
/// the format is ill-formed.
pub uninterp spec fn formatted_instant(
    seconds: int,
    nanos: int,
    offset: int,
    format: Seq<char>,
) -> Option<Seq<char>>;

/// Writes an instant under a format.
///
/// Calls `chrono::DateTime::from_timestamp`, `FixedOffset::east_opt` and
/// `DateTime::format`; the text is written with `write!`, which reports an
/// ill-formed format instead of panicking. The contract names the outcome.
#[verifier::external_body]
pub(crate) fn format_instant(instant: &ZonedInstant, format: &str) -> (r: Option<String>)
    ensures
        match r {
            Some(text) => formatted_instant(
                instant.seconds as int,
                instant.nanos as int,
                instant.offset as int,
                format@,
            ) == Some(text@),
            None => formatted_instant(
                instant.seconds as int,
                instant.nanos as int,
                instant.offset as int,
                format@,
            ).is_none(),
        },
{
    let zone = chrono::FixedOffset::east_opt(instant.offset)?;
    let t = chrono::DateTime::from_timestamp(instant.seconds, instant.nanos)?.with_timezone(&zone);
    let mut out = String::new();
    write!(out, "{}", t.format(format)).ok()?;
    Some(out)
}

/// What `chrono` writes for an instant under a format, seen at an offset
/// from UTC in seconds east: the text, or nothing for an instant or an offset
/// that `chrono` cannot hold or a format that is ill-formed.
pub open spec fn written_at(t: Timestamp, offset: int, format: Seq<char>) -> Seq<char> {
    match formatted_instant(t.seconds as int, t.nanos as int, offset, format) {
        Some(text) => text,
        None => Seq::empty(),
    }
}

/// What `chrono` writes for an instant in UTC under a format.
pub open spec fn written(t: Timestamp, format: Seq<char>) -> Seq<char> {
    written_at(t, 0, format)
}

/// Writes an instant under a format, as seen at an offset from UTC.
pub fn write_instant_at(t: &Timestamp, offset: i32, format: &str) -> (r: String)
    ensures
        r@ == written_at(*t, offset as int, format@),
{
    let instant = ZonedInstant { seconds: t.seconds, nanos: t.nanos, offset };
    match format_instant(&instant, format) {
        Some(text) => text,
        None => String::new(),
    }
}

/// Writes an instant in UTC under a format.
pub fn write_instant(t: &Timestamp, format: &str) -> (r: String)
    ensures
        r@ == written(*t, format@),
{
    write_instant_at(t, 0, format)
}

/// The day of an instant in UTC, as `chrono` writes it under `%Y-%m-%d`.
pub open spec fn date_text(t: Timestamp) -> Seq<char> {
    written(t, "%Y-%m-%d"@)
}

/// Prints the day of an instant in UTC.
pub fn format_date(t: &Timestamp) -> (r: String)
    ensures
        r@ == date_text(*t),
{
    write_instant(t, "%Y-%m-%d")
}

/// The day and the time of day of an instant as seen at an offset from UTC,
/// as `chrono` writes them under `%Y-%m-%d %H:%M:%S`.
pub open spec fn stamp_text(t: Timestamp, offset: int) -> Seq<char> {
    written_at(t, offset, "%Y-%m-%d %H:%M:%S"@)
}

/// Prints the day and the time of day of an instant as seen at an offset
/// from UTC.
pub fn format_stamp(t: &Timestamp, offset: i32) -> (r: String)
    ensures
        r@ == stamp_text(*t, offset as int),
{
    write_instant_at(t, offset, "%Y-%m-%d %H:%M:%S")
}

} // verus!
