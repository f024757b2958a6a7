//! Times on the wire: a time in whole seconds since the Unix epoch is
//! written as a date and a time of day, at eight hours east of Greenwich.

use chrono::{DateTime, FixedOffset, NaiveDateTime};
use vstd::prelude::*;

verus! {

/// The pattern of a time on the wire: year, month, day, hour, minute, second.
pub const FORMAT: &'static str = "%Y-%m-%d %H:%M:%S";

/// Eight hours east of Greenwich, in seconds.
pub const EAST_8_SECS: i32 = 28800;

/// Eight hours east of Greenwich, as an offset is written.
pub const EAST_8_TEXT: &'static str = "+08:00";

/// What chrono writes for the instant `secs` seconds after the epoch, seen
/// `offset` seconds east of Greenwich, under `pattern`; none where chrono
/// cannot hold the instant or the offset or cannot write the pattern.
pub uninterp spec fn civil_text(secs: i64, offset: i32, pattern: Seq<char>) -> Option<Seq<char>>;

/// The instant, in seconds after the epoch, that chrono reads from a date,
/// a time of day and an offset; none where it reads none.
pub uninterp spec fn instant_of(text: Seq<char>) -> Option<i64>;

/// The seconds from the epoch to the date and time of day that chrono
/// reads from `text` under `pattern`, no offset applied; none where it
/// reads none.
pub uninterp spec fn civil_seconds(text: Seq<char>, pattern: Seq<char>) -> Option<i64>;

/// `chrono::DateTime::from_timestamp`, `FixedOffset::east_opt`,
/// `DateTime::with_timezone`, `DateTime::format` and
/// `DelayedFormat::write_to`: the instant `secs` seconds after the epoch,
/// seen `offset` seconds east, written under `pattern`. The first two give
/// none out of their range and the last fails on a pattern it cannot
/// write; each gives `None` here. The text depends on the three arguments
/// alone, and is named, not stated.
#[verifier::external_body]
fn format_at(secs: i64, offset: i32, pattern: &str) -> (text: Option<String>)
    ensures
        match text {
            Some(written) => civil_text(secs, offset, pattern@) == Some(written@),
            None => civil_text(secs, offset, pattern@) is None,
        },
{
    let zone = FixedOffset::east_opt(offset)?;
    let at = DateTime::from_timestamp(secs, 0)?;
    let mut text = String::new();
    at.with_timezone(&zone).format(pattern).write_to(&mut text).ok()?;
    Some(text)
}

/// `<chrono::DateTime<FixedOffset> as FromStr>::from_str` and
/// `DateTime::timestamp`: the instant that chrono reads from a date, a time
/// of day and an offset, in whole seconds after the epoch; `None` where
/// chrono reads none. The instant depends on the text alone, and is named,
/// not stated.
#[verifier::external_body]
fn parse_instant(text: &str) -> (instant: Option<i64>)
    ensures
        instant == instant_of(text@),
{
    match text.parse::<DateTime<FixedOffset>>() {
        Ok(at) => Some(at.timestamp()),
        Err(_) => None,
    }
}

/// `chrono::NaiveDateTime::parse_from_str`, `NaiveDateTime::and_utc` and
/// `DateTime::timestamp`: the date and time of day that chrono reads from
/// `text` under `pattern`, as seconds from the epoch with no offset applied;
/// `None` where chrono reads none. The result depends on the two arguments
/// alone, and is named, not stated.
#[verifier::external_body]
fn parse_civil(text: &str, pattern: &str) -> (seconds: Option<i64>)
    ensures
        seconds == civil_seconds(text@, pattern@),
{
    match NaiveDateTime::parse_from_str(text, pattern) {
        Ok(at) => Some(at.and_utc().timestamp()),
        Err(_) => None,
    }
}

/// The time `date` as it goes onto the wire: date and time of day at
/// eight hours east, under `FORMAT`.
pub fn serialize(date: i64) -> (text: Option<String>)
    ensures
        match text {
            Some(written) => civil_text(date, EAST_8_SECS, FORMAT@) == Some(written@),
            None => civil_text(date, EAST_8_SECS, FORMAT@) is None,
        },
{
    format_at(date, EAST_8_SECS, FORMAT)
}

/// The time that `text` from the wire stands for: the instant read from
/// `text` followed by the offset of eight hours east.
pub fn deserialize(text: &str) -> (date: Option<i64>)
    ensures
        date == instant_of(text@ + EAST_8_TEXT@),
{
    let stamped = String::from_str(text).concat(EAST_8_TEXT);
    parse_instant(stamped.as_str())
}

/// A date and time of day without a zone, held as seconds from the epoch,
/// as it goes onto the wire under `FORMAT`.
pub fn serialize_native(date: i64) -> (text: Option<String>)
    ensures
        match text {
            Some(written) => civil_text(date, 0, FORMAT@) == Some(written@),
            None => civil_text(date, 0, FORMAT@) is None,
        },
{
    format_at(date, 0, FORMAT)
}

/// The date and time of day without a zone that `text` from the wire
/// stands for under `FORMAT`, as seconds from the epoch.
pub fn deserialize_native(text: &str) -> (date: Option<i64>)
    ensures
        date == civil_seconds(text@, FORMAT@),
{
    parse_civil(text, FORMAT)
}

} // verus!
