//! The calls into the calendar crates: the system clock, the `HH:MM` formatter,
//! the time-zone database and the machine's local zone. Nothing in this module
//! is proved; each contract says what is taken on trust.

use vstd::prelude::*;
use chrono::Offset;
use chrono::TimeZone;
use crate::civil::clock_text;

verus! {

/// The earliest instant the calendar can hold, in seconds since the Unix epoch:
/// midnight UTC on 1 January of the year -262143.
pub const MIN_UNIX_SECONDS: i64 = -8_334_601_228_800;

/// The latest instant the calendar can hold, in seconds since the Unix epoch:
/// the last second of 31 December of the year 262142, UTC.
pub const MAX_UNIX_SECONDS: i64 = 8_210_266_876_799;

/// Whether the calendar can hold the instant `unix_seconds`.
pub open spec fn representable(unix_seconds: int) -> bool {
    MIN_UNIX_SECONDS <= unix_seconds <= MAX_UNIX_SECONDS
}

/// The offset from UTC, in seconds east, that the time-zone database gives for
/// the zone named `id` at the instant `unix_seconds`; `None` where the database
/// has no zone of that name.
pub uninterp spec fn zone_offset_at(id: Seq<char>, unix_seconds: int) -> Option<i32>;

/// `chrono::Utc::now`, read as whole seconds since the Unix epoch.
///
/// Trusted: the reading is not before the epoch and is an instant the calendar
/// can hold. `Utc::now` panics on a system clock set before 1970.
#[verifier::external_body]
pub(crate) fn utc_now_seconds() -> (unix_seconds: i64)
    ensures
        0 <= unix_seconds <= MAX_UNIX_SECONDS,
{
    chrono::Utc::now().timestamp()
}

/// `chrono::NaiveTime::format` with the pattern `%H:%M`, on the time of day
/// that is `second` seconds after midnight.
///
/// Trusted: `%H` writes the hour of the day and `%M` the minute of the hour,
/// each zero-padded to two decimal digits, with the colon between them.
#[verifier::external_body]
pub(crate) fn format_time_of_day(second: u32) -> (text: String)
    requires
        second < 86_400,
    ensures
        text@ == clock_text(second as int / 60),
{
    chrono::NaiveTime::from_num_seconds_from_midnight_opt(second, 0).unwrap().format(
        "%H:%M",
    ).to_string()
}

/// `chrono_tz::Tz::offset_from_utc_datetime` on the zone that `id` parses to,
/// and `None` where `str::parse::<chrono_tz::Tz>` refuses `id`.
///
/// Trusted: the result depends on the name and the instant alone, the database
/// being compiled into the crate. What the database holds is not stated here:
/// the result has a name, [`zone_offset_at`], and no more is known of it.
#[verifier::external_body]
pub(crate) fn zone_offset_seconds(id: &str, unix_seconds: i64) -> (offset: Option<i32>)
    requires
        representable(unix_seconds as int),
    ensures
        offset == zone_offset_at(id@, unix_seconds as int),
{
    let utc = chrono::DateTime::from_timestamp(unix_seconds, 0).unwrap().naive_utc();
    match id.parse::<chrono_tz::Tz>() {
        Ok(zone) => Some(zone.offset_from_utc_datetime(&utc).fix().local_minus_utc()),
        Err(_) => None,
    }
}

/// `chrono::Local::offset_from_utc_datetime`: the offset from UTC, in seconds
/// east, of the machine's own zone at the instant `unix_seconds`.
///
/// Trusted: only that the offset is less than one day either way, which holds
/// of every `chrono::FixedOffset`. Its value depends on the machine's zone
/// settings and may differ from call to call. Zone data that names an offset
/// of a day or more makes the call panic.
#[verifier::external_body]
pub(crate) fn local_offset_seconds(unix_seconds: i64) -> (offset: i32)
    requires
        representable(unix_seconds as int),
    ensures
        -86_400 < offset < 86_400,
{
    let utc = chrono::DateTime::from_timestamp(unix_seconds, 0).unwrap().naive_utc();
    chrono::Local.offset_from_utc_datetime(&utc).local_minus_utc()
}

} // verus!
