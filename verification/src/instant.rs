//! Instants: milliseconds since the Unix epoch, as `i64`.

use vstd::prelude::*;

verus! {

/// Milliseconds in one minute.
pub const MINUTE_MS: i64 = 60_000;

/// Milliseconds in one hour.
pub const HOUR_MS: i64 = 3_600_000;

/// The widest distance, in milliseconds, between the current instant and
/// any instant that a generator derives from it: 720 hours.
pub const MAX_OFFSET_MS: i64 = 2_592_000_000;

/// Whether every instant derived from `now` fits in an `i64`.
pub open spec fn instant_supported(now: i64) -> bool {
    i64::MIN + MAX_OFFSET_MS <= now <= i64::MAX - MAX_OFFSET_MS
}

/// What `chrono`'s formatting gives for an instant with the pattern
/// `%Y-%m-%d %H:%M:%S`: its UTC date and time of day.
pub uninterp spec fn formatted_instant(millis: i64) -> Seq<char>;

/// `chrono::Utc::now`, read through `DateTime::timestamp_millis`: the
/// system clock. Nothing is known of the value.
#[verifier::external_body]
pub(crate) fn utc_now_millis() -> i64 {
    chrono::Utc::now().timestamp_millis()
}

/// `chrono::DateTime::format` on the instant, where
/// `DateTime::from_timestamp_millis` can represent it. A text that comes
/// back is the formatted instant, a function of the instant alone.
#[verifier::external_body]
pub(crate) fn format_millis(millis: i64) -> (r: Option<String>)
    ensures
        r matches Some(s) ==> s@ == formatted_instant(millis),
{
    match chrono::DateTime::from_timestamp_millis(millis) {
        Some(at) => Some(at.format("%Y-%m-%d %H:%M:%S").to_string()),
        None => None,
    }
}

/// Whether `now` is an instant that the generators accept.
pub fn is_supported_instant(now: i64) -> (r: bool)
    ensures
        r == instant_supported(now),
{
    i64::MIN + MAX_OFFSET_MS <= now && now <= i64::MAX - MAX_OFFSET_MS
}

/// The current instant by the system clock, if the generators accept it.
/// The clock alone decides whether there is one: see `accepted_instant`
/// for what each reading gives.
pub fn current_instant() -> (r: Option<i64>)
    ensures
        r matches Some(now) ==> instant_supported(now),
{
    accepted_instant(utc_now_millis())
}

/// The instant that a clock showed, if the generators accept it: the
/// reading itself where every instant derived from it fits, else none.
pub fn accepted_instant(reading: i64) -> (r: Option<i64>)
    ensures
        r == if instant_supported(reading) {
            Some(reading)
        } else {
            None
        },
{
    if is_supported_instant(reading) {
        Some(reading)
    } else {
        None
    }
}

/// The text shown for an optional instant: `N/A` for none, else the UTC date
/// and time when the calendar can represent the instant, and `N/A` when it
/// cannot.
pub open spec fn datetime_text(dt: Option<i64>, formatted: Option<Seq<char>>) -> Seq<char> {
    match (dt, formatted) {
        (Some(_), Some(text)) => text,
        _ => "N/A"@,
    }
}

/// The text for an optional instant, given what formatting returned for it.
pub fn datetime_label(dt: Option<i64>, formatted: Option<String>) -> (r: String)
    ensures
        r@ == datetime_text(
            dt,
            match formatted {
                Some(s) => Some(s@),
                None => None,
            },
        ),
{
    match (dt, formatted) {
        (Some(_), Some(text)) => text,
        _ => "N/A".to_owned(),
    }
}

/// The text shown for an optional instant.
pub fn format_datetime(dt: Option<i64>) -> (r: String)
    ensures
        dt is None ==> r@ == "N/A"@,
        dt matches Some(t) ==> r@ == formatted_instant(t) || r@ == "N/A"@,
{
    match dt {
        Some(t) => {
            let formatted = format_millis(t);
            datetime_label(dt, formatted)
        },
        None => datetime_label(dt, None),
    }
}

} // verus!
