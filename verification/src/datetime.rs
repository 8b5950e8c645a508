//! Clock readings and timestamp rendering.
//!
//! Timestamps are carried as plain milliseconds so that everything computed
//! from them is stated in contracts; only reading the clock and rendering a
//! timestamp as text go through the outside crates.

use vstd::prelude::*;

verus! {

/// Timestamps this library renders as text: non-negative and before the
/// year 10000, the range the renderer accepts.
pub open spec fn valid_timestamp_ms(ts_ms: i64) -> bool {
    0 <= ts_ms <= 253_402_300_799_999
}

/// The text chrono renders for the timestamp `ts_ms` in the pattern
/// year-month-day hour:minute:second; it depends on the timestamp alone.
pub uninterp spec fn datetime_text(ts_ms: i64) -> Seq<char>;

/// Relies on chrono's `DateTime::from_timestamp_millis` and its `format`:
/// renders a timestamp as year-month-day hour:minute:second text.
#[verifier::external_body]
pub fn format_datetime(ts_ms: i64) -> (r: String)
    requires
        valid_timestamp_ms(ts_ms),
    ensures
        r@ == datetime_text(ts_ms),
{
    let dt = chrono::DateTime::from_timestamp_millis(ts_ms).unwrap();
    dt.naive_utc().format("%Y-%m-%d %H:%M:%S").to_string()
}

/// Relies on chrono's `Utc::now` and chrono-tz's Asia/Shanghai zone: the
/// Beijing wall-clock time now, as milliseconds since the epoch. Nothing is
/// promised of the value: it depends on the machine's clock.
#[verifier::external_body]
pub fn now_local() -> (r: i64)
{
    let now = chrono::Utc::now();
    let beijing = chrono_tz::Asia::Shanghai.from_utc_datetime(&now.naive_utc());
    beijing.naive_local().and_utc().timestamp_millis()
}

} // verus!

use chrono::TimeZone;
