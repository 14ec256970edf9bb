//! The calendar week the bot counts downloads in.

use chrono::Datelike;
use vstd::prelude::*;

verus! {

/// The current ISO week in UTC, as `(ISO week-numbering year, week number)`,
/// or `None` when the system clock reads a time before 1970 or beyond the
/// dates chrono can represent.
///
/// Trusted: reads `std::time::SystemTime::now()` as a duration since the Unix
/// epoch (`None` when it lies before), makes a `chrono::DateTime<Utc>` of it
/// with `DateTime::from_timestamp` (`None` out of chrono's range), and returns
/// the `year()` and `week()` of the `iso_week()` of its `date_naive()`. chrono
/// documents the week number as ranging from 1 to 53; that is all this
/// contract states, since the result depends on the system clock.
#[verifier::external_body]
pub(crate) fn current_iso_week() -> (w: Option<(i32, u32)>)
    ensures
        w matches Some(p) ==> 1 <= p.1 <= 53,
{
    let since_epoch = std::time::SystemTime::now().duration_since(std::time::UNIX_EPOCH).ok()?;
    let now = chrono::DateTime::from_timestamp(
        since_epoch.as_secs() as i64,
        since_epoch.subsec_nanos(),
    )?;
    let week = now.date_naive().iso_week();
    Some((week.year(), week.week()))
}

} // verus!
