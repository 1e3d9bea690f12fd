//! Wall-clock readings and their text form.
//!
//! A reading is a count of milliseconds since 1970-01-01 00:00:00 UTC, negative
//! for an instant before that. Turning the system clock's reading into such a
//! count and turning a count into text are both left to `chrono`.

use vstd::prelude::*;

verus! {

/// The text that `chrono` gives for the UTC instant `millis` milliseconds after
/// the Unix epoch under the strftime pattern `pattern`, or `None` where it gives
/// none: the instant lies outside the years `chrono` can represent, or the
/// pattern holds a sequence `chrono` does not know.
pub uninterp spec fn utc_text(millis: int, pattern: Seq<char>) -> Option<Seq<char>>;

/// Reads the system clock (`SystemTime::now`), lets `chrono` turn the reading
/// into a UTC instant (`DateTime<Utc>` from `SystemTime`) and returns it as
/// milliseconds since the Unix epoch (`DateTime::timestamp_millis`). A clock
/// that shows a time before 1970 gives a negative count.
///
/// Nothing is claimed of the value. The conversion unwraps an instant that
/// `chrono` cannot represent, one some 262,000 years or more from the common
/// era; no operating system's clock reaches that far.
#[verifier::external_body]
pub(crate) fn now_millis() -> (millis: i64) {
    chrono::DateTime::<chrono::Utc>::from(std::time::SystemTime::now()).timestamp_millis()
}

/// Formats a reading with `chrono`: `DateTime::from_timestamp_millis` makes the
/// UTC instant, `DateTime::format` and `DelayedFormat::write_to` write it out.
///
/// The contract only names the outcome: it is `utc_text` of the two arguments.
#[verifier::external_body]
pub(crate) fn format_utc(millis: i64, pattern: &str) -> (text: Option<String>)
    ensures
        text.deep_view() == utc_text(millis as int, pattern@),
{
    let instant = chrono::DateTime::from_timestamp_millis(millis)?;
    let mut text = String::new();
    instant.format(pattern).write_to(&mut text).ok()?;
    Some(text)
}

} // verus!
