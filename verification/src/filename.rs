//! Names of capture files.
//!
//! A capture file is called `{timestamp}_{correlation id}_{category}.json`. The
//! timestamp is a UTC clock reading with millisecond resolution, written as
//! `yyyyMMdd_HHmmss.fff`; a capture without correlation id carries `unknown` in
//! its place.

use vstd::prelude::*;
use vstd::string::*;
use crate::clock::{format_utc, now_millis, utc_text};

verus! {

/// The strftime pattern of the timestamp that starts every file name.
pub const TIMESTAMP_PATTERN: &'static str = "%Y%m%d_%H%M%S%.3f";

/// What stands in a file name for a missing correlation id.
pub const UNKNOWN_TRACE_ID: &'static str = "unknown";

/// The middle segment of a file name.
pub open spec fn trace_segment(trace_id: Option<Seq<char>>) -> Seq<char> {
    match trace_id {
        Some(id) => id,
        None => UNKNOWN_TRACE_ID@,
    }
}

/// The file name for a capture of category `prefix` taken at the instant whose
/// text form is `timestamp`.
pub open spec fn filename_text(
    timestamp: Seq<char>,
    prefix: Seq<char>,
    trace_id: Option<Seq<char>>,
) -> Seq<char> {
    timestamp + "_"@ + trace_segment(trace_id) + "_"@ + prefix + ".json"@
}

/// The file name for a capture taken at clock reading `millis`, where that
/// reading has a text form.
pub open spec fn filename_at(millis: int, prefix: Seq<char>, trace_id: Option<Seq<char>>) -> Option<
    Seq<char>,
> {
    match utc_text(millis, TIMESTAMP_PATTERN@) {
        Some(timestamp) => Some(filename_text(timestamp, prefix, trace_id)),
        None => None,
    }
}

/// Joins an already formatted timestamp, the correlation id and the category
/// into a file name.
pub fn compose_filename(timestamp: &str, prefix: &str, trace_id: Option<&str>) -> (name: String)
    ensures
        name@ == filename_text(timestamp@, prefix@, trace_id.deep_view()),
{
    let segment = match trace_id {
        Some(id) => id,
        None => UNKNOWN_TRACE_ID,
    };
    let mut name = String::from_str(timestamp);
    name.append("_");
    name.append(segment);
    name.append("_");
    name.append(prefix);
    name.append(".json");
    name
}

/// The file name for a capture taken at clock reading `millis` (milliseconds
/// since the Unix epoch), or `None` where the reading has no text form.
pub fn build_filename_at(millis: i64, prefix: &str, trace_id: Option<&str>) -> (name: Option<String>)
    ensures
        name.deep_view() == filename_at(millis as int, prefix@, trace_id.deep_view()),
{
    match format_utc(millis, TIMESTAMP_PATTERN) {
        Some(timestamp) => Some(compose_filename(timestamp.as_str(), prefix, trace_id)),
        None => None,
    }
}

/// The file name for a capture taken now.
///
/// The clock decides the timestamp, so the contract only says that the name is
/// the one that `build_filename_at` gives for some reading.
pub fn build_filename(prefix: &str, trace_id: Option<&str>) -> (name: Option<String>)
    ensures
        exists|millis: i64|
            name.deep_view() == #[trigger] filename_at(
                millis as int,
                prefix@,
                trace_id.deep_view(),
            ),
{
    let millis = now_millis();
    build_filename_at(millis, prefix, trace_id)
}

/// A capture without correlation id is filed under the literal `unknown`.
pub proof fn lemma_missing_id_reads_unknown(timestamp: Seq<char>, prefix: Seq<char>)
    ensures
        filename_text(timestamp, prefix, None) == timestamp + "_unknown_"@ + prefix + ".json"@,
{
    reveal_strlit("_");
    reveal_strlit("unknown");
    reveal_strlit("_unknown_");
    assert("_"@ + "unknown"@ + "_"@ =~= "_unknown_"@);
    assert(timestamp + "_"@ + "unknown"@ + "_"@ =~= timestamp + ("_"@ + "unknown"@ + "_"@));
}

} // verus!
