//! Points in time as plain numbers.

use vstd::prelude::*;

verus! {

/// A point in time: seconds and nanoseconds since the Unix epoch, and the
/// offset from UTC, in seconds, that it was written with.
#[derive(Debug, Clone, Copy, PartialEq, Eq, Structural)]
pub struct Timestamp {
    pub seconds: i64,
    pub nanos: u32,
    pub offset: i32,
}

/// What `chrono::DateTime::parse_from_str` makes of `text` under the
/// strftime pattern `format`: the point in time it reads, or `None` where it
/// reports an error.
pub uninterp spec fn parsed_datetime(text: Seq<char>, format: Seq<char>) -> Option<Timestamp>;

/// Calls `chrono::DateTime::parse_from_str`. The contract only names the
/// result. An `Ok` is handed on as the date-time's `timestamp`,
/// `timestamp_subsec_nanos` and the `local_minus_utc` of its offset; every
/// error becomes `None`.
#[verifier::external_body]
fn parse_datetime(text: &str, format: &str) -> (parsed: Option<Timestamp>)
    ensures
        parsed == parsed_datetime(text@, format@),
{
    match chrono::DateTime::parse_from_str(text, format) {
        Ok(at) => Some(
            Timestamp {
                seconds: at.timestamp(),
                nanos: at.timestamp_subsec_nanos(),
                offset: at.offset().local_minus_utc(),
            },
        ),
        Err(_) => None,
    }
}

/// Reads a point in time that is written in the strftime pattern `format`.
/// The text must name its offset from UTC, or be a Unix timestamp: a date or
/// a time of day alone is no point in time.
pub fn read_datetime(text: &str, format: &str) -> (read: Option<Timestamp>)
    ensures
        read == parsed_datetime(text@, format@),
{
    parse_datetime(text, format)
}

} // verus!
