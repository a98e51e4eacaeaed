//! Writing a moment in time as text.

use chrono::DateTime;
use vstd::prelude::*;
use crate::text::text_of;

verus! {

/// The text of a moment, given in seconds since the start of 1970, in
/// universal time and in the form that a pattern of `strftime` asks for; or
/// nothing, where the calendar does not reach the moment or the pattern is
/// not a valid one.
pub uninterp spec fn utc_text(unix_seconds: i64, pattern: Seq<char>) -> Option<Seq<char>>;

/// Calls `DateTime::from_timestamp` and, on the moment it gives,
/// `DateTime::format`, whose result it writes out with
/// `DelayedFormat::write_to`. Trusted: the text depends on the seconds and
/// the pattern alone, and there is none where the first call gives no moment
/// or the writing fails.
#[verifier::external_body]
pub(crate) fn format_utc(unix_seconds: i64, pattern: &str) -> (text: Option<String>)
    ensures
        text_of(text) == utc_text(unix_seconds, pattern@),
{
    match DateTime::from_timestamp(unix_seconds, 0) {
        Some(moment) => {
            let mut text = String::new();
            match moment.format(pattern).write_to(&mut text) {
                Ok(()) => Some(text),
                Err(_) => None,
            }
        },
        None => None,
    }
}

} // verus!
