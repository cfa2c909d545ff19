//! Time, read and compared through `chrono`.
//!
//! Every function that needs the time comes in two forms: one that takes a
//! reading of the clock and says exactly what follows from it, and one
//! that takes the reading itself and hands it to the first.
//!
//! Instants travel through the crate as RFC 3339 strings, the form in which
//! the catalog stores them.

use vstd::prelude::*;
use crate::text::opt_text;

verus! {

/// The whole hours from one RFC 3339 instant to another, as
/// `later.signed_duration_since(earlier).num_hours()` counts them: rounded
/// towards zero, negative where `later` comes first. Nothing where either
/// text is not an RFC 3339 date and time.
pub uninterp spec fn rfc3339_hours_between(earlier: Seq<char>, later: Seq<char>) -> Option<i64>;

/// Whether a text is an RFC 3339 date and time: one from which the whole
/// hours to another instant can be counted.
pub open spec fn is_rfc3339(text: Seq<char>) -> bool {
    rfc3339_hours_between(text, text) is Some
}

/// What a reading of the clock is good for: the text itself where the
/// clock gave one and it is an RFC 3339 instant, nothing otherwise.
pub open spec fn usable(reading: Option<Seq<char>>) -> Option<Seq<char>> {
    match reading {
        Some(text) => if is_rfc3339(text) {
            Some(text)
        } else {
            None
        },
        None => None,
    }
}

/// A reading of the clock: `SystemTime::now` and `duration_since` the Unix
/// epoch, then `chrono::DateTime::from_timestamp` and
/// `DateTime::to_rfc3339`. A system time before 1970, or one beyond what
/// `chrono` holds, gives `None`. The result depends on the clock, so
/// nothing is claimed of it.
#[verifier::external_body]
pub(crate) fn read_clock() -> (r: Option<String>) {
    let since = std::time::SystemTime::now().duration_since(std::time::UNIX_EPOCH).ok()?;
    let seconds = i64::try_from(since.as_secs()).ok()?;
    let instant = chrono::DateTime::from_timestamp(seconds, since.subsec_nanos())?;
    Some(instant.to_rfc3339())
}

/// `DateTime::parse_from_rfc3339` on both texts, then
/// `DateTime::signed_duration_since` and `TimeDelta::num_hours`. A text
/// that does not parse gives `None`. The subtraction cannot overflow and
/// the result depends on the two texts alone; it is named by
/// [`rfc3339_hours_between`].
#[verifier::external_body]
pub(crate) fn hours_between(earlier: &str, later: &str) -> (r: Option<i64>)
    ensures
        r == rfc3339_hours_between(earlier@, later@),
{
    let from = chrono::DateTime::parse_from_rfc3339(earlier).ok()?;
    let to = chrono::DateTime::parse_from_rfc3339(later).ok()?;
    Some(to.signed_duration_since(from).num_hours())
}

/// The clock shows no time that can be written as RFC 3339 and read back.
#[derive(Debug, Clone, Copy, PartialEq, Eq, Structural)]
pub enum ClockError {
    Unreadable,
}

impl ClockError {
    /// The message shown to the user.
    pub fn message(&self) -> (r: String)
        ensures
            r@ == "the system clock shows no usable time"@,
    {
        "the system clock shows no usable time".to_string()
    }
}

/// Whether a text is an RFC 3339 date and time.
pub fn is_instant(text: &str) -> (r: bool)
    ensures
        r == is_rfc3339(text@),
{
    hours_between(text, text).is_some()
}

/// What a reading of the clock is good for: the reading itself where it
/// is an RFC 3339 instant, `None` otherwise.
pub fn checked_instant(reading: Option<String>) -> (r: Option<String>)
    ensures
        opt_text(r) == usable(opt_text(reading)),
        r matches Some(text) ==> reading == Some(text),
{
    match reading {
        Some(text) => if is_instant(text.as_str()) {
            Some(text)
        } else {
            None
        },
        None => None,
    }
}

} // verus!
