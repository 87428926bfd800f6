//! Best-effort date normalization: heterogeneous date strings become Unix
//! epoch seconds, with 0 standing in for anything unparseable.

use vstd::prelude::*;

verus! {

/// Relies on `dateparser::parse` and chrono's `DateTime::timestamp`: parses
/// common layouts (RFC 2822, ISO 8601 and similar) into epoch seconds. For
/// inputs that lack a date or a time component the crate fills the gap from
/// the current clock and the local time zone, so nothing ties the result to
/// the input alone; every outcome is acceptable here.
#[verifier::external_body]
fn parse_epoch(date_str: &str) -> (r: Option<i64>) {
    match dateparser::parse(date_str) {
        Ok(instant) => Some(instant.timestamp()),
        Err(_) => None,
    }
}

/// The fallback rule on an attempted parse: the parsed epoch when there is
/// one, and 0 — not an error — when there is none.
pub fn epoch_or_zero(parsed: Option<i64>) -> (r: i64)
    ensures
        parsed matches Some(t) ==> r == t,
        parsed is None ==> r == 0,
{
    match parsed {
        Some(t) => t,
        None => 0,
    }
}

/// Best-effort date normalization: epoch seconds on success (negative for
/// pre-1970 instants), 0 when the string matches no known layout. Callers
/// cannot tell true epoch zero from an unparseable input by this value
/// alone; the outcome of the parse attempt itself rests with `dateparser`.
pub fn parse_date(date_str: &str) -> i64 {
    epoch_or_zero(parse_epoch(date_str))
}

} // verus!
