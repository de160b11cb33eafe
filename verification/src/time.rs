//! UTC instants and their RFC 3339 text.
use vstd::prelude::*;

verus! {

/// A UTC instant: whole seconds since the Unix epoch and the nanoseconds past
/// that second.
#[derive(Clone, Copy, Debug, PartialEq, Eq)]
pub struct UtcInstant {
    pub secs: i64,
    pub nanos: u32,
}

/// Largest magnitude of seconds an instant may carry; every date a calendar
/// library represents lies well inside it.
pub const INSTANT_SECS_LIMIT: i64 = 0x3fff_ffff_ffff_ffff;

/// An instant with a sub-second part below one second and seconds within the
/// representable range.
pub open spec fn instant_ok(t: UtcInstant) -> bool {
    t.nanos < 1_000_000_000 && -INSTANT_SECS_LIMIT <= t.secs <= INSTANT_SECS_LIMIT
}

/// The instant in nanoseconds since the epoch.
pub open spec fn instant_total_nanos(t: UtcInstant) -> int {
    t.secs * 1_000_000_000 + t.nanos
}

/// The RFC 3339 text that `chrono` gives the UTC instant `secs`.`nanos`,
/// or `None` when `chrono` cannot represent the instant.
pub uninterp spec fn rfc3339_utc_text(secs: int, nanos: int) -> Option<Seq<char>>;

/// Calls `chrono::DateTime::from_timestamp` and renders the result with
/// `to_rfc3339`. The contract only names the outcome: the text (or `None`
/// for an instant `chrono` rejects) is a function of the two arguments. The
/// calendar formatting itself is not stated.
#[verifier::external_body]
pub(crate) fn format_rfc3339(secs: i64, nanos: u32) -> (text: Option<String>)
    ensures
        text is Some == rfc3339_utc_text(secs as int, nanos as int) is Some,
        text matches Some(t) ==> t@ == rfc3339_utc_text(secs as int, nanos as int)->0,
{
    match chrono::DateTime::from_timestamp(secs, nanos) {
        Some(instant) => Some(instant.to_rfc3339()),
        None => None,
    }
}

/// The RFC 3339 text of an instant, when `chrono` can represent it.
pub open spec fn instant_text(t: UtcInstant) -> Option<Seq<char>> {
    rfc3339_utc_text(t.secs as int, t.nanos as int)
}

/// Renders an instant as RFC 3339 text; `None` when `chrono` cannot
/// represent it.
pub fn render_instant(t: UtcInstant) -> (text: Option<String>)
    ensures
        text is Some == instant_text(t) is Some,
        text matches Some(s) ==> s@ == instant_text(t)->0,
{
    format_rfc3339(t.secs, t.nanos)
}

} // verus!
