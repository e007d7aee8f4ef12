//! Points in time, as the API writes them (RFC 3339 text) and as the
//! library holds them (seconds and nanoseconds since the Unix epoch, UTC).
use vstd::prelude::*;

verus! {

/// An instant: whole non-leap seconds since 1970-01-01T00:00:00Z and the
/// nanoseconds since the last whole second (above 999,999,999 only within a
/// leap second).
#[derive(Clone, Copy, Debug, PartialEq, Eq, Structural)]
pub struct Timestamp {
    pub secs: i64,
    pub nanos: u32,
}

/// The instant that `chrono`'s RFC 3339 parser reads from a text, as
/// (seconds, nanoseconds) since the epoch in UTC; `None` where it refuses the
/// text.
pub uninterp spec fn rfc3339_instant(text: Seq<char>) -> Option<(i64, u32)>;

/// The RFC 3339 text that `chrono` writes for the UTC instant given as
/// (seconds, nanoseconds) since the epoch; `None` where `chrono` holds no
/// such instant.
pub uninterp spec fn rfc3339_text(secs: i64, nanos: u32) -> Option<Seq<char>>;

/// The timestamp that a parsed instant stands for.
pub open spec fn instant_timestamp(p: Option<(i64, u32)>) -> Option<Timestamp> {
    match p {
        Some((secs, nanos)) => Some(Timestamp { secs, nanos }),
        None => None,
    }
}

/// `chrono::DateTime::parse_from_rfc3339`, with the parsed date taken to its
/// instant (`timestamp` and `timestamp_subsec_nanos`, which read the instant
/// in UTC whatever offset the text gave). The contract names the result
/// `rfc3339_instant`; which texts the parser accepts is not stated.
#[verifier::external_body]
pub(crate) fn parse_date(text: &str) -> (r: Option<Timestamp>)
    ensures
        r == instant_timestamp(rfc3339_instant(text@)),
{
    match chrono::DateTime::parse_from_rfc3339(text) {
        Ok(d) => Some(Timestamp { secs: d.timestamp(), nanos: d.timestamp_subsec_nanos() }),
        Err(_) => None,
    }
}

/// `chrono::DateTime::<Utc>::to_rfc3339`, on the instant that
/// `DateTime::from_timestamp` makes of the timestamp (`None` where it makes
/// none). The contract names the text `rfc3339_text`; its shape is not
/// stated.
#[verifier::external_body]
pub(crate) fn to_rfc3339(t: &Timestamp) -> (r: Option<String>)
    ensures
        r matches Some(s) ==> rfc3339_text(t.secs, t.nanos) == Some(s@),
        r is None ==> rfc3339_text(t.secs, t.nanos) is None,
{
    match chrono::DateTime::from_timestamp(t.secs, t.nanos) {
        Some(d) => Some(d.to_rfc3339()),
        None => None,
    }
}

} // verus!
