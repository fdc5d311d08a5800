//! Points in time and their RFC 3339 text.

use vstd::prelude::*;

verus! {

/// A point in time on the UTC time line: whole seconds since
/// 1970-01-01T00:00:00Z, and the nanoseconds that have passed since that
/// second began.
#[derive(Clone, Copy, Debug, PartialEq, Eq)]
pub struct Timestamp {
    pub secs: i64,
    pub nanos: u32,
}

/// The RFC 3339 text of the instant `secs` seconds and `nanos` nanoseconds
/// after the Unix epoch, as `chrono` writes it for a UTC date-time; `None`
/// where `chrono` has no date-time for the pair.
pub uninterp spec fn rfc3339_text(secs: int, nanos: int) -> Option<Seq<char>>;

/// Builds the UTC date-time with `chrono::DateTime::from_timestamp` and
/// renders it with `chrono::DateTime::to_rfc3339`.  The first returns
/// `None` for a pair outside its range, and then so does this function;
/// the second writes the text for every date-time it is given.  The
/// contract only names the outcome: the same pair always gives the same
/// text.
#[verifier::external_body]
fn rfc3339(secs: i64, nanos: u32) -> (out: Option<String>)
    ensures
        out.deep_view() == rfc3339_text(secs as int, nanos as int),
{
    match chrono::DateTime::from_timestamp(secs, nanos) {
        Some(instant) => Some(instant.to_rfc3339()),
        None => None,
    }
}

impl Timestamp {
    /// The text this instant is shown as, if it has one.
    pub open spec fn text(self) -> Option<Seq<char>> {
        rfc3339_text(self.secs as int, self.nanos as int)
    }

    /// Renders the instant as RFC 3339 text, such as
    /// `2024-03-01T12:30:00+00:00`.
    pub fn to_rfc3339(&self) -> (out: Option<String>)
        ensures
            out.deep_view() == self.text(),
    {
        rfc3339(self.secs, self.nanos)
    }
}

} // verus!
