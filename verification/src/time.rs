//! Points in time, as plain numbers.
//!
//! Calendar arithmetic and the RFC 3339 text forms are `chrono`'s; this
//! module holds the values and says which text belongs to which value.

use vstd::prelude::*;

verus! {

/// A reading of the caller's monotonic clock: time elapsed since an origin
/// that the caller fixes once.
#[derive(Clone, Copy, Debug, PartialEq, Eq, Structural)]
pub struct Instant {
    /// Whole seconds since the origin.
    pub secs: u64,
    /// Nanoseconds past the last whole second.
    pub nanos: u32,
}

impl Instant {
    /// The instant `secs` seconds after `self`.
    pub open spec fn plus_secs(self, secs: u64) -> Instant {
        Instant { secs: (self.secs + secs) as u64, nanos: self.nanos }
    }

    /// The instant `secs` seconds after `self`, or `None` where that is past
    /// the last instant that can be written down.
    pub fn checked_add_secs(self, secs: u64) -> (r: Option<Instant>)
        ensures
            r == if self.secs + secs <= u64::MAX {
                Some(self.plus_secs(secs))
            } else {
                None
            },
    {
        match self.secs.checked_add(secs) {
            Some(sum) => Some(Instant { secs: sum, nanos: self.nanos }),
            None => None,
        }
    }
}

/// A point on the UTC time line.
///
/// `secs` counts non-leap seconds since 1970-01-01T00:00:00Z and `nanos` the
/// nanoseconds past that second, as `chrono` reports them for a
/// `DateTime<Utc>`; during a leap second `nanos` runs past 999,999,999.
#[derive(Clone, Copy, Debug, PartialEq, Eq, Structural)]
pub struct DateTime {
    pub secs: i64,
    pub nanos: u32,
}

/// The text `chrono` writes for a point in time in a query string, such as
/// `2014-10-23T20:03:41.636+00:00`; `None` where `chrono` has no date for it.
pub uninterp spec fn rfc3339_text(secs: i64, nanos: u32) -> Option<Seq<char>>;

/// The text `chrono` writes for a point in time inside a JSON document, such
/// as `2014-10-23T20:03:41.636Z`; `None` where `chrono` has no date for it.
pub uninterp spec fn json_time_text(secs: i64, nanos: u32) -> Option<Seq<char>>;

/// The point in time that `chrono` reads from `text`; `None` where it
/// rejects the text.
pub uninterp spec fn parsed_time(text: Seq<char>) -> Option<DateTime>;

/// Writes a point in time for a query string.
///
/// Trusted: `DateTime::<Utc>::from_timestamp` followed by
/// `DateTime::to_rfc3339`. The contract only gives the outcome its name.
#[verifier::external_body]
fn write_rfc3339(at: DateTime) -> (r: Option<String>)
    ensures
        r is Some == rfc3339_text(at.secs, at.nanos) is Some,
        r matches Some(text) ==> text@ == rfc3339_text(at.secs, at.nanos).unwrap(),
{
    match chrono::DateTime::<chrono::Utc>::from_timestamp(at.secs, at.nanos) {
        Some(t) => Some(t.to_rfc3339()),
        None => None,
    }
}

/// Writes a point in time for a JSON document.
///
/// Trusted: `DateTime::<Utc>::from_timestamp` followed by
/// `DateTime::to_rfc3339_opts` with `SecondsFormat::AutoSi` and `Z` for
/// UTC. The contract only gives the outcome its name.
#[verifier::external_body]
fn write_json_time(at: DateTime) -> (r: Option<String>)
    ensures
        r is Some == json_time_text(at.secs, at.nanos) is Some,
        r matches Some(text) ==> text@ == json_time_text(at.secs, at.nanos).unwrap(),
{
    match chrono::DateTime::<chrono::Utc>::from_timestamp(at.secs, at.nanos) {
        Some(t) => Some(t.to_rfc3339_opts(chrono::SecondsFormat::AutoSi, true)),
        None => None,
    }
}

/// Reads a point in time.
///
/// Trusted: `str::parse` for a `chrono::DateTime<Utc>`, then
/// `DateTime::timestamp` and `DateTime::timestamp_subsec_nanos`. The
/// contract only gives the outcome its name.
#[verifier::external_body]
fn read_time(text: &str) -> (r: Option<DateTime>)
    ensures
        r == parsed_time(text@),
{
    match text.parse::<chrono::DateTime<chrono::Utc>>() {
        Ok(t) => Some(DateTime { secs: t.timestamp(), nanos: t.timestamp_subsec_nanos() }),
        Err(_) => None,
    }
}

impl DateTime {
    /// Whether the text written for `self` in a JSON document reads back as
    /// `self`.
    pub open spec fn survives_json(self) -> bool {
        match json_time_text(self.secs, self.nanos) {
            Some(text) => parsed_time(text) == Some(self),
            None => false,
        }
    }

    /// Reads a point in time from relaxed RFC 3339 text.
    pub fn parse(text: &str) -> (r: Option<DateTime>)
        ensures
            r == parsed_time(text@),
    {
        read_time(text)
    }

    /// The RFC 3339 text of `self`, with the offset written `+00:00`.
    pub fn to_rfc3339(&self) -> (r: Option<String>)
        ensures
            r is Some == rfc3339_text(self.secs, self.nanos) is Some,
            r matches Some(text) ==> text@ == rfc3339_text(self.secs, self.nanos).unwrap(),
    {
        write_rfc3339(*self)
    }

    /// The text of `self` for a JSON document, handed out only where reading
    /// it gives `self` back.
    pub fn to_json_text(&self) -> (r: Option<String>)
        ensures
            r is Some == self.survives_json(),
            r matches Some(text) ==> {
                &&& Some(text@) == json_time_text(self.secs, self.nanos)
                &&& parsed_time(text@) == Some(*self)
            },
    {
        match write_json_time(*self) {
            Some(text) => {
                match read_time(text.as_str()) {
                    Some(back) => {
                        if back.secs == self.secs && back.nanos == self.nanos {
                            Some(text)
                        } else {
                            None
                        }
                    },
                    None => None,
                }
            },
            None => None,
        }
    }
}

} // verus!
