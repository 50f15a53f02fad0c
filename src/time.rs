//! Instants in time, held as plain integers, with RFC 3339 text handled by chrono.

use vstd::prelude::*;

verus! {

/// The earliest UNIX timestamp (in seconds) that chrono can represent.
pub const MIN_SECONDS: i64 = -8_334_601_315_200;

/// The latest UNIX timestamp (in seconds) that chrono can represent.
pub const MAX_SECONDS: i64 = 8_210_266_876_799;

/// The parts of an instant that chrono can represent: seconds since the UNIX
/// epoch within chrono's range, a sub-second part that exceeds one second only
/// inside a leap second, and an offset from UTC strictly within one day.
pub open spec fn representable(seconds: int, nanos: int, offset: int) -> bool {
    &&& MIN_SECONDS <= seconds <= MAX_SECONDS
    &&& 0 <= nanos < 2_000_000_000
    &&& (nanos >= 1_000_000_000 ==> seconds % 60 == 59)
    &&& -86_400 < offset < 86_400
}

/// The RFC 3339 text that chrono writes for an instant.
pub uninterp spec fn rfc3339_text(seconds: int, nanos: int, offset: int) -> Seq<char>;

/// What chrono reads from a text as an RFC 3339 date-time: the seconds since
/// the UNIX epoch, the sub-second nanoseconds and the offset from UTC in seconds.
pub uninterp spec fn rfc3339_parts(s: Seq<char>) -> Option<(i64, u32, i32)>;

/// Relies on `chrono::DateTime::parse_from_rfc3339`: the result depends on the
/// text alone, and every `DateTime<FixedOffset>` that chrono hands out is
/// representable (its `timestamp`, `timestamp_subsec_nanos` and
/// `local_minus_utc`).
#[verifier::external_body]
fn parse_rfc3339_parts(s: &str) -> (r: Option<(i64, u32, i32)>)
    ensures
        r == rfc3339_parts(s@),
        r matches Some(p) ==> representable(p.0 as int, p.1 as int, p.2 as int),
{
    match chrono::DateTime::parse_from_rfc3339(s) {
        Ok(d) => Some((d.timestamp(), d.timestamp_subsec_nanos(), d.offset().local_minus_utc())),
        Err(_) => None,
    }
}

/// Relies on `chrono::Utc::now`: the current instant, as a `DateTime<Utc>`
/// that chrono can represent.
#[verifier::external_body]
fn utc_now_parts() -> (r: (i64, u32))
    ensures
        representable(r.0 as int, r.1 as int, 0),
{
    let now = chrono::Utc::now();
    (now.timestamp(), now.timestamp_subsec_nanos())
}

/// Relies on `chrono::DateTime::to_rfc3339`, on the instant rebuilt with
/// `DateTime::from_timestamp` and `FixedOffset::east_opt`, which accept every
/// representable set of parts.
#[verifier::external_body]
fn format_rfc3339(seconds: i64, nanos: u32, offset: i32) -> (r: String)
    requires
        representable(seconds as int, nanos as int, offset as int),
    ensures
        r@ == rfc3339_text(seconds as int, nanos as int, offset as int),
{
    let utc = chrono::DateTime::from_timestamp(seconds, nanos).unwrap();
    let zone = chrono::FixedOffset::east_opt(offset).unwrap();
    utc.with_timezone(&zone).to_rfc3339()
}

/// An instant with the offset from UTC at which it was written.
#[derive(Clone, Copy, PartialEq, Eq, Debug)]
pub struct Timestamp {
    seconds: i64,
    nanos: u32,
    offset: i32,
}

impl Timestamp {
    #[verifier::type_invariant]
    spec fn inv(&self) -> bool {
        representable(self.seconds as int, self.nanos as int, self.offset as int)
    }

    /// Seconds since the UNIX epoch.
    pub closed spec fn spec_seconds(&self) -> int {
        self.seconds as int
    }

    /// Nanoseconds past `spec_seconds`.
    pub closed spec fn spec_nanos(&self) -> int {
        self.nanos as int
    }

    /// Offset from UTC, in seconds.
    pub closed spec fn spec_offset(&self) -> int {
        self.offset as int
    }

    /// The RFC 3339 text of this instant.
    pub open spec fn rfc3339(&self) -> Seq<char> {
        rfc3339_text(self.spec_seconds(), self.spec_nanos(), self.spec_offset())
    }

    /// What `parse_rfc3339` returns for a text.
    pub closed spec fn parsed(s: Seq<char>) -> Option<Timestamp> {
        match rfc3339_parts(s) {
            Some(p) => Some(Timestamp { seconds: p.0, nanos: p.1, offset: p.2 }),
            None => None,
        }
    }

    /// Reads an RFC 3339 date-time; `None` when chrono does not accept the text.
    pub fn parse_rfc3339(s: &str) -> (r: Option<Timestamp>)
        ensures
            r == Timestamp::parsed(s@),
    {
        match parse_rfc3339_parts(s) {
            Some(p) => Some(Timestamp { seconds: p.0, nanos: p.1, offset: p.2 }),
            None => None,
        }
    }

    /// The current instant, at offset zero.
    pub fn now() -> (r: Timestamp)
        ensures
            r.spec_offset() == 0,
    {
        let (seconds, nanos) = utc_now_parts();
        Timestamp { seconds, nanos, offset: 0 }
    }

    /// The RFC 3339 text of this instant, such as `2023-08-13T00:00:00+00:00`.
    pub fn to_rfc3339(&self) -> (r: String)
        ensures
            r@ == self.rfc3339(),
    {
        proof {
            use_type_invariant(self);
        }
        format_rfc3339(self.seconds, self.nanos, self.offset)
    }

    pub fn unix_seconds(&self) -> (r: i64)
        ensures
            r as int == self.spec_seconds(),
    {
        self.seconds
    }

    pub fn subsec_nanos(&self) -> (r: u32)
        ensures
            r as int == self.spec_nanos(),
    {
        self.nanos
    }

    pub fn offset_seconds(&self) -> (r: i32)
        ensures
            r as int == self.spec_offset(),
    {
        self.offset
    }
}

} // verus!
