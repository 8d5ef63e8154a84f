//! Calendar conversions and the wall clock, both provided by `chrono`.
use vstd::prelude::*;
use chrono::{Datelike, TimeZone};

verus! {

/// Smallest year that a `chrono` date can hold.
pub const MIN_YEAR: i32 = -262143;

/// Largest year that a `chrono` date can hold.
pub const MAX_YEAR: i32 = 262142;

/// No instant that `chrono` holds lies this many seconds or more from the epoch.
pub const HELD_BOUND_SECS: i64 = 10_000_000_000_000;

/// Instants within this many seconds of the Unix epoch, either way, lie well inside
/// the range of years that `chrono` can hold.
pub const MAX_SECS: i64 = 8_000_000_000_000;

/// The RFC 3339 text that `chrono` writes for the UTC instant `secs` seconds and
/// `nanos` nanoseconds after the Unix epoch.
pub uninterp spec fn spec_rfc3339(secs: i64, nanos: u32) -> Seq<char>;

/// The UTC calendar year and month of the instant `secs` seconds and `nanos`
/// nanoseconds after the Unix epoch, or `None` where `chrono` holds no such instant.
pub uninterp spec fn spec_utc_year_month(secs: i64, nanos: u32) -> Option<(i32, u32)>;

/// Calls `chrono::Utc.timestamp_opt(secs, nanos)` and reads `year()` and `month()`
/// of the date it gives. Claimed: the result is a function of the two arguments; a
/// month lies in 1..=12 and a year in chrono's range (so a held instant lies within
/// `HELD_BOUND_SECS` of the epoch); an instant within `MAX_SECS` of the epoch with
/// fewer than a second of nanoseconds is always held.
#[verifier::external_body]
pub(crate) fn utc_year_month(secs: i64, nanos: u32) -> (r: Option<(i32, u32)>)
    ensures
        r == spec_utc_year_month(secs, nanos),
        r matches Some((y, m)) ==> 1 <= m <= 12 && MIN_YEAR <= y <= MAX_YEAR,
        r is Some ==> -HELD_BOUND_SECS < secs < HELD_BOUND_SECS,
        -MAX_SECS <= secs <= MAX_SECS && nanos < 1_000_000_000 ==> r is Some,
{
    match chrono::Utc.timestamp_opt(secs, nanos) {
        chrono::LocalResult::Single(dt) => Some((dt.year(), dt.month())),
        _ => None,
    }
}

/// Calls `chrono::DateTime::from_timestamp(secs, nanos)` and `to_rfc3339()` on the
/// instant it gives. Claimed: the text is a function of the two arguments; an instant
/// is held exactly where `timestamp_opt` holds it (both go through `from_timestamp`),
/// and always within `MAX_SECS` of the epoch with fewer than a second of nanoseconds.
#[verifier::external_body]
pub(crate) fn rfc3339_utc(secs: i64, nanos: u32) -> (r: Option<String>)
    ensures
        r is Some <==> spec_utc_year_month(secs, nanos) is Some,
        r matches Some(s) ==> s@ == spec_rfc3339(secs, nanos),
        -MAX_SECS <= secs <= MAX_SECS && nanos < 1_000_000_000 ==> r is Some,
{
    match chrono::DateTime::from_timestamp(secs, nanos) {
        Some(dt) => Some(dt.to_rfc3339()),
        None => None,
    }
}

/// An instant that `chrono` can hold: whole seconds and nanoseconds since the Unix epoch.
#[derive(Clone, Copy, Debug)]
pub struct Timestamp {
    secs: i64,
    nanos: u32,
}

impl Timestamp {
    #[verifier::type_invariant]
    spec fn well_formed(self) -> bool {
        spec_utc_year_month(self.secs, self.nanos) is Some && -HELD_BOUND_SECS < self.secs < HELD_BOUND_SECS
    }

    /// Seconds since the epoch.
    pub closed spec fn spec_secs(self) -> i64 {
        self.secs
    }

    /// Nanoseconds past the second.
    pub closed spec fn spec_nanos(self) -> u32 {
        self.nanos
    }

    /// The instant `secs` seconds and `nanos` nanoseconds after the epoch, where
    /// `chrono` holds it (always so within `MAX_SECS` of the epoch with `nanos` below
    /// one second).
    pub fn new(secs: i64, nanos: u32) -> (r: Option<Timestamp>)
        ensures
            r is Some <==> spec_utc_year_month(secs, nanos) is Some,
            -MAX_SECS <= secs <= MAX_SECS && nanos < 1_000_000_000 ==> r is Some,
            r matches Some(t) ==> t.spec_secs() == secs && t.spec_nanos() == nanos,
    {
        match utc_year_month(secs, nanos) {
            Some(_) => Some(Timestamp { secs, nanos }),
            None => None,
        }
    }

    /// Seconds since the epoch.
    pub fn secs(&self) -> (r: i64)
        ensures
            r == self.spec_secs(),
            -HELD_BOUND_SECS < r < HELD_BOUND_SECS,
    {
        proof {
            use_type_invariant(self);
        }
        self.secs
    }

    /// Nanoseconds past the second.
    pub fn nanos(&self) -> (r: u32)
        ensures
            r == self.spec_nanos(),
    {
        self.nanos
    }

    /// The RFC 3339 text of this instant.
    pub fn to_rfc3339(&self) -> (r: String)
        ensures
            r@ == spec_rfc3339(self.spec_secs(), self.spec_nanos()),
    {
        proof {
            use_type_invariant(self);
        }
        match rfc3339_utc(self.secs, self.nanos) {
            Some(s) => s,
            None => {
                assert(false);
                String::new()
            },
        }
    }

    /// The current instant (not before the epoch, below a second of nanoseconds).
    pub fn now() -> (r: Timestamp)
        ensures
            r.spec_secs() >= 0,
            r.spec_nanos() < 1_000_000_000,
    {
        let (secs, nanos) = utc_now_unix();
        Timestamp { secs, nanos }
    }
}

/// Calls `chrono::Utc::now()` and reads its year and month. Claimed: only that the
/// month lies in 1..=12 and the year in chrono's range; the values depend on the clock.
#[verifier::external_body]
pub(crate) fn utc_now_year_month() -> (r: (i32, u32))
    ensures
        1 <= r.1 <= 12,
        MIN_YEAR <= r.0 <= MAX_YEAR,
{
    let now = chrono::Utc::now();
    (now.year(), now.month())
}

/// Calls `chrono::Utc::now()` and reads `timestamp()` and `timestamp_subsec_nanos()`.
/// Claimed: only that the instant is one that `chrono` holds (it came from a
/// `DateTime`), not before the epoch, with fewer than a second of nanoseconds (it is
/// built from a `Duration` since the epoch); which instant it is depends on the clock.
/// `Utc::now()` panics where the system clock reads before the epoch.
#[verifier::external_body]
pub(crate) fn utc_now_unix() -> (r: (i64, u32))
    ensures
        spec_utc_year_month(r.0, r.1) is Some,
        0 <= r.0 < HELD_BOUND_SECS,
        r.1 < 1_000_000_000,
{
    let now = chrono::Utc::now();
    (now.timestamp(), now.timestamp_subsec_nanos())
}

} // verus!
