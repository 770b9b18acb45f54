//! Instants on the UTC time line, as plain integers.

use std::cmp::Ordering;

use chrono::Utc;
use vstd::prelude::*;

verus! {

/// `Utc::now`, as the seconds and nanoseconds of its reading. Which instant
/// is read is not claimed: two calls may return any two instants. `chrono`
/// makes every reading from the time that has passed since 1970, taken as
/// whole seconds and the nanoseconds of the second begun, so the nanoseconds
/// are less than a second. It takes the system clock to show a time after
/// 1970.
#[verifier::external_body]
fn wall_clock() -> (now: Timestamp)
    ensures
        now.nanos < NANOS_PER_SEC,
{
    let now = Utc::now();
    Timestamp { secs: now.timestamp(), nanos: now.timestamp_subsec_nanos() }
}

/// The nanoseconds that make a second.
pub const NANOS_PER_SEC: u32 = 1_000_000_000;

/// The first second of the year 0000, in seconds since the Unix epoch.
pub const MIN_SECS: i64 = -62_167_219_200;

/// The last second of the year 9999, in seconds since the Unix epoch.
pub const MAX_SECS: i64 = 253_402_300_799;

/// An instant in UTC: whole seconds since the Unix epoch, and the
/// nanoseconds that have passed since that second began.
///
/// Instants are ordered by `secs`, then by `nanos`.
#[derive(Clone, Copy, Debug, PartialEq, Eq, Structural, Ord, Hash)]
pub struct Timestamp {
    pub secs: i64,
    pub nanos: u32,
}

impl Timestamp {
    /// Whether `self` lies strictly before `other`.
    pub open spec fn before(self, other: Timestamp) -> bool {
        self.secs < other.secs || (self.secs == other.secs && self.nanos < other.nanos)
    }

    /// Whether `self` is `due` or later: an event due at `due` may fire at `self`.
    pub open spec fn reached(self, due: Timestamp) -> bool {
        !self.before(due)
    }

    /// Whether the seconds lie in the years 0000 to 9999.
    pub open spec fn in_calendar(self) -> bool {
        MIN_SECS <= self.secs <= MAX_SECS
    }

    /// The instant `secs` seconds and `nanos` nanoseconds after the Unix epoch.
    pub fn new(secs: i64, nanos: u32) -> (t: Timestamp)
        ensures
            t.secs == secs,
            t.nanos == nanos,
    {
        Timestamp { secs, nanos }
    }

    /// The instant that the system clock shows: whole seconds, and less than
    /// a second of nanoseconds. The clock alone decides which instant it is.
    pub fn now() -> (now: Timestamp)
        ensures
            now.nanos < NANOS_PER_SEC,
    {
        wall_clock()
    }

    /// Decides `self.before(*other)`.
    pub fn is_before(&self, other: &Timestamp) -> (b: bool)
        ensures
            b == self.before(*other),
    {
        self.secs < other.secs || (self.secs == other.secs && self.nanos < other.nanos)
    }

    /// Decides `self.reached(*due)`.
    pub fn has_reached(&self, due: &Timestamp) -> (b: bool)
        ensures
            b == self.reached(*due),
    {
        !self.is_before(due)
    }

    /// Decides `self.in_calendar()`.
    pub fn is_in_calendar(&self) -> (b: bool)
        ensures
            b == self.in_calendar(),
    {
        MIN_SECS <= self.secs && self.secs <= MAX_SECS
    }
}

impl PartialOrd for Timestamp {
    /// The order of instants in time.
    fn partial_cmp(&self, other: &Timestamp) -> (order: Option<Ordering>) {
        if self.is_before(other) {
            Some(Ordering::Less)
        } else if other.is_before(self) {
            Some(Ordering::Greater)
        } else {
            Some(Ordering::Equal)
        }
    }
}

impl vstd::std_specs::cmp::PartialOrdSpecImpl for Timestamp {
    open spec fn obeys_partial_cmp_spec() -> bool {
        true
    }

    open spec fn partial_cmp_spec(&self, other: &Timestamp) -> Option<Ordering> {
        if self.before(*other) {
            Some(Ordering::Less)
        } else if other.before(*self) {
            Some(Ordering::Greater)
        } else {
            Some(Ordering::Equal)
        }
    }
}

/// Of two different instants exactly one lies before the other, and the
/// order is transitive: `before` is a strict total order.
pub proof fn before_is_strict_total_order(a: Timestamp, b: Timestamp, c: Timestamp)
    ensures
        !a.before(a),
        a.before(b) ==> !b.before(a),
        a == b || a.before(b) || b.before(a),
        a.before(b) && b.before(c) ==> a.before(c),
{
}

} // verus!
