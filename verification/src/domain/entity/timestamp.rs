use vstd::prelude::*;

verus! {

/// Smallest second count that the calendar of the clock crate reaches:
/// midnight of 1 January of the year -262143.
pub const MIN_SECS: i64 = -8_334_601_228_800;

/// Largest second count that the calendar of the clock crate reaches:
/// the last second of 31 December of the year 262142.
pub const MAX_SECS: i64 = 8_210_266_876_799;

/// The nanoseconds of a second.
pub const NANOS_PER_SEC: u32 = 1_000_000_000;

/// The seconds of a day without a leap second.
pub const SECS_PER_DAY: i64 = 86_400;

/// An instant in UTC: whole seconds since 1970-01-01T00:00:00Z and the
/// nanoseconds past that second. During a leap second the nanoseconds run
/// from one to two thousand million while the seconds stay at the 59th.
#[derive(Clone, Copy, Debug, PartialEq, Eq, Structural)]
pub struct Timestamp {
    pub secs: i64,
    pub nanos: u32,
}

impl Timestamp {
    /// The instants that the calendar can represent.
    pub open spec fn is_valid(self) -> bool {
        &&& MIN_SECS <= self.secs <= MAX_SECS
        &&& self.nanos < 2 * NANOS_PER_SEC
        &&& (self.nanos >= NANOS_PER_SEC ==> self.secs as int % 60 == 59)
    }

    /// Strictly earlier: seconds first, nanoseconds to break a tie.
    pub open spec fn spec_before(self, other: Timestamp) -> bool {
        self.secs < other.secs || (self.secs == other.secs && self.nanos < other.nanos)
    }

    /// Earlier or the same instant.
    pub open spec fn spec_not_after(self, other: Timestamp) -> bool {
        self.spec_before(other) || self == other
    }

    pub fn new(secs: i64, nanos: u32) -> (t: Timestamp)
        ensures
            t.secs == secs,
            t.nanos == nanos,
    {
        Timestamp { secs, nanos }
    }

    pub fn before(&self, other: &Timestamp) -> (b: bool)
        ensures
            b == self.spec_before(*other),
    {
        self.secs < other.secs || (self.secs == other.secs && self.nanos < other.nanos)
    }

    pub fn not_after(&self, other: &Timestamp) -> (b: bool)
        ensures
            b == self.spec_not_after(*other),
    {
        !other.before(self)
    }

    /// The instant a number of whole days before this one, where this one is
    /// not inside a leap second.
    pub fn days_earlier(&self, days: i64) -> (earlier: Timestamp)
        requires
            self.nanos < NANOS_PER_SEC,
            i64::MIN <= self.secs - days * SECS_PER_DAY <= i64::MAX,
            i64::MIN <= days * SECS_PER_DAY <= i64::MAX,
        ensures
            earlier.secs == self.secs - days * SECS_PER_DAY,
            earlier.nanos == self.nanos,
    {
        Timestamp { secs: self.secs - days * SECS_PER_DAY, nanos: self.nanos }
    }

    /// The instant a number of whole minutes after this one, where this one
    /// is not inside a leap second.
    pub fn minutes_later(&self, minutes: i64) -> (later: Timestamp)
        requires
            self.nanos < NANOS_PER_SEC,
            i64::MIN <= minutes * 60 <= i64::MAX,
            i64::MIN <= self.secs + minutes * 60 <= i64::MAX,
        ensures
            later.secs == self.secs + minutes * 60,
            later.nanos == self.nanos,
    {
        Timestamp { secs: self.secs + minutes * 60, nanos: self.nanos }
    }

    /// Whether the calendar can represent this instant.
    pub fn valid(&self) -> (b: bool)
        ensures
            b == self.is_valid(),
    {
        if self.secs < MIN_SECS || self.secs > MAX_SECS || self.nanos >= 2 * NANOS_PER_SEC {
            return false;
        }
        if self.nanos < NANOS_PER_SEC {
            return true;
        }
        let shifted: i64 = self.secs - MIN_SECS;
        assert(shifted as int % 60 == self.secs as int % 60) by {
            assert(MIN_SECS as int == -138_910_020_480 * 60);
        }
        shifted % 60 == 59
    }
}

} // verus!
