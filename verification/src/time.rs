//! Instants in UTC, as the update workflow compares them.

use vstd::prelude::*;

verus! {

/// An instant in UTC with nanosecond precision.
///
/// `secs` counts the non-leap seconds since 1970-01-01T00:00:00Z and `nanos`
/// the nanoseconds since the start of that second. During a leap second
/// `nanos` may exceed 999,999,999. Instants are ordered by `secs`, then by
/// `nanos`.
#[derive(Debug, Clone, Copy, PartialEq, Eq, Structural)]
pub struct UtcTime {
    /// Whole seconds since the Unix epoch.
    pub secs: i64,
    /// Nanoseconds since the last second boundary.
    pub nanos: u32,
}

impl UtcTime {
    /// Whether `self` is strictly earlier than `other`.
    pub open spec fn before(self, other: UtcTime) -> bool {
        self.secs < other.secs || (self.secs == other.secs && self.nanos < other.nanos)
    }

    /// Whether `self` is `other` or earlier.
    pub open spec fn not_after(self, other: UtcTime) -> bool {
        !other.before(self)
    }

    /// The earlier of `self` and `other`; `self` when they are equal.
    pub open spec fn earlier_of(self, other: UtcTime) -> UtcTime {
        if other.before(self) {
            other
        } else {
            self
        }
    }

    /// An instant from its seconds and nanoseconds.
    pub fn new(secs: i64, nanos: u32) -> (time: UtcTime)
        ensures
            time == (UtcTime { secs, nanos }),
    {
        UtcTime { secs, nanos }
    }

    /// Tells whether `self` is strictly earlier than `other`.
    pub fn is_before(&self, other: &UtcTime) -> (earlier: bool)
        ensures
            earlier == self.before(*other),
    {
        self.secs < other.secs || (self.secs == other.secs && self.nanos < other.nanos)
    }
}

/// The order of instants is a strict total order.
pub proof fn lemma_time_order(a: UtcTime, b: UtcTime, c: UtcTime)
    ensures
        !a.before(a),
        a.before(b) && b.before(c) ==> a.before(c),
        a.not_after(b) && b.not_after(c) ==> a.not_after(c),
        a.not_after(b) && b.before(c) ==> a.before(c),
        a.before(b) || b.before(a) || a == b,
        !(a.before(b) && b.before(a)),
{
}

/// Reads the system clock through `chrono::Utc::now` and gives the reading as
/// seconds (`DateTime::timestamp`) and nanoseconds
/// (`DateTime::timestamp_subsec_nanos`). Nothing is claimed of the reading:
/// it is whatever the clock of the machine says. `chrono` stops the program
/// where that clock reads a time before 1970.
#[verifier::external_body]
pub(crate) fn clock_now() -> (now: UtcTime) {
    let now = chrono::Utc::now();
    UtcTime { secs: now.timestamp(), nanos: now.timestamp_subsec_nanos() }
}

} // verus!
