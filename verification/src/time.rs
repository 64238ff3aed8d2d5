//! Points in time, as the connectors compute with them.

use vstd::prelude::*;

verus! {

/// A point in time: whole seconds since the start of 1970 in UTC, and the
/// nanoseconds into the second.
#[derive(Debug, Clone, Copy, PartialEq, Eq, Structural)]
pub struct Timestamp {
    pub seconds: i64,
    pub nanos: u32,
}

impl Timestamp {
    /// Whether the nanoseconds stay within the second.
    pub open spec fn wf(self) -> bool {
        self.nanos < 1_000_000_000
    }

    /// The point in time `seconds` later, where it can be represented.
    pub open spec fn later(self, seconds: int) -> Timestamp
        recommends
            i64::MIN <= self.seconds + seconds <= i64::MAX,
    {
        Timestamp { seconds: (self.seconds + seconds) as i64, nanos: self.nanos }
    }

    /// Whether the point in time lies before `other`.
    pub open spec fn before(self, other: Timestamp) -> bool {
        self.seconds < other.seconds || (self.seconds == other.seconds && self.nanos
            < other.nanos)
    }

    /// The point in time `seconds` later.
    pub fn plus_seconds(self, seconds: i64) -> (out: Timestamp)
        requires
            i64::MIN <= self.seconds + seconds <= i64::MAX,
        ensures
            out == self.later(seconds as int),
            self.wf() ==> out.wf(),
    {
        Timestamp { seconds: self.seconds + seconds, nanos: self.nanos }
    }

    /// The point in time `seconds` later, or nothing where the seconds no
    /// longer fit.
    pub fn checked_plus_seconds(self, seconds: i64) -> (out: Option<Timestamp>)
        ensures
            out == if i64::MIN <= self.seconds + seconds <= i64::MAX {
                Some(self.later(seconds as int))
            } else {
                None
            },
    {
        match self.seconds.checked_add(seconds) {
            Some(sum) => Some(Timestamp { seconds: sum, nanos: self.nanos }),
            None => None,
        }
    }

    /// Whether the point in time lies before `other`.
    pub fn is_before(self, other: Timestamp) -> (out: bool)
        ensures
            out == self.before(other),
    {
        self.seconds < other.seconds || (self.seconds == other.seconds && self.nanos
            < other.nanos)
    }
}

/// Points in time are in a line: none lies before itself, of two that
/// differ one lies before the other, and what lies before an earlier one
/// lies before a later one.
pub proof fn lemma_before_is_an_order(a: Timestamp, b: Timestamp, c: Timestamp)
    ensures
        !a.before(a),
        a == b || a.before(b) || b.before(a),
        !(a.before(b) && b.before(a)),
        a.before(b) && b.before(c) ==> a.before(c),
{
}

/// A point in time lies before the one that is later by a number of
/// seconds above zero.
pub proof fn lemma_later_is_later(a: Timestamp, seconds: int)
    requires
        0 < seconds,
        a.seconds + seconds <= i64::MAX,
    ensures
        a.before(a.later(seconds)),
{
}

} // verus!
