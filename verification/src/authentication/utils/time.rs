//! Instants, as the token chain needs them: ordered, and movable by whole seconds.
use vstd::prelude::*;

verus! {

/// An instant on the UTC time line, as the seconds since the Unix epoch and
/// the nanoseconds into that second.
///
/// Instants are ordered by `seconds` first and by `nanos` second.
#[derive(Clone, Copy, Debug, PartialEq, Eq, Structural)]
pub struct Timestamp {
    pub seconds: i64,
    pub nanos: u32,
}

impl Timestamp {
    /// `self` lies strictly before `other`.
    pub open spec fn spec_lt(self, other: Timestamp) -> bool {
        self.seconds < other.seconds || (self.seconds == other.seconds && self.nanos
            < other.nanos)
    }

    /// `self` lies before `other` or is `other`.
    pub open spec fn spec_le(self, other: Timestamp) -> bool {
        self.seconds < other.seconds || (self.seconds == other.seconds && self.nanos
            <= other.nanos)
    }

    /// `self` is `start` moved by `seconds`, or lies after that instant.
    pub open spec fn spec_reached(self, start: Timestamp, seconds: int) -> bool {
        self.seconds > start.seconds + seconds || (self.seconds == start.seconds + seconds
            && self.nanos >= start.nanos)
    }

    /// `self` moved by `seconds`, where that instant can be held.
    pub open spec fn spec_checked_add_seconds(self, seconds: int) -> Option<Timestamp> {
        if i64::MIN <= self.seconds + seconds <= i64::MAX {
            Some(Timestamp { seconds: (self.seconds + seconds) as i64, nanos: self.nanos })
        } else {
            None
        }
    }

    /// The instant `seconds` after the epoch, `nanos` into that second.
    pub fn new(seconds: i64, nanos: u32) -> (t: Timestamp)
        ensures
            t == (Timestamp { seconds, nanos }),
    {
        Timestamp { seconds, nanos }
    }

    /// Whether `self` lies strictly before `other`.
    pub fn is_before(&self, other: &Timestamp) -> (b: bool)
        ensures
            b == self.spec_lt(*other),
    {
        self.seconds < other.seconds || (self.seconds == other.seconds && self.nanos
            < other.nanos)
    }

    /// Whether `self` lies before `other` or is `other`.
    pub fn is_at_or_before(&self, other: &Timestamp) -> (b: bool)
        ensures
            b == self.spec_le(*other),
    {
        self.seconds < other.seconds || (self.seconds == other.seconds && self.nanos
            <= other.nanos)
    }

    /// Whether `seconds` have passed at `self` since `start`.
    pub fn has_reached(&self, start: &Timestamp, seconds: i64) -> (b: bool)
        ensures
            b == self.spec_reached(*start, seconds as int),
    {
        let due: i128 = start.seconds as i128 + seconds as i128;
        let at: i128 = self.seconds as i128;
        at > due || (at == due && self.nanos >= start.nanos)
    }

    /// `self` moved by `seconds`; `None` where that instant cannot be held.
    pub fn checked_add_seconds(&self, seconds: i64) -> (moved: Option<Timestamp>)
        ensures
            moved == self.spec_checked_add_seconds(seconds as int),
    {
        match self.seconds.checked_add(seconds) {
            Some(sum) => Some(Timestamp { seconds: sum, nanos: self.nanos }),
            None => None,
        }
    }
}

/// The order of instants is total: of two instants, one lies before the other
/// or they are the same.
pub proof fn lemma_order_total(a: Timestamp, b: Timestamp)
    ensures
        a.spec_lt(b) || b.spec_lt(a) || a == b,
        a.spec_le(b) <==> !b.spec_lt(a),
{
}

/// Moving an instant forward by a positive number of seconds gives a later
/// instant.
pub proof fn lemma_add_positive_is_later(now: Timestamp, seconds: int)
    requires
        seconds > 0,
        now.spec_checked_add_seconds(seconds) is Some,
    ensures
        now.spec_lt(now.spec_checked_add_seconds(seconds).unwrap()),
{
}

} // verus!
