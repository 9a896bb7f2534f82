//! The expiration policy: voting windows, deadlines, and the "is this
//! proposal expired as of now" question.
//!
//! A window is configured either as a count of discrete ticks (block heights)
//! or as a wall-clock span; a deadline is the matching kind of instant. The
//! caller-supplied "now" carries both coordinates, so a deadline of either
//! kind can always be compared against it, and a custom deadline is accepted
//! only when its kind matches the configured window's.

use vstd::prelude::*;

verus! {

/// A voting window: how long a proposal stays open, counted from its
/// submission instant.
#[derive(Clone, Copy, PartialEq, Eq, Structural, Debug)]
pub enum Duration {
    /// A number of discrete ticks (block heights).
    Height(u64),
    /// A wall-clock span, in the host's time unit.
    Time(u64),
}

/// A proposal's deadline: the first instant at which it counts as expired.
#[derive(Clone, Copy, PartialEq, Eq, Structural, Debug)]
pub enum Deadline {
    /// Expired once the current height reaches this value.
    AtHeight(u64),
    /// Expired once the current time reaches this value.
    AtTime(u64),
}

/// A caller-supplied "now": the host guarantees both coordinates are
/// monotonically non-decreasing across calls.
#[derive(Clone, Copy, PartialEq, Eq, Structural, Debug)]
pub struct Instant {
    pub height: u64,
    pub time: u64,
}

impl Duration {
    /// The deadline a window yields when it starts at `now`. Saturates at the
    /// largest representable instant: such a deadline never arrives within
    /// representable time.
    pub open spec fn spec_deadline(self, now: Instant) -> Deadline {
        match self {
            Duration::Height(h) => Deadline::AtHeight(
                if now.height + h <= u64::MAX { (now.height + h) as u64 } else { u64::MAX },
            ),
            Duration::Time(t) => Deadline::AtTime(
                if now.time + t <= u64::MAX { (now.time + t) as u64 } else { u64::MAX },
            ),
        }
    }

    /// Computes the deadline of a window starting at `now`.
    pub fn deadline(&self, now: Instant) -> (r: Deadline)
        ensures
            r == self.spec_deadline(now),
    {
        match *self {
            Duration::Height(h) => {
                if now.height <= u64::MAX - h {
                    Deadline::AtHeight(now.height + h)
                } else {
                    Deadline::AtHeight(u64::MAX)
                }
            },
            Duration::Time(t) => {
                if now.time <= u64::MAX - t {
                    Deadline::AtTime(now.time + t)
                } else {
                    Deadline::AtTime(u64::MAX)
                }
            },
        }
    }
}

impl Deadline {
    /// Whether the deadline has arrived as of `now`: a proposal is expired
    /// once "now" is at or past its deadline.
    pub open spec fn spec_expired(self, now: Instant) -> bool {
        match self {
            Deadline::AtHeight(h) => now.height >= h,
            Deadline::AtTime(t) => now.time >= t,
        }
    }

    /// Decides whether the deadline has arrived as of `now`.
    pub fn is_expired(&self, now: Instant) -> (r: bool)
        ensures
            r == self.spec_expired(now),
    {
        match *self {
            Deadline::AtHeight(h) => now.height >= h,
            Deadline::AtTime(t) => now.time >= t,
        }
    }

    /// Whether `self` is of the same kind as `other` and no later than it.
    /// Deadlines of different kinds are never comparable.
    pub open spec fn spec_at_most(self, other: Deadline) -> bool {
        match (self, other) {
            (Deadline::AtHeight(a), Deadline::AtHeight(b)) => a <= b,
            (Deadline::AtTime(a), Deadline::AtTime(b)) => a <= b,
            _ => false,
        }
    }

    /// Decides whether `self` is of the same kind as `other` and no later
    /// than it.
    pub fn at_most(&self, other: &Deadline) -> (r: bool)
        ensures
            r == self.spec_at_most(*other),
    {
        match (*self, *other) {
            (Deadline::AtHeight(a), Deadline::AtHeight(b)) => a <= b,
            (Deadline::AtTime(a), Deadline::AtTime(b)) => a <= b,
            _ => false,
        }
    }
}

} // verus!
