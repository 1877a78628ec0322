//! Timestamps used to bound the validity of routes.

use vstd::prelude::*;

verus! {

/// A point in time, in milliseconds since an arbitrary epoch.
#[derive(Clone, Copy, Debug, PartialEq, Eq, Hash)]
pub struct Instant {
    millis: i64,
}

impl Instant {
    /// The timestamp value in milliseconds.
    pub closed spec fn val(self) -> int {
        self.millis as int
    }

    /// An instant from a count of milliseconds.
    pub fn from_millis(millis: i64) -> (r: Instant)
        ensures
            r.val() == millis,
    {
        Instant { millis }
    }

    /// Whether this instant is strictly after `other`.
    pub fn is_after(&self, other: &Instant) -> (r: bool)
        ensures
            r == (self.val() > other.val()),
    {
        self.millis > other.millis
    }
}

} // verus!
