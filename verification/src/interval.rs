use vstd::prelude::*;

verus! {

/// A span of time made of three independent parts.
///
/// The parts are never folded into one another: thirty days are not a month,
/// and twenty-four hours of microseconds are not a day.  Two intervals are
/// equal exactly when all three parts are equal.
#[derive(Debug, Clone, Copy, PartialEq, Eq, Structural)]
pub struct Interval {
    /// Whole calendar months; may be negative.
    pub months: i32,
    /// Whole calendar days; may be negative.
    pub days: i32,
    /// The part below a day, in microseconds; may be negative.
    pub microseconds: i64,
}

impl Interval {
    /// The interval of pure elapsed time: no months, no days.
    pub open spec fn elapsed(microseconds: i64) -> Interval {
        Interval { months: 0, days: 0, microseconds }
    }

    /// Builds the interval of pure elapsed time of the given length.
    pub fn from_microseconds(microseconds: i64) -> (r: Interval)
        ensures
            r == Interval::elapsed(microseconds),
    {
        Interval { months: 0, days: 0, microseconds }
    }
}

} // verus!
