//! Checked conversions from elapsed-time durations.
//!
//! A duration becomes an interval of pure elapsed time: no months, no days.
//! The conversion never rounds.  A duration that is not a whole number of
//! microseconds is refused, and so is one whose microseconds do not fit the
//! interval's 64-bit field.
//!
//! Each duration type is asked two questions: how many nanoseconds it holds and
//! how many whole microseconds.  What the answers decide is proved here, in the
//! `from_*_counts` functions.  The answers themselves come from `std`, `chrono`
//! and `time` and are taken on trust: each type has one total of nanoseconds,
//! and both answers are stated from it.

use crate::interval::Interval;
use core::time::Duration;
use vstd::prelude::*;
use vstd::std_specs::convert::TryFromSpecImpl;

verus! {

/// Why a duration has no interval.
#[derive(Debug, Clone, Copy, PartialEq, Eq, Structural)]
pub enum ConversionError {
    /// The duration is not a whole number of microseconds.
    PrecisionLoss,
    /// A count of the duration does not fit in 64 signed bits.
    Overflow,
}

impl ConversionError {
    /// The text that [`ConversionError::message`] returns.
    pub open spec fn message_text(self) -> Seq<char> {
        match self {
            ConversionError::PrecisionLoss =>
                "PostgreSQL `INTERVAL` does not support nanoseconds precision"@,
            ConversionError::Overflow => "Overflow has occurred for PostgreSQL `INTERVAL`"@,
        }
    }

    /// A sentence for the person who reads the error.
    pub fn message(&self) -> (text: &'static str)
        ensures
            text@ == self.message_text(),
    {
        match self {
            ConversionError::PrecisionLoss =>
                "PostgreSQL `INTERVAL` does not support nanoseconds precision",
            ConversionError::Overflow => "Overflow has occurred for PostgreSQL `INTERVAL`",
        }
    }
}

/// The nanoseconds that a duration of `std` holds, all told: what
/// `Duration::as_nanos` answers.
pub uninterp spec fn std_nanoseconds(duration: Duration) -> u128;

/// The nanoseconds that a duration of `chrono` holds, all told; below zero
/// for a negative duration.
pub uninterp spec fn chrono_nanoseconds(duration: chrono::TimeDelta) -> int;

/// The nanoseconds that a duration of `time` holds, all told: what
/// `Duration::whole_nanoseconds` answers.
pub uninterp spec fn time_nanoseconds(duration: time::Duration) -> i128;

/// The whole units of size `unit` in a signed count: the quotient that is
/// rounded toward zero.
pub open spec fn whole_units(count: int, unit: int) -> int {
    if count >= 0 {
        count / unit
    } else {
        -((-count) / unit)
    }
}

/// A count as `chrono` hands it out: the count where it fits in 64 signed
/// bits, and nothing where it does not.
pub open spec fn checked(count: int) -> Option<i64> {
    if i64::MIN <= count <= i64::MAX {
        Some(count as i64)
    } else {
        None
    }
}

/// The duration type of `chrono`, also known there as `Duration`.
#[verifier::external_type_specification]
#[verifier::external_body]
pub struct ExTimeDelta(chrono::TimeDelta);

/// The duration type of `time`.
#[verifier::external_type_specification]
#[verifier::external_body]
pub struct ExSignedDuration(time::Duration);

/// `core::time::Duration::as_nanos`, the total number of nanoseconds.
/// Trusted: the answer depends on the duration alone.
pub assume_specification[ Duration::as_nanos ](duration: &Duration) -> (count: u128)
    ensures
        count == std_nanoseconds(*duration),
;

/// `core::time::Duration::as_micros`, the total number of whole microseconds.
/// Trusted: it is the number of whole thousands in the nanoseconds.
pub assume_specification[ Duration::as_micros ](duration: &Duration) -> (count: u128)
    ensures
        count == std_nanoseconds(*duration) / 1000,
;

/// `chrono::TimeDelta::num_nanoseconds`, the total number of nanoseconds, or
/// `None` on overflow.
/// Trusted: it is the total where that fits in an `i64`, and `None` exactly
/// where it does not.
pub assume_specification[ chrono::TimeDelta::num_nanoseconds ](
    duration: &chrono::TimeDelta,
) -> (count: Option<i64>)
    ensures
        count == checked(chrono_nanoseconds(*duration)),
;

/// `chrono::TimeDelta::num_microseconds`, the total number of whole
/// microseconds, or `None` on overflow.
/// Trusted: it is the number of whole thousands in the nanoseconds, rounded
/// toward zero, where that fits in an `i64`, and `None` exactly where it does
/// not.
pub assume_specification[ chrono::TimeDelta::num_microseconds ](
    duration: &chrono::TimeDelta,
) -> (count: Option<i64>)
    ensures
        count == checked(whole_units(chrono_nanoseconds(*duration), 1000)),
;

/// `time::Duration::whole_nanoseconds`, the total number of nanoseconds.
/// Trusted: the answer depends on the duration alone.
pub assume_specification[ time::Duration::whole_nanoseconds ](duration: time::Duration) -> (count:
    i128)
    ensures
        count == time_nanoseconds(duration),
;

/// `time::Duration::whole_microseconds`, the total number of whole
/// microseconds.
/// Trusted: it is the number of whole thousands in the nanoseconds, rounded
/// toward zero.
pub assume_specification[ time::Duration::whole_microseconds ](duration: time::Duration) -> (count:
    i128)
    ensures
        count == whole_units(time_nanoseconds(duration) as int, 1000),
;

impl Interval {
    /// What two unsigned counts of one duration decide.
    pub open spec fn unsigned_outcome(nanoseconds: u128, microseconds: u128) -> Result<
        Interval,
        ConversionError,
    > {
        if nanoseconds % 1000 != 0 {
            Err(ConversionError::PrecisionLoss)
        } else if microseconds > i64::MAX {
            Err(ConversionError::Overflow)
        } else {
            Ok(Interval::elapsed(microseconds as i64))
        }
    }

    /// What two signed counts of one duration decide.
    pub open spec fn signed_outcome(nanoseconds: i128, microseconds: i128) -> Result<
        Interval,
        ConversionError,
    > {
        if nanoseconds % 1000 != 0 {
            Err(ConversionError::PrecisionLoss)
        } else if microseconds < i64::MIN || microseconds > i64::MAX {
            Err(ConversionError::Overflow)
        } else {
            Ok(Interval::elapsed(microseconds as i64))
        }
    }

    /// What two counts decide where each may already have overflowed.  A
    /// missing nanosecond count is an overflow, whatever the microseconds say.
    pub open spec fn checked_outcome(
        nanoseconds: Option<i64>,
        microseconds: Option<i64>,
    ) -> Result<Interval, ConversionError> {
        match (nanoseconds, microseconds) {
            (None, _) => Err(ConversionError::Overflow),
            (Some(n), _) if n % 1000 != 0 => Err(ConversionError::PrecisionLoss),
            (Some(_), None) => Err(ConversionError::Overflow),
            (Some(_), Some(m)) => Ok(Interval::elapsed(m)),
        }
    }

    /// The interval of a duration that cannot be negative, from its total
    /// nanoseconds and its total whole microseconds.
    ///
    /// Sub-microsecond detail is refused first; only a whole number of
    /// microseconds is then measured against the field.
    pub fn from_unsigned_counts(nanoseconds: u128, microseconds: u128) -> (r: Result<
        Interval,
        ConversionError,
    >)
        ensures
            r == Interval::unsigned_outcome(nanoseconds, microseconds),
            nanoseconds % 1000 != 0 ==> r == Err::<Interval, _>(ConversionError::PrecisionLoss),
            nanoseconds % 1000 == 0 && microseconds > i64::MAX ==> r == Err::<Interval, _>(
                ConversionError::Overflow,
            ),
            r is Ok ==> r->Ok_0.months == 0 && r->Ok_0.days == 0 && r->Ok_0.microseconds
                == microseconds,
    {
        if nanoseconds % 1000 != 0 {
            return Err(ConversionError::PrecisionLoss);
        }
        match i64::try_from(microseconds) {
            Ok(microseconds) => Ok(Interval::from_microseconds(microseconds)),
            Err(_) => Err(ConversionError::Overflow),
        }
    }

    /// The interval of a duration that may be negative, from its total
    /// nanoseconds and its total whole microseconds.
    pub fn from_signed_counts(nanoseconds: i128, microseconds: i128) -> (r: Result<
        Interval,
        ConversionError,
    >)
        ensures
            r == Interval::signed_outcome(nanoseconds, microseconds),
            nanoseconds % 1000 != 0 ==> r == Err::<Interval, _>(ConversionError::PrecisionLoss),
            nanoseconds % 1000 == 0 && !(i64::MIN <= microseconds <= i64::MAX) ==> r == Err::<
                Interval,
                _,
            >(ConversionError::Overflow),
            r is Ok ==> r->Ok_0.months == 0 && r->Ok_0.days == 0 && r->Ok_0.microseconds
                == microseconds,
    {
        if nanoseconds % 1000 != 0 {
            return Err(ConversionError::PrecisionLoss);
        }
        match i64::try_from(microseconds) {
            Ok(microseconds) => Ok(Interval::from_microseconds(microseconds)),
            Err(_) => Err(ConversionError::Overflow),
        }
    }

    /// The interval of a duration whose counts are checked at the source:
    /// `None` stands for a count that did not fit in 64 signed bits.
    ///
    /// The nanosecond count is looked at first.  Where it is missing the
    /// precision of the duration is unknown and the answer is an overflow.
    pub fn from_checked_counts(nanoseconds: Option<i64>, microseconds: Option<i64>) -> (r: Result<
        Interval,
        ConversionError,
    >)
        ensures
            r == Interval::checked_outcome(nanoseconds, microseconds),
            nanoseconds is None ==> r == Err::<Interval, _>(ConversionError::Overflow),
            nanoseconds is Some && nanoseconds->Some_0 % 1000 != 0 ==> r == Err::<Interval, _>(
                ConversionError::PrecisionLoss,
            ),
            nanoseconds is Some && nanoseconds->Some_0 % 1000 == 0 && microseconds is None ==> r
                == Err::<Interval, _>(ConversionError::Overflow),
            r is Ok ==> r->Ok_0.months == 0 && r->Ok_0.days == 0 && microseconds == Some(
                r->Ok_0.microseconds,
            ),
    {
        match nanoseconds {
            None => {
                return Err(ConversionError::Overflow);
            },
            Some(n) => {
                if n % 1000 != 0 {
                    return Err(ConversionError::PrecisionLoss);
                }
            },
        }
        match microseconds {
            None => Err(ConversionError::Overflow),
            Some(microseconds) => Ok(Interval::from_microseconds(microseconds)),
        }
    }
}

impl TryFrom<Duration> for Interval {
    type Error = ConversionError;

    /// The interval of a duration of `std`.
    ///
    /// A remainder of nanoseconds below the microsecond is refused, whatever
    /// the size of the duration; without one, more microseconds than the field
    /// holds are refused.
    fn try_from(value: Duration) -> (r: Result<Interval, ConversionError>)
        ensures
            std_nanoseconds(value) % 1000 != 0 ==> r == Err::<Interval, _>(
                ConversionError::PrecisionLoss,
            ),
            std_nanoseconds(value) % 1000 == 0 && std_nanoseconds(value) / 1000 > i64::MAX ==> r
                == Err::<Interval, _>(ConversionError::Overflow),
            std_nanoseconds(value) % 1000 == 0 && std_nanoseconds(value) / 1000 <= i64::MAX ==> r
                == Ok::<_, ConversionError>(
                Interval::elapsed((std_nanoseconds(value) / 1000) as i64),
            ),
    {
        Interval::from_unsigned_counts(value.as_nanos(), value.as_micros())
    }
}

impl TryFromSpecImpl<Duration> for Interval {
    open spec fn obeys_try_from_spec() -> bool {
        true
    }

    open spec fn try_from_spec(value: Duration) -> Result<Interval, ConversionError> {
        Interval::unsigned_outcome(std_nanoseconds(value), std_nanoseconds(value) / 1000)
    }
}

impl TryFrom<chrono::TimeDelta> for Interval {
    type Error = ConversionError;

    /// The interval of a duration of `chrono`.
    ///
    /// A duration whose nanoseconds do not fit in 64 bits is refused as an
    /// overflow before its precision is looked at, and so is every duration
    /// whose microseconds do not fit.  Then a remainder of nanoseconds is
    /// refused.
    fn try_from(value: chrono::TimeDelta) -> (r: Result<Interval, ConversionError>)
        ensures
            !(i64::MIN <= chrono_nanoseconds(value) <= i64::MAX) ==> r == Err::<Interval, _>(
                ConversionError::Overflow,
            ),
            !(i64::MIN <= whole_units(chrono_nanoseconds(value), 1000) <= i64::MAX) ==> r == Err::<
                Interval,
                _,
            >(ConversionError::Overflow),
            i64::MIN <= chrono_nanoseconds(value) <= i64::MAX && chrono_nanoseconds(value) % 1000
                != 0 ==> r == Err::<Interval, _>(ConversionError::PrecisionLoss),
            i64::MIN <= chrono_nanoseconds(value) <= i64::MAX && chrono_nanoseconds(value) % 1000
                == 0 ==> r == Ok::<_, ConversionError>(
                Interval::elapsed((chrono_nanoseconds(value) / 1000) as i64),
            ),
    {
        proof {
            lemma_whole_thousands(chrono_nanoseconds(value));
        }
        Interval::from_checked_counts(value.num_nanoseconds(), value.num_microseconds())
    }
}

impl TryFromSpecImpl<chrono::TimeDelta> for Interval {
    open spec fn obeys_try_from_spec() -> bool {
        true
    }

    open spec fn try_from_spec(value: chrono::TimeDelta) -> Result<Interval, ConversionError> {
        Interval::checked_outcome(
            checked(chrono_nanoseconds(value)),
            checked(whole_units(chrono_nanoseconds(value), 1000)),
        )
    }
}

impl TryFrom<time::Duration> for Interval {
    type Error = ConversionError;

    /// The interval of a duration of `time`.
    ///
    /// A remainder of nanoseconds below the microsecond is refused, whatever
    /// the size and the sign of the duration; without one, microseconds
    /// outside the field are refused.
    fn try_from(value: time::Duration) -> (r: Result<Interval, ConversionError>)
        ensures
            time_nanoseconds(value) % 1000 != 0 ==> r == Err::<Interval, _>(
                ConversionError::PrecisionLoss,
            ),
            time_nanoseconds(value) % 1000 == 0 && !(i64::MIN <= time_nanoseconds(value) / 1000
                <= i64::MAX) ==> r == Err::<Interval, _>(ConversionError::Overflow),
            time_nanoseconds(value) % 1000 == 0 && i64::MIN <= time_nanoseconds(value) / 1000
                <= i64::MAX ==> r == Ok::<_, ConversionError>(
                Interval::elapsed((time_nanoseconds(value) / 1000) as i64),
            ),
    {
        proof {
            lemma_whole_thousands(time_nanoseconds(value) as int);
        }
        Interval::from_signed_counts(value.whole_nanoseconds(), value.whole_microseconds())
    }
}

impl TryFromSpecImpl<time::Duration> for Interval {
    open spec fn obeys_try_from_spec() -> bool {
        true
    }

    open spec fn try_from_spec(value: time::Duration) -> Result<Interval, ConversionError> {
        Interval::signed_outcome(
            time_nanoseconds(value),
            whole_units(time_nanoseconds(value) as int, 1000) as i128,
        )
    }
}

/// The whole thousands in a count are no further from zero than the count,
/// and where the count is a multiple of a thousand they are its quotient.
pub proof fn lemma_whole_thousands(count: int)
    ensures
        count >= 0 ==> 0 <= whole_units(count, 1000) <= count,
        count <= 0 ==> count <= whole_units(count, 1000) <= 0,
        count % 1000 == 0 ==> whole_units(count, 1000) == count / 1000,
{
}

} // verus!
