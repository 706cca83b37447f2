//! The ISO 8601 text form, `P(n)Y(n)M(n)DT(n)H(n)M(n)S`.
//!
//! Writing and reading the text is the work of the `pg_interval` crate.  This
//! module names what that crate produces, hands it the three fields unchanged,
//! and carries each kind of its complaints to the caller.
//!
//! One thing is decided here.  The parser of `pg_interval` adds the numbers of
//! a text into seven running sums with `+=`, which overflows on a text that
//! repeats a designator, or carries a fraction, next to a number at the edge
//! of a field.  A text is therefore handed over only after a scan has followed
//! the parser through it and found no addition that leaves its field.
//! [`Tally`] is that scan.  It holds the sums that the parser holds, and it
//! refuses the texts on which the parser overflows and no others.

use crate::decimal::Number;
use crate::interval::Interval;
use core::num::{ParseFloatError, ParseIntError};
use pg_interval::ParseError;
use vstd::prelude::*;
use vstd::std_specs::iter::IteratorSpec;
use vstd::string::to_string_from_display_ensures;

verus! {

/// The failure `std` reports for a number that is no integer.
#[verifier::external_type_specification]
#[verifier::external_body]
pub struct ExParseIntError(ParseIntError);

/// The failure `std` reports for a number that is no decimal fraction.
#[verifier::external_type_specification]
#[verifier::external_body]
pub struct ExParseFloatError(ParseFloatError);

/// Why a text is not an interval.  The first five kinds are the parser's and
/// carry what it said; the last is this module's.
#[derive(Debug, PartialEq, Eq)]
pub enum TextParseError {
    /// A number in the text is no integer.
    ParseInt(ParseIntError),
    /// A number in the text is no decimal fraction.
    ParseFloat(ParseFloatError),
    /// The years and months are malformed or out of range.
    InvalidYearMonth(String),
    /// The hours, minutes and seconds are malformed or out of range.
    InvalidTime(String),
    /// The text as a whole is not a duration.
    InvalidInterval(String),
    /// The numbers of the text, added up as the parser adds them, leave the
    /// field of this sum.  The text was not handed to the parser.
    Overflow(Sum),
}

impl TextParseError {
    /// The parser's own words: the text that a kind carries, or what `std`
    /// prints for the number that failed.  Nothing is added and nothing is
    /// left out.  An overflow has the words of this module.
    pub fn message(&self) -> (text: String)
        ensures
            match *self {
                TextParseError::ParseInt(e) => to_string_from_display_ensures(&e, text),
                TextParseError::ParseFloat(e) => to_string_from_display_ensures(&e, text),
                TextParseError::InvalidYearMonth(said) => text@ == said@,
                TextParseError::InvalidTime(said) => text@ == said@,
                TextParseError::InvalidInterval(said) => text@ == said@,
                TextParseError::Overflow(which) => text@ == if which.of_date() {
                    DATE_RANGE_MESSAGE@
                } else {
                    TIME_RANGE_MESSAGE@
                },
            },
    {
        match self {
            TextParseError::Overflow(which) => if which.is_of_date() {
                DATE_RANGE_MESSAGE.to_owned()
            } else {
                TIME_RANGE_MESSAGE.to_owned()
            },
            TextParseError::ParseInt(e) => e.to_string(),
            TextParseError::ParseFloat(e) => e.to_string(),
            TextParseError::InvalidYearMonth(said) => said.clone(),
            TextParseError::InvalidTime(said) => said.clone(),
            TextParseError::InvalidInterval(said) => said.clone(),
        }
    }
}

/// The least sum of years, months or days that the parser can hold.
pub const DATE_LEAST: i64 = -2_147_483_648;

/// The largest sum of years, months or days that the parser can hold.
pub const DATE_MOST: i64 = 2_147_483_647;

/// One of the seven running sums of the parser.
#[derive(Debug, Clone, Copy, PartialEq, Eq, Structural)]
pub enum Sum {
    Years,
    Months,
    Days,
    Hours,
    Minutes,
    Seconds,
    Microseconds,
}

impl Sum {
    /// The sum is one of years, months or days, which the parser holds in 32
    /// bits.  The others it holds in 64.
    pub open spec fn of_date(self) -> bool {
        self is Years || self is Months || self is Days
    }

    /// The least number that the sum can hold.
    pub open spec fn floor(self) -> i64 {
        if self.of_date() {
            DATE_LEAST
        } else {
            i64::MIN
        }
    }

    /// The largest number that the sum can hold.
    pub open spec fn ceiling(self) -> i64 {
        if self.of_date() {
            DATE_MOST
        } else {
            i64::MAX
        }
    }

    fn is_of_date(self) -> (r: bool)
        ensures
            r == self.of_date(),
    {
        match self {
            Sum::Years | Sum::Months | Sum::Days => true,
            _ => false,
        }
    }
}

/// How far the parser has come.
#[derive(Debug, Clone, Copy, PartialEq, Eq, Structural)]
pub enum Walk {
    /// It is still reading.
    Going,
    /// It has returned its answer, and reads and adds nothing more.
    Answered,
    /// Its next addition leaves the field of this sum.
    Overflows(Sum),
}

/// The sum to which a designator adds the whole part of its number, the sum
/// to which it carries the fraction, and the scale of that carry: twelfths of
/// a year go to the months, thirtieths of a month to the days, twenty-fourths
/// of a day to the hours, sixtieths of an hour to the minutes and of a minute
/// to the seconds, millionths of a second to the microseconds.  An `M` is a
/// month before the `T` and a minute after it.
pub open spec fn designated(c: char, in_date: bool) -> Option<(Sum, Sum, u32)> {
    if c == 'Y' {
        Some((Sum::Years, Sum::Months, 12u32))
    } else if c == 'M' && in_date {
        Some((Sum::Months, Sum::Days, 30u32))
    } else if c == 'D' {
        Some((Sum::Days, Sum::Hours, 24u32))
    } else if c == 'H' {
        Some((Sum::Hours, Sum::Minutes, 60u32))
    } else if c == 'M' {
        Some((Sum::Minutes, Sum::Seconds, 60u32))
    } else if c == 'S' {
        Some((Sum::Seconds, Sum::Microseconds, 1_000_000u32))
    } else {
        None
    }
}

fn designator(c: char, in_date: bool) -> (r: Option<(Sum, Sum, u32)>)
    ensures
        r == designated(c, in_date),
{
    if c == 'Y' {
        Some((Sum::Years, Sum::Months, 12u32))
    } else if c == 'M' && in_date {
        Some((Sum::Months, Sum::Days, 30u32))
    } else if c == 'D' {
        Some((Sum::Days, Sum::Hours, 24u32))
    } else if c == 'H' {
        Some((Sum::Hours, Sum::Minutes, 60u32))
    } else if c == 'M' {
        Some((Sum::Minutes, Sum::Seconds, 60u32))
    } else if c == 'S' {
        Some((Sum::Seconds, Sum::Microseconds, 1_000_000u32))
    } else {
        None
    }
}

/// What is known of the parser after some characters of a text.
///
/// The parser first looks for the last `P` of the text and answers at once
/// where that is the second character.  Otherwise it walks the text once.  It
/// skips every `P`, lets the first `T` end the date part, and gathers digits,
/// a `-` in the first place and a `.` in any later place into a number, until
/// `Y`, `M`, `D`, `H` or `S` ends the number.  The number is then read as a
/// `f64`.  Its whole part is added to the sum of the designator and its
/// fraction, scaled and rounded, to the next finer sum.  The parser answers
/// with an error, and is done, at any other character, at a number that does
/// not parse or is above the largest it accepts, and at an `S` in the date
/// part.  A number parses where it has a digit and no second point; with a
/// second point it can no longer parse, and the walk is over there.
///
/// The tally walks with it and holds the same seven sums.  What a number
/// adds and carries is worked out in [`crate::decimal`], to the last bit, so
/// the sums are the parser's own.  The walk stops at the first addition that
/// leaves its field.
#[derive(Debug, Clone, Copy, PartialEq, Eq, Structural)]
pub struct Tally {
    /// How many characters have been met, counted up to 2.
    pub met: u8,
    /// A `P` has been met, and the last of them was the second character.
    pub last_p_second: bool,
    pub walk: Walk,
    /// No `T` has been met: an `M` still means months.
    pub in_date: bool,
    /// The number being gathered.
    pub number: Number,
    /// The seven sums, coarsest first.
    pub years: i64,
    pub months: i64,
    pub days: i64,
    pub hours: i64,
    pub minutes: i64,
    pub seconds: i64,
    pub microseconds: i64,
}

impl Tally {
    /// Before the first character.
    pub open spec fn start() -> Tally {
        Tally {
            met: 0,
            last_p_second: false,
            walk: Walk::Going,
            in_date: true,
            number: Number::none(),
            years: 0,
            months: 0,
            days: 0,
            hours: 0,
            minutes: 0,
            seconds: 0,
            microseconds: 0,
        }
    }

    /// One of the sums.
    pub open spec fn sum(self, which: Sum) -> i64 {
        match which {
            Sum::Years => self.years,
            Sum::Months => self.months,
            Sum::Days => self.days,
            Sum::Hours => self.hours,
            Sum::Minutes => self.minutes,
            Sum::Seconds => self.seconds,
            Sum::Microseconds => self.microseconds,
        }
    }

    /// With another value for one of the sums.
    pub open spec fn with_sum(self, which: Sum, value: i64) -> Tally {
        match which {
            Sum::Years => Tally { years: value, ..self },
            Sum::Months => Tally { months: value, ..self },
            Sum::Days => Tally { days: value, ..self },
            Sum::Hours => Tally { hours: value, ..self },
            Sum::Minutes => Tally { minutes: value, ..self },
            Sum::Seconds => Tally { seconds: value, ..self },
            Sum::Microseconds => Tally { microseconds: value, ..self },
        }
    }

    /// The parser has answered.
    pub open spec fn answered(self) -> Tally {
        Tally { walk: Walk::Answered, ..self }
    }

    /// After the parser, if it is still going, adds `more` to a sum: the sum
    /// has grown, or the walk ends because the sum cannot hold it.
    pub open spec fn credited(self, which: Sum, more: i64) -> Tally {
        if self.walk != Walk::Going {
            self
        } else if which.floor() <= self.sum(which) + more <= which.ceiling() {
            self.with_sum(which, (self.sum(which) + more) as i64)
        } else {
            Tally { walk: Walk::Overflows(which), ..self }
        }
    }

    /// After a designator that adds to `which` and carries to `next` has ended
    /// the number.
    pub open spec fn settled(self, which: Sum, next: Sum, scale: u32) -> Tally {
        Tally { number: Number::none(), ..self }.credited(
            which,
            self.number.whole_part(which.of_date()),
        ).credited(next, self.number.carry(scale))
    }

    /// After one more character of the walk.
    pub open spec fn walked(self, c: char) -> Tally {
        if self.walk != Walk::Going || c == 'P' {
            self
        } else if c == 'T' && self.in_date {
            Tally { in_date: false, ..self }
        } else {
            match designated(c, self.in_date) {
                Some((which, next, scale)) => if !self.number.counts() || (c == 'S'
                    && self.in_date) {
                    self.answered()
                } else {
                    self.settled(which, next, scale)
                },
                None => match self.number.with_char(c) {
                    Some(number) => Tally { number, ..self },
                    None => self.answered(),
                },
            }
        }
    }

    /// After one more character.
    pub open spec fn after(self, c: char) -> Tally {
        Tally {
            met: if self.met < 2 {
                (self.met + 1) as u8
            } else {
                self.met
            },
            last_p_second: if c == 'P' {
                self.met == 1
            } else {
                self.last_p_second
            },
            ..self.walked(c)
        }
    }

    /// After all the characters of `text`.
    pub open spec fn of(text: Seq<char>) -> Tally
        decreases text.len(),
    {
        if text.len() == 0 {
            Tally::start()
        } else {
            Tally::of(text.drop_last()).after(text.last())
        }
    }

    /// The sum that the parser overflows on the text, if it walks the text
    /// and overflows one.
    pub open spec fn overflow(self) -> Option<Sum> {
        match self.walk {
            Walk::Overflows(which) if !self.last_p_second => Some(which),
            _ => None,
        }
    }

    fn begin() -> (r: Tally)
        ensures
            r == Tally::start(),
            r.number.fraction.wf(),
    {
        Tally {
            met: 0,
            last_p_second: false,
            walk: Walk::Going,
            in_date: true,
            number: Number::begin(),
            years: 0,
            months: 0,
            days: 0,
            hours: 0,
            minutes: 0,
            seconds: 0,
            microseconds: 0,
        }
    }

    fn credit(self, which: Sum, more: i64) -> (r: Tally)
        ensures
            r == self.credited(which, more),
            r.number == self.number,
    {
        if self.walk != Walk::Going {
            return self;
        }
        let (floor, ceiling) = if which.is_of_date() {
            (DATE_LEAST, DATE_MOST)
        } else {
            (i64::MIN, i64::MAX)
        };
        let before = match which {
            Sum::Years => self.years,
            Sum::Months => self.months,
            Sum::Days => self.days,
            Sum::Hours => self.hours,
            Sum::Minutes => self.minutes,
            Sum::Seconds => self.seconds,
            Sum::Microseconds => self.microseconds,
        };
        let sum: i128 = before as i128 + more as i128;
        let mut next = self;
        if floor as i128 <= sum && sum <= ceiling as i128 {
            let sum = sum as i64;
            match which {
                Sum::Years => next.years = sum,
                Sum::Months => next.months = sum,
                Sum::Days => next.days = sum,
                Sum::Hours => next.hours = sum,
                Sum::Minutes => next.minutes = sum,
                Sum::Seconds => next.seconds = sum,
                Sum::Microseconds => next.microseconds = sum,
            }
        } else {
            next.walk = Walk::Overflows(which);
        }
        next
    }

    fn walk_on(self, c: char) -> (r: Tally)
        requires
            self.number.fraction.wf(),
        ensures
            r == self.walked(c),
            r.number.fraction.wf(),
    {
        let mut next = self;
        if self.walk != Walk::Going || c == 'P' {
        } else if c == 'T' && self.in_date {
            next.in_date = false;
        } else {
            match designator(c, self.in_date) {
                Some((which, then, scale)) => {
                    if !self.number.is_counted() || (c == 'S' && self.in_date) {
                        next.walk = Walk::Answered;
                    } else {
                        let whole = self.number.whole_added(which.is_of_date());
                        let carry = self.number.carried(scale);
                        next.number = Number::begin();
                        next = next.credit(which, whole).credit(then, carry);
                    }
                },
                None => match self.number.meet(c) {
                    Some(number) => {
                        next.number = number;
                    },
                    None => {
                        next.walk = Walk::Answered;
                    },
                },
            }
        }
        next
    }

    fn step(self, c: char) -> (r: Tally)
        requires
            self.number.fraction.wf(),
        ensures
            r == self.after(c),
            r.number.fraction.wf(),
    {
        let mut next = self.walk_on(c);
        next.met = if self.met < 2 {
            self.met + 1
        } else {
            self.met
        };
        if c == 'P' {
            next.last_p_second = self.met == 1;
        }
        next
    }

    fn scan(text: &str) -> (r: Tally)
        ensures
            r == Tally::of(text@),
    {
        let mut tally = Tally::begin();
        let mut rest = text.chars();
        let ghost mut seen: int = 0;
        loop
            invariant
                0 <= seen <= text@.len(),
                rest.remaining() == text@.skip(seen),
                tally == Tally::of(text@.take(seen)),
                tally.number.fraction.wf(),
            ensures
                tally == Tally::of(text@),
            decreases text@.len() - seen,
        {
            match rest.next() {
                Some(c) => {
                    proof {
                        assert(text@.take(seen + 1).drop_last() == text@.take(seen));
                        assert(text@.skip(seen).drop_first() == text@.skip(seen + 1));
                        seen = seen + 1;
                    }
                    tally = tally.step(c);
                },
                None => {
                    proof {
                        assert(text@.take(seen) == text@);
                    }
                    break;
                },
            }
        }
        tally
    }
}

/// No addition that the parser makes on the text leaves its field: either the
/// parser answers before it walks, or its walk overflows no sum.
pub open spec fn sums_in_range(text: Seq<char>) -> bool {
    Tally::of(text).overflow() is None
}

/// The ISO 8601 text that `pg_interval` writes for the three fields.
pub uninterp spec fn iso_8601_text(months: i32, days: i32, microseconds: i64) -> Seq<char>;

/// What `pg_interval` makes of a text: the interval it reads, or its complaint.
pub uninterp spec fn iso_8601_reading(text: Seq<char>) -> Result<Interval, TextParseError>;

/// `pg_interval::Interval::to_iso_8601` on an interval of the three fields.
/// Trusted: the text depends on the fields alone, is never empty, and begins
/// with the designator `P`.  It holds each designator at most once, in the
/// order of the grammar, and a point only in the seconds, so that the parser
/// adds to each of its sums at most once and the text is safe to read back.
#[verifier::external_body]
fn write_iso_8601(months: i32, days: i32, microseconds: i64) -> (text: String)
    ensures
        text@ == iso_8601_text(months, days, microseconds),
        text@.len() > 0,
        text@[0] == 'P',
        sums_in_range(text@),
{
    pg_interval::Interval { months, days, microseconds }.to_iso_8601()
}

/// `pg_interval::Interval::from_iso`, with its interval and each kind of its
/// error carried over field by field.
/// Trusted: the outcome depends on the text alone.  The only way the parser
/// fails to return is an overflow in one of its seven `+=`.  [`Tally`] walks
/// the text as the parser does and holds the same sums, so a text on which it
/// overflows none is safe to hand over.
#[verifier::external_body]
fn read_iso_8601(text: &str) -> (r: Result<Interval, TextParseError>)
    requires
        sums_in_range(text@),
    ensures
        r == iso_8601_reading(text@),
{
    match pg_interval::Interval::from_iso(text) {
        Ok(i) => Ok(Interval { months: i.months, days: i.days, microseconds: i.microseconds }),
        Err(ParseError::ParseIntErr(e)) => Err(TextParseError::ParseInt(e)),
        Err(ParseError::ParseFloatErr(e)) => Err(TextParseError::ParseFloat(e)),
        Err(ParseError::InvalidYearMonth(said)) => Err(TextParseError::InvalidYearMonth(said)),
        Err(ParseError::InvalidTime(said)) => Err(TextParseError::InvalidTime(said)),
        Err(ParseError::InvalidInterval(said)) => Err(TextParseError::InvalidInterval(said)),
    }
}

/// What is said of a text that overflows the years, months or days.
pub const DATE_RANGE_MESSAGE: &'static str = "The years, months or days of the text overflow.";

/// What is said of a text that overflows the hours, minutes, seconds or
/// microseconds.
pub const TIME_RANGE_MESSAGE: &'static str =
    "The hours, minutes, seconds or microseconds of the text overflow.";

impl Interval {
    /// The ISO 8601 text of the interval, as `pg_interval` writes it.
    ///
    /// The three fields are handed over unchanged.  There is no failure, and
    /// [`Interval::deserialize`] hands every text written here to the parser.
    pub fn serialize(&self) -> (text: String)
        ensures
            text@ == iso_8601_text(self.months, self.days, self.microseconds),
            text@.len() > 0,
            text@[0] == 'P',
            sums_in_range(text@),
    {
        write_iso_8601(self.months, self.days, self.microseconds)
    }

    /// Reads an ISO 8601 duration.
    ///
    /// The text is handed to `pg_interval` and the answer is the parser's,
    /// kind and words intact.  The one exception is a text on which an
    /// addition of the parser leaves the field of its sum, where the parser
    /// has no answer: it stops the program or, built without overflow checks,
    /// reads a sum that has wrapped.  Such a text, and no other, is refused
    /// with [`TextParseError::Overflow`] and the first sum that it overflows.
    pub fn deserialize(text: &str) -> (r: Result<Interval, TextParseError>)
        ensures
            sums_in_range(text@) ==> r == iso_8601_reading(text@),
            !sums_in_range(text@) ==> r == Err::<Interval, _>(
                TextParseError::Overflow(Tally::of(text@).overflow()->Some_0),
            ),
    {
        let tally = Tally::scan(text);
        if tally.last_p_second {
            return read_iso_8601(text);
        }
        match tally.walk {
            Walk::Overflows(which) => Err(TextParseError::Overflow(which)),
            _ => read_iso_8601(text),
        }
    }
}

} // verus!
