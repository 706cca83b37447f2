//! What a decimal number is worth to the parser of `pg_interval`.
//!
//! The parser reads each number of a text as a `f64`, the nearest one, ties to
//! the even mantissa.  It adds the whole part of that `f64` to one sum, held to
//! 32 or to 64 bits, and carries the fraction to the next finer sum: the
//! `f64` nearest to the fraction times the scale, rounded to a whole number,
//! halves away from zero.
//!
//! This module works that out on the digits, in whole numbers.  A `f64` has 53
//! bits, so a number below 2^53 keeps `53 - n` bits of its fraction, where
//! `n` is the length of its whole part in bits.  Every bound between two
//! neighbouring `f64` is a decimal fraction of as many digits as it has bits
//! behind the point, so the first 81 digits of a fraction and the knowledge
//! whether any later digit differs from `0` decide every case that matters
//! here: a fraction that begins with 22 zero bits carries nothing at any
//! scale up to a million.
//!
//! The arithmetic is written so that no step can overflow on any value of its
//! type: where a step would, the value is held instead.  No number that the
//! walk of a text builds reaches such a step.
//!
//! [`weigh`] hands out the result for one number, so that it can be held
//! against the floating-point arithmetic of the machine.

use vstd::prelude::*;
use vstd::std_specs::iter::IteratorSpec;

verus! {

/// Ten to the power 27.  Three limbs of this size hold 81 decimal digits.
pub const LIMB: u128 = 1_000_000_000_000_000_000_000_000_000;

/// How many digits of a fraction are kept.
pub const KEPT: u8 = 81;

/// Two to the power 53: every whole number below it is a `f64`.
pub const EXACT_BELOW: u64 = 9_007_199_254_740_992;

/// Two to the power 63, the magnitude of the least 64-bit number.  A whole
/// part from here on is held to that number, whatever its digits.
pub const WHOLE_CAP: u64 = 0x8000_0000_0000_0000;

/// The largest number that the parser accepts before a designator.
pub const LARGEST: u64 = 2_147_483_647;

/// Two to the power `n`, for `n` up to 126, and held there beyond.
pub open spec fn two_to(n: nat) -> u128
    decreases n,
{
    if n == 0 {
        1
    } else {
        let half = two_to((n - 1) as nat);
        if half >= 0x4000_0000_0000_0000_0000_0000_0000_0000 {
            half
        } else {
            (2 * half) as u128
        }
    }
}

/// Ten to the power `n`, for `n` up to 27, and held there beyond.
pub open spec fn ten_to(n: nat) -> u128
    decreases n,
{
    if n == 0 {
        1
    } else {
        let tenth = ten_to((n - 1) as nat);
        if tenth > LIMB / 10 {
            tenth
        } else {
            (10 * tenth) as u128
        }
    }
}

/// How many bits it takes to write `x`: none for zero.
pub open spec fn bit_length(x: u128) -> u8
    decreases x,
{
    if x == 0 {
        0
    } else {
        let rest = bit_length(x / 2);
        if rest < 200 {
            (rest + 1) as u8
        } else {
            rest
        }
    }
}

/// `x` without its lowest `drop` bits, rounded to the nearest, ties to the
/// even; `more` says that something below the bits of `x` is still to be
/// counted, which breaks a tie upward.
pub open spec fn nearest_even(x: u128, drop: nat, more: bool) -> u128 {
    let unit = two_to(drop);
    let kept = x / unit;
    let rest = x % unit;
    let half = unit / 2;
    if drop > 0 && (rest > half || (rest == half && (more || kept % 2 == 1))) {
        (kept + 1) as u128
    } else {
        kept
    }
}

/// `x` times `y`, or the largest number where that is smaller.
pub open spec fn times(x: u128, y: u128) -> u128 {
    if x * y > u128::MAX {
        u128::MAX
    } else {
        (x * y) as u128
    }
}

fn power_of_two(n: u8) -> (r: u128)
    ensures
        r == two_to(n as nat),
    decreases n,
{
    if n == 0 {
        1
    } else {
        let half = power_of_two(n - 1);
        if half >= 0x4000_0000_0000_0000_0000_0000_0000_0000 {
            half
        } else {
            2 * half
        }
    }
}

fn power_of_ten(n: u8) -> (r: u128)
    ensures
        r == ten_to(n as nat),
        r <= LIMB,
    decreases n,
{
    if n == 0 {
        1
    } else {
        let tenth = power_of_ten(n - 1);
        if tenth > LIMB / 10 {
            tenth
        } else {
            10 * tenth
        }
    }
}

fn bits_of(x: u128) -> (r: u8)
    ensures
        r == bit_length(x),
    decreases x,
{
    if x == 0 {
        0
    } else {
        let rest = bits_of(x / 2);
        if rest < 200 {
            rest + 1
        } else {
            rest
        }
    }
}

fn round_even(x: u128, drop: u8, more: bool) -> (r: u128)
    ensures
        r == nearest_even(x, drop as nat, more),
{
    let unit = power_of_two(drop);
    assert(unit >= 1) by {
        lemma_two_to_positive(drop as nat);
    }
    let kept = x / unit;
    let rest = x % unit;
    let half = unit / 2;
    if drop > 0 && (rest > half || (rest == half && (more || kept % 2 == 1))) {
        proof {
            lemma_two_to_even(drop as nat);
            assert(x / unit <= x / 2) by (nonlinear_arith)
                requires
                    unit >= 2,
                    x >= 0,
            ;
        }
        kept + 1
    } else {
        kept
    }
}

fn multiply(x: u128, y: u128) -> (r: u128)
    ensures
        r == times(x, y),
{
    match x.checked_mul(y) {
        Some(product) => product,
        None => u128::MAX,
    }
}

/// A power of two is no zero.
pub proof fn lemma_two_to_positive(n: nat)
    ensures
        two_to(n) >= 1,
    decreases n,
{
    if n > 0 {
        lemma_two_to_positive((n - 1) as nat);
    }
}

/// A power of two above the first is at least two, so that dropping a bit or
/// more leaves room for rounding up.
pub proof fn lemma_two_to_even(n: nat)
    requires
        n > 0,
    ensures
        two_to(n) >= 2,
    decreases n,
{
    lemma_two_to_positive((n - 1) as nat);
    if n > 1 {
        lemma_two_to_even((n - 1) as nat);
    }
}

/// The digits behind the point: the first 81 of them, most significant first,
/// in three limbs of 27 digits, and whether any later digit differs from `0`.
#[derive(Debug, Clone, Copy, PartialEq, Eq, Structural)]
pub struct Fraction {
    pub high: u128,
    pub mid: u128,
    pub low: u128,
    /// How many digits the limbs hold.
    pub kept: u8,
    /// A digit other than `0` came after the digits kept.
    pub more: bool,
}

impl Fraction {
    /// No digit.
    pub open spec fn none() -> Fraction {
        Fraction { high: 0, mid: 0, low: 0, kept: 0, more: false }
    }

    /// Each limb is below `LIMB`.
    pub open spec fn wf(self) -> bool {
        self.high < LIMB && self.mid < LIMB && self.low < LIMB
    }

    /// A limb with `digit` set at the place that is free after `kept` digits.
    pub open spec fn placed(limb: u128, kept: u8, digit: u8) -> u128 {
        let sum = limb + digit * ten_to((26 - kept % 27) as nat);
        if sum < LIMB {
            sum as u128
        } else {
            limb
        }
    }

    /// With one more digit.
    pub open spec fn with_digit(self, digit: u8) -> Fraction {
        if self.kept >= KEPT {
            Fraction { more: self.more || digit != 0, ..self }
        } else if self.kept < 27 {
            Fraction {
                high: Fraction::placed(self.high, self.kept, digit),
                kept: (self.kept + 1) as u8,
                ..self
            }
        } else if self.kept < 54 {
            Fraction {
                mid: Fraction::placed(self.mid, self.kept, digit),
                kept: (self.kept + 1) as u8,
                ..self
            }
        } else {
            Fraction {
                low: Fraction::placed(self.low, self.kept, digit),
                kept: (self.kept + 1) as u8,
                ..self
            }
        }
    }

    /// Some digit differs from `0`.
    pub open spec fn nonzero(self) -> bool {
        self.high != 0 || self.mid != 0 || self.low != 0 || self.more
    }

    /// Twice the digits kept: what stays behind the point, and the bit that
    /// comes out in front of it.
    pub open spec fn doubled(self) -> (Fraction, u128) {
        let low = 2 * self.low;
        let mid = 2 * self.mid + low / (LIMB as int);
        let high = 2 * self.high + mid / (LIMB as int);
        (
            Fraction {
                high: (high % (LIMB as int)) as u128,
                mid: (mid % (LIMB as int)) as u128,
                low: (low % (LIMB as int)) as u128,
                ..self
            },
            (high / (LIMB as int)) as u128,
        )
    }

    /// The digits kept times `2^n`: what stays behind the point, and the whole
    /// number in front of it, which is the first `n` bits of the fraction.
    pub open spec fn shifted(self, n: nat) -> (Fraction, u128)
        decreases n,
    {
        if n == 0 {
            (self, 0)
        } else {
            let (before, bits) = self.shifted((n - 1) as nat);
            let (after, bit) = before.doubled();
            (
                after,
                if bits >= 0x4000_0000_0000_0000_0000_0000_0000_0000 {
                    bits
                } else {
                    (2 * bits + bit) as u128
                },
            )
        }
    }

    fn place(limb: u128, kept: u8, digit: u8) -> (r: u128)
        requires
            limb < LIMB,
            digit <= 9,
        ensures
            r == Fraction::placed(limb, kept, digit),
            r < LIMB,
    {
        let unit = power_of_ten(26 - kept % 27);
        assert(digit * unit <= 9 * LIMB) by (nonlinear_arith)
            requires
                digit <= 9,
                unit <= LIMB,
        ;
        let sum = limb + digit as u128 * unit;
        if sum < LIMB {
            sum
        } else {
            limb
        }
    }

    fn digit(self, digit: u8) -> (r: Fraction)
        requires
            self.wf(),
            digit <= 9,
        ensures
            r == self.with_digit(digit),
            r.wf(),
    {
        let mut next = self;
        if self.kept >= KEPT {
            next.more = self.more || digit != 0;
        } else if self.kept < 27 {
            next.high = Fraction::place(self.high, self.kept, digit);
            next.kept = self.kept + 1;
        } else if self.kept < 54 {
            next.mid = Fraction::place(self.mid, self.kept, digit);
            next.kept = self.kept + 1;
        } else {
            next.low = Fraction::place(self.low, self.kept, digit);
            next.kept = self.kept + 1;
        }
        next
    }

    fn is_nonzero(self) -> (r: bool)
        ensures
            r == self.nonzero(),
    {
        self.high != 0 || self.mid != 0 || self.low != 0 || self.more
    }

    fn double(self) -> (r: (Fraction, u128))
        requires
            self.wf(),
        ensures
            r == self.doubled(),
            r.0.wf(),
            r.1 <= 1,
    {
        let low = 2 * self.low;
        let mid = 2 * self.mid + low / LIMB;
        let high = 2 * self.high + mid / LIMB;
        let mut next = self;
        next.high = high % LIMB;
        next.mid = mid % LIMB;
        next.low = low % LIMB;
        (next, high / LIMB)
    }

    fn shift(self, n: u8) -> (r: (Fraction, u128))
        requires
            self.wf(),
        ensures
            r == self.shifted(n as nat),
            r.0.wf(),
        decreases n,
    {
        if n == 0 {
            (self, 0)
        } else {
            let (before, bits) = self.shift(n - 1);
            let (after, bit) = before.double();
            (
                after,
                if bits >= 0x4000_0000_0000_0000_0000_0000_0000_0000 {
                    bits
                } else {
                    2 * bits + bit
                },
            )
        }
    }
}

/// What has been met of the number that the parser is gathering.
#[derive(Debug, Clone, Copy, PartialEq, Eq, Structural)]
pub struct Number {
    /// A character of the number has been met.
    pub begun: bool,
    /// The number begins with `-`.
    pub negative: bool,
    /// A digit has been met.  Without one the number does not parse.
    pub digits: bool,
    /// A `.` has been met.
    pub point: bool,
    /// What the digits before the point spell, or `WHOLE_CAP` where that is
    /// smaller.
    pub whole: u64,
    /// The digits behind the point.
    pub fraction: Fraction,
}

/// The magnitude of a number once it is read as a `f64`: `whole` and
/// `part / 2^depth`, with `part` below `2^depth`.
#[derive(Debug, Clone, Copy, PartialEq, Eq, Structural)]
pub struct Worth {
    pub whole: u64,
    pub part: u64,
    pub depth: u8,
}

/// `x` as a `u64`, or the largest where `x` is larger.
pub open spec fn narrowed(x: u128) -> u64 {
    if x > u64::MAX {
        u64::MAX
    } else {
        x as u64
    }
}

fn narrow(x: u128) -> (r: u64)
    ensures
        r == narrowed(x),
{
    if x > u64::MAX as u128 {
        u64::MAX
    } else {
        x as u64
    }
}

/// `a - b`, or nothing where `b` is larger.
pub open spec fn less(a: u8, b: u8) -> u8 {
    if a >= b {
        (a - b) as u8
    } else {
        0
    }
}

fn minus(a: u8, b: u8) -> (r: u8)
    ensures
        r == less(a, b),
{
    if a >= b {
        a - b
    } else {
        0
    }
}

impl Worth {
    /// A whole number.
    pub open spec fn whole_number(whole: u128) -> Worth {
        Worth {
            whole: if whole >= WHOLE_CAP {
                WHOLE_CAP
            } else {
                whole as u64
            },
            part: 0,
            depth: 0,
        }
    }

    /// `whole` and `bits / 2^(depth + 1)`, brought to `depth` bits behind the
    /// point by rounding to the nearest, ties to the even.  `more` says that
    /// the fraction goes on behind `bits`; `odd` that the last bit in front of
    /// the point counts as the last bit kept, which it does where `depth` is
    /// 0.
    pub open spec fn rounded(whole: u64, bits: u128, depth: u8, more: bool) -> Worth {
        let part = bits / 2;
        let up = bits % 2 == 1 && (more || if depth == 0 {
            whole % 2 == 1
        } else {
            part % 2 == 1
        });
        let part = if up {
            (part + 1) as u128
        } else {
            part
        };
        if part >= two_to(depth as nat) {
            Worth::whole_number((whole + 1) as u128)
        } else {
            Worth { whole, part: narrowed(part), depth }
        }
    }

    fn of_whole(whole: u128) -> (r: Worth)
        ensures
            r == Worth::whole_number(whole),
    {
        Worth {
            whole: if whole >= WHOLE_CAP as u128 {
                WHOLE_CAP
            } else {
                whole as u64
            },
            part: 0,
            depth: 0,
        }
    }

    fn round(whole: u64, bits: u128, depth: u8, more: bool) -> (r: Worth)
        ensures
            r == Worth::rounded(whole, bits, depth, more),
    {
        let part = bits / 2;
        let up = bits % 2 == 1 && (more || if depth == 0 {
            whole % 2 == 1
        } else {
            part % 2 == 1
        });
        let part = if up {
            part + 1
        } else {
            part
        };
        if part >= power_of_two(depth) {
            Worth::of_whole(whole as u128 + 1)
        } else {
            Worth { whole, part: narrow(part), depth }
        }
    }
}

impl Number {
    /// Before its first character.
    pub open spec fn none() -> Number {
        Number {
            begun: false,
            negative: false,
            digits: false,
            point: false,
            whole: 0,
            fraction: Fraction::none(),
        }
    }

    /// The value of a decimal digit.
    pub open spec fn digit_value(c: char) -> u8
        recommends
            '0' <= c <= '9',
    {
        (c as u8 - '0' as u8) as u8
    }

    /// With one more character, as the parser gathers it: a digit anywhere,
    /// a `-` in the first place, a `.` in any later place.  `None` where the
    /// parser gathers the character no more, or, at a second `.`, gathers a
    /// number that cannot parse.
    pub open spec fn with_char(self, c: char) -> Option<Number> {
        if '0' <= c <= '9' {
            Some(self.with_digit(Number::digit_value(c)))
        } else if c == '-' && !self.begun {
            Some(Number { begun: true, negative: true, ..self })
        } else if c == '.' && self.begun && !self.point {
            Some(Number { point: true, ..self })
        } else {
            None
        }
    }

    /// The number that the characters of `text` make, if they make one.
    pub open spec fn gathered(text: Seq<char>) -> Option<Number>
        decreases text.len(),
    {
        if text.len() == 0 {
            Some(Number::none())
        } else {
            match Number::gathered(text.drop_last()) {
                Some(number) => number.with_char(text.last()),
                None => None,
            }
        }
    }

    /// The number parses and the parser adds it.
    pub open spec fn counts(self) -> bool {
        self.digits && !self.exceeds()
    }

    /// With one more digit.
    pub open spec fn with_digit(self, digit: u8) -> Number {
        if self.point {
            Number {
                begun: true,
                digits: true,
                fraction: self.fraction.with_digit(digit),
                ..self
            }
        } else {
            Number {
                begun: true,
                digits: true,
                whole: if self.whole * 10 + digit >= WHOLE_CAP {
                    WHOLE_CAP
                } else {
                    (self.whole * 10 + digit) as u64
                },
                ..self
            }
        }
    }

    /// The magnitude of the number as a `f64`.
    ///
    /// From 2^53 on the number is whole and its lowest bits are rounded
    /// away.  From 1 on it keeps as many bits of its fraction as its whole
    /// part leaves free of 53.  Below 1 it keeps 53 bits from the first that
    /// is set; where the first 22 bits are not set it counts as nothing, for
    /// it adds nothing and carries nothing.
    pub open spec fn worth(self) -> Worth {
        if self.whole >= WHOLE_CAP {
            Worth::whole_number(self.whole as u128)
        } else if self.whole >= EXACT_BELOW {
            let drop = less(bit_length(self.whole as u128), 53);
            Worth::whole_number(
                times(
                    nearest_even(self.whole as u128, drop as nat, self.fraction.nonzero()),
                    two_to(drop as nat),
                ),
            )
        } else if self.whole >= 1 {
            let depth = less(53, bit_length(self.whole as u128));
            let (rest, bits) = self.fraction.shifted((depth + 1) as nat);
            Worth::rounded(self.whole, bits, depth, rest.nonzero())
        } else {
            let (_, first) = self.fraction.shifted(22);
            if first == 0 {
                Worth::whole_number(0)
            } else {
                let depth = (less(22, bit_length(first)) + 53) as u8;
                let (rest, bits) = self.fraction.shifted((depth + 1) as nat);
                Worth::rounded(0, bits, depth, rest.nonzero())
            }
        }
    }

    /// The number is above the largest that the parser accepts, which answers
    /// with an error instead of adding it.  Only a number without `-` can be.
    pub open spec fn exceeds(self) -> bool {
        !self.negative && (self.worth().whole > LARGEST || (self.worth().whole == LARGEST
            && self.worth().part > 0))
    }

    /// What the whole part of the number adds to the sum of its designator,
    /// which holds 32 bits for years, months and days (`date`) and 64 bits
    /// otherwise.  A whole part beyond the sum lands on its edge.
    pub open spec fn whole_part(self, date: bool) -> i64 {
        let whole = self.worth().whole;
        if !self.negative {
            if whole < LARGEST {
                whole as i64
            } else {
                2_147_483_647
            }
        } else if date {
            if whole < 2_147_483_648 {
                (-(whole as i64)) as i64
            } else {
                -2_147_483_648i64
            }
        } else {
            if whole < WHOLE_CAP {
                (-(whole as i64)) as i64
            } else {
                i64::MIN
            }
        }
    }

    /// What the fraction of the number carries to the next finer sum, of
    /// which `scale` make one unit: the `f64` nearest to the fraction times
    /// the scale, rounded to a whole number, halves away from zero.  The
    /// scale is at most a million, and no carry is larger than its scale.
    pub open spec fn carry(self, scale: u32) -> i64 {
        let worth = self.worth();
        let product = times(worth.part as u128, scale as u128);
        let drop = less(bit_length(product), 53);
        let nearest = times(nearest_even(product, drop as nat, false), two_to(drop as nat));
        let unit = two_to(worth.depth as nat);
        let down = nearest / unit;
        let size = if nearest % unit >= unit / 2 && worth.depth > 0 {
            down + 1
        } else {
            down as int
        };
        if worth.part == 0 || size > 1_000_000 {
            0
        } else if self.negative {
            (-size) as i64
        } else {
            size as i64
        }
    }

    fn digit(self, digit: u8) -> (r: Number)
        requires
            self.fraction.wf(),
            digit <= 9,
        ensures
            r == self.with_digit(digit),
            r.fraction.wf(),
    {
        let mut next = self;
        next.begun = true;
        next.digits = true;
        if self.point {
            next.fraction = self.fraction.digit(digit);
        } else {
            let whole = self.whole as u128 * 10 + digit as u128;
            next.whole = if whole >= WHOLE_CAP as u128 {
                WHOLE_CAP
            } else {
                whole as u64
            };
        }
        next
    }

    pub(crate) fn begin() -> (r: Number)
        ensures
            r == Number::none(),
            r.fraction.wf(),
    {
        Number {
            begun: false,
            negative: false,
            digits: false,
            point: false,
            whole: 0,
            fraction: Fraction { high: 0, mid: 0, low: 0, kept: 0, more: false },
        }
    }

    pub(crate) fn meet(self, c: char) -> (r: Option<Number>)
        requires
            self.fraction.wf(),
        ensures
            r == self.with_char(c),
            r is Some ==> r->Some_0.fraction.wf(),
    {
        if '0' <= c && c <= '9' {
            Some(self.digit(c as u8 - '0' as u8))
        } else if c == '-' && !self.begun {
            let mut next = self;
            next.begun = true;
            next.negative = true;
            Some(next)
        } else if c == '.' && self.begun && !self.point {
            let mut next = self;
            next.point = true;
            Some(next)
        } else {
            None
        }
    }

    pub(crate) fn is_counted(self) -> (r: bool)
        requires
            self.fraction.wf(),
        ensures
            r == self.counts(),
    {
        self.digits && !self.too_large()
    }

    fn read(self) -> (r: Worth)
        requires
            self.fraction.wf(),
        ensures
            r == self.worth(),
    {
        if self.whole >= WHOLE_CAP {
            Worth::of_whole(self.whole as u128)
        } else if self.whole >= EXACT_BELOW {
            let drop = minus(bits_of(self.whole as u128), 53);
            Worth::of_whole(
                multiply(
                    round_even(self.whole as u128, drop, self.fraction.is_nonzero()),
                    power_of_two(drop),
                ),
            )
        } else if self.whole >= 1 {
            let depth = minus(53, bits_of(self.whole as u128));
            let (rest, bits) = self.fraction.shift(depth + 1);
            Worth::round(self.whole, bits, depth, rest.is_nonzero())
        } else {
            let (_, first) = self.fraction.shift(22);
            if first == 0 {
                Worth::of_whole(0)
            } else {
                let depth = minus(22, bits_of(first)) + 53;
                let (rest, bits) = self.fraction.shift(depth + 1);
                Worth::round(0, bits, depth, rest.is_nonzero())
            }
        }
    }

    fn too_large(self) -> (r: bool)
        requires
            self.fraction.wf(),
        ensures
            r == self.exceeds(),
    {
        if self.negative {
            return false;
        }
        let worth = self.read();
        worth.whole > LARGEST || (worth.whole == LARGEST && worth.part > 0)
    }

    pub(crate) fn whole_added(self, date: bool) -> (r: i64)
        requires
            self.fraction.wf(),
        ensures
            r == self.whole_part(date),
    {
        let whole = self.read().whole;
        if !self.negative {
            if whole < LARGEST {
                whole as i64
            } else {
                2_147_483_647
            }
        } else if date {
            if whole < 2_147_483_648 {
                -(whole as i64)
            } else {
                -2_147_483_648
            }
        } else {
            if whole < WHOLE_CAP {
                -(whole as i64)
            } else {
                i64::MIN
            }
        }
    }

    pub(crate) fn carried(self, scale: u32) -> (r: i64)
        requires
            self.fraction.wf(),
        ensures
            r == self.carry(scale),
    {
        let worth = self.read();
        let product = multiply(worth.part as u128, scale as u128);
        let drop = minus(bits_of(product), 53);
        let nearest = multiply(round_even(product, drop, false), power_of_two(drop));
        let unit = power_of_two(worth.depth);
        assert(unit >= 1) by {
            lemma_two_to_positive(worth.depth as nat);
        }
        let down = nearest / unit;
        let up = nearest % unit >= unit / 2 && worth.depth > 0;
        if worth.part == 0 || down >= 1_000_000 {
            return if worth.part == 0 || down > 1_000_000 || up {
                0
            } else if self.negative {
                -1_000_000
            } else {
                1_000_000
            };
        }
        let size = if up {
            down as i64 + 1
        } else {
            down as i64
        };
        if self.negative {
            -size
        } else {
            size
        }
    }
}

/// What the parser adds for a number that stands alone before a designator:
/// the whole part, as it lands in a sum of 32 bits (`date`) or of 64, and the
/// carry to the next finer sum, of which `scale` make one unit.  `None` where
/// the characters are no number to the parser, or one that it does not add.
pub open spec fn weighed(number: Seq<char>, date: bool, scale: u32) -> Option<(i64, i64)> {
    match Number::gathered(number) {
        Some(read) => if read.counts() {
            Some((read.whole_part(date), read.carry(scale)))
        } else {
            None
        },
        None => None,
    }
}

/// Works out what the parser adds for a number before a designator; see
/// [`weighed`].
pub fn weigh(number: &str, date: bool, scale: u32) -> (r: Option<(i64, i64)>)
    ensures
        r == weighed(number@, date, scale),
{
    let mut read = Some(Number::begin());
    let mut rest = number.chars();
    let ghost mut seen: int = 0;
    loop
        invariant
            0 <= seen <= number@.len(),
            rest.remaining() == number@.skip(seen),
            read == Number::gathered(number@.take(seen)),
            read is Some ==> read->Some_0.fraction.wf(),
        ensures
            read == Number::gathered(number@),
            read is Some ==> read->Some_0.fraction.wf(),
        decreases number@.len() - seen,
    {
        match rest.next() {
            Some(c) => {
                proof {
                    assert(number@.take(seen + 1).drop_last() == number@.take(seen));
                    assert(number@.skip(seen).drop_first() == number@.skip(seen + 1));
                    seen = seen + 1;
                }
                read = match read {
                    Some(so_far) => so_far.meet(c),
                    None => None,
                };
            },
            None => {
                proof {
                    assert(number@.take(seen) == number@);
                }
                break;
            },
        }
    }
    match read {
        Some(read) => if read.is_counted() {
            Some((read.whole_added(date), read.carried(scale)))
        } else {
            None
        },
        None => None,
    }
}

} // verus!
