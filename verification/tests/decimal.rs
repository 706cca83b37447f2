use iso_interval::decimal::weigh;

fn by_the_float(number: &str, date: bool, scale: u32) -> Option<(i64, i64)> {
    if number.starts_with('.') {
        return None;
    }
    let value: f64 = number.parse().ok()?;
    if value > i32::MAX as f64 {
        return None;
    }
    let whole = if date { value.trunc() as i32 as i64 } else { value.trunc() as i64 };
    let carry =
        if value.fract() == 0.0 { 0 } else { (value.fract() * scale as f64).round() as i64 };
    Some((whole, carry))
}

fn agree(number: &str) {
    for scale in [12, 30, 24, 60, 1_000_000] {
        for date in [true, false] {
            assert_eq!(
                weigh(number, date, scale),
                by_the_float(number, date, scale),
                "{} at scale {}",
                number,
                scale
            );
        }
    }
}

struct Dice(u64);

impl Dice {
    fn roll(&mut self, sides: u64) -> u64 {
        self.0 = self.0.wrapping_mul(6364136223846793005).wrapping_add(1442695040888963407);
        (self.0 >> 33) % sides
    }

    fn digits(&mut self, count: u64) -> String {
        let mut text = String::new();
        let style = self.roll(6);
        for place in 0..count {
            let digit = match style {
                0 => 9,
                1 => 0,
                2 if place == 0 => 4,
                2 => 9,
                3 if place == 0 => 5,
                3 => 0,
                _ => self.roll(10),
            };
            text.push((b'0' + digit as u8) as char);
        }
        if style < 4 && count > 0 && self.roll(2) == 0 {
            text.pop();
            text.push((b'0' + self.roll(10) as u8) as char);
        }
        text
    }
}

#[test]
fn numbers_that_are_no_numbers_are_not_weighed() {
    for number in ["", "-", ".", "-.", "1.2.3", "1..", "1-", "--1", "1e5", "+1", "x", "1 "] {
        assert_eq!(weigh(number, true, 12), None);
        assert_eq!(weigh(number, false, 60), None);
    }
}

#[test]
fn plain_numbers_are_weighed_as_written() {
    assert_eq!(weigh("1", true, 12), Some((1, 0)));
    assert_eq!(weigh("-1", true, 12), Some((-1, 0)));
    assert_eq!(weigh("0.5", true, 12), Some((0, 6)));
    assert_eq!(weigh("-1.5", false, 60), Some((-1, -30)));
    assert_eq!(weigh("1.", true, 30), Some((1, 0)));
    assert_eq!(weigh("-.5", true, 30), Some((0, -15)));
    assert_eq!(weigh("45.5", false, 1_000_000), Some((45, 500_000)));
    assert_eq!(weigh("007", false, 60), Some((7, 0)));
}

#[test]
fn numbers_above_the_largest_are_not_added() {
    assert_eq!(weigh("2147483647", true, 12), Some((2_147_483_647, 0)));
    assert_eq!(weigh("2147483647.0000", true, 12), Some((2_147_483_647, 0)));
    assert_eq!(weigh("2147483647.5", true, 12), None);
    assert_eq!(weigh("2147483648", false, 60), None);
    assert_eq!(weigh("99999999999999999999999", false, 60), None);
}

#[test]
fn numbers_below_the_sum_land_on_its_edge() {
    assert_eq!(weigh("-2147483648", true, 12), Some((-2_147_483_648, 0)));
    assert_eq!(weigh("-2147483649", true, 12), Some((-2_147_483_648, 0)));
    assert_eq!(weigh("-2147483649", false, 60), Some((-2_147_483_649, 0)));
    assert_eq!(weigh("-9223372036854775808", false, 60), Some((i64::MIN, 0)));
    assert_eq!(weigh("-99999999999999999999999", false, 60), Some((i64::MIN, 0)));
    assert_eq!(weigh("-99999999999999999999999", true, 12), Some((-2_147_483_648, 0)));
}

#[test]
fn whole_numbers_beyond_53_bits_are_rounded() {
    assert_eq!(weigh("-9007199254740993", false, 60), Some((-9_007_199_254_740_992, 0)));
    assert_eq!(weigh("-9007199254740993.1", false, 60), Some((-9_007_199_254_740_994, 0)));
    assert_eq!(weigh("-9007199254740995", false, 60), Some((-9_007_199_254_740_996, 0)));
    for number in [
        "-9007199254740992",
        "-9007199254740994",
        "-18014398509481985",
        "-18014398509481986",
        "-18014398509481987",
        "-9223372036854775295",
        "-9223372036854775296",
        "-9223372036854775297",
        "-9223372036854775807",
        "-4611686018427387905",
        "-1000000000000000000",
        "-1000000000000000065.0000000000000000000000000000000000000001",
    ] {
        agree(number);
    }
}

#[test]
fn fractions_round_as_the_float_does() {
    for number in [
        "0.1",
        "0.3",
        "1.0416666666666667",
        "0.041666666666666664",
        "0.0416666666666666643537020320309",
        "0.49999999999999994",
        "0.49999999999999997",
        "0.5000005",
        "0.4999995",
        "0.99999999999999999999",
        "0.9999999999999999",
        "1.99999999999999988897769753748434595763683319091796875",
        "1.999999999999999888977697537484345957636833190917968750000000001",
        "1.99999999999999988897769753748434595763683319091796874999999999",
        "2147483646.9999999",
        "2147483646.99999999999",
        "123456789.123456789",
        "-0.0000001",
        "0.00000023841857910156",
        "0.000000238418579101562500000000000000000000000000000000000000000000000000000001",
        "0.0000005",
        "0.00000049999999999",
        "0.0000000000000000000000000000000000000000000000000000000000000000000000000000001",
        "-0.000000500000000000000000000000000000000000001",
        "4503599627370496.5",
        "4503599627370497.5",
        "4503599627370495.75",
        "-9007199254740991.5",
        "-9007199254740991.4999999",
    ] {
        agree(number);
    }
}

#[test]
fn numbers_by_the_thousand_agree_with_the_float() {
    let mut dice = Dice(20_261_029);
    for _ in 0..40_000 {
        let mut number = String::new();
        if dice.roll(2) == 0 {
            number.push('-');
        }
        let whole = dice.roll(22);
        number.push_str(&dice.digits(whole));
        if dice.roll(4) != 0 {
            number.push('.');
            let fraction = match dice.roll(4) {
                0 => dice.roll(8),
                1 => dice.roll(25),
                2 => dice.roll(60),
                _ => dice.roll(120),
            };
            number.push_str(&dice.digits(fraction));
        }
        agree(&number);
    }
}

#[test]
fn halves_at_every_scale_agree_with_the_float() {
    for scale in [12u64, 30, 24, 60, 1_000_000] {
        for numerator in [1u64, 3, 5, 7, 11, 13, 23, 59, 999_999, 1_999_999] {
            if numerator >= 2 * scale {
                continue;
            }
            let exact = format!("{:.60}", numerator as f64 / (2 * scale) as f64);
            agree(&exact);
            let half = numerator as f64 / (2 * scale) as f64;
            let below = format!("{:.60}", f64::from_bits(half.to_bits() - 1));
            agree(&below);
            let above = format!("{:.60}", f64::from_bits(half.to_bits() + 1));
            agree(&above);
            agree(&format!("7{}", &exact[1..]));
            agree(&format!("2147483646{}", &above[1..]));
            agree(&format!("-4503599627370495{}", &below[1..]));
        }
    }
}

/// The digits behind the point of `numerator / 2^bits`, all `bits` of them.
fn binary_fraction(numerator: u64, bits: usize) -> String {
    let mut digits: Vec<u8> = numerator.to_string().bytes().rev().map(|b| b - b'0').collect();
    for _ in 0..bits {
        let mut carry = 0;
        for digit in digits.iter_mut() {
            let product = *digit * 5 + carry;
            *digit = product % 10;
            carry = product / 10;
        }
        if carry > 0 {
            digits.push(carry);
        }
    }
    while digits.len() < bits {
        digits.push(0);
    }
    digits.iter().rev().map(|d| (b'0' + d) as char).collect()
}

fn agree_around(whole: &str, tie: &str) {
    let below = format!("{}4999", &tie[..tie.len() - 1]);
    for sign in ["", "-"] {
        agree(&format!("{}{}.{}", sign, whole, tie));
        agree(&format!("{}{}.{}0000", sign, whole, tie));
        agree(&format!("{}{}.{}0001", sign, whole, tie));
        agree(&format!("{}{}.{}", sign, whole, below));
    }
}

#[test]
fn ties_between_neighbouring_floats_agree_with_the_float() {
    let mut dice = Dice(53);
    for length in 1..=53u32 {
        for _ in 0..40 {
            let top = 1u64 << (length - 1);
            let whole = top | (dice.roll(1 << 31) << 22 | dice.roll(1 << 22)) & (top - 1);
            let kept = 53 - length;
            let part = (dice.roll(1 << 31) << 22 | dice.roll(1 << 22)) & ((1u64 << kept) - 1);
            let tie = binary_fraction(2 * part + 1, kept as usize + 1);
            agree_around(&whole.to_string(), &tie);
        }
    }
}

#[test]
fn ties_below_one_agree_with_the_float() {
    let mut dice = Dice(22);
    for zeros in 0..=30usize {
        for _ in 0..40 {
            let top = 1u64 << 52;
            let mantissa = top | (dice.roll(1 << 31) << 22 | dice.roll(1 << 22)) & (top - 1);
            let tie = binary_fraction(2 * mantissa + 1, zeros + 54);
            agree_around("0", &tie);
            agree_around("", &tie);
        }
    }
}

#[test]
fn ties_of_the_carry_agree_with_the_float() {
    for scale in [12u64, 30, 24, 60, 1_000_000] {
        for whole in ["0", "7", "2147483646", "4503599627370495"] {
            for numerator in (1..2 * scale).step_by(if scale > 60 { 99_991 } else { 2 }) {
                let half = numerator as f64 / (2 * scale) as f64;
                for bits in [half.to_bits() - 1, half.to_bits(), half.to_bits() + 1] {
                    let text = format!("{:.80}", f64::from_bits(bits));
                    agree(&format!("{}{}", whole, &text[1..]));
                    agree(&format!("-{}{}", whole, &text[1..]));
                }
            }
        }
    }
}

#[test]
fn ties_beyond_53_bits_agree_with_the_float() {
    let mut dice = Dice(63);
    for dropped in 1..=10u32 {
        for _ in 0..40 {
            let top = 1u64 << 52;
            let mantissa = top | (dice.roll(1 << 31) << 22 | dice.roll(1 << 22)) & (top - 1);
            let tie = (mantissa << dropped) | 1 << (dropped - 1);
            for whole in [tie - 1, tie, tie + 1] {
                agree(&format!("-{}", whole));
                agree(&format!("-{}.000", whole));
                agree(&format!("-{}.0000000000000000000000000000000000000000001", whole));
                agree(&format!("{}", whole));
            }
        }
    }
}
