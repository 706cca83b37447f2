use iso_interval::{ConversionError, Interval};
use std::time::Duration;

fn elapsed(microseconds: i64) -> Interval {
    Interval { months: 0, days: 0, microseconds }
}

#[test]
fn std_zero_duration_is_the_zero_interval() {
    assert_eq!(Interval::try_from(Duration::ZERO), Ok(elapsed(0)));
}

#[test]
fn std_duration_of_whole_microseconds_converts() {
    assert_eq!(Interval::try_from(Duration::from_micros(27_000)), Ok(elapsed(27_000)));
    assert_eq!(Interval::try_from(Duration::new(5_445, 0)), Ok(elapsed(5_445_000_000)));
}

#[test]
fn std_duration_with_nanoseconds_is_refused() {
    let one_microsecond_and_a_half = Duration::new(0, 1_500);
    assert_eq!(
        Interval::try_from(one_microsecond_and_a_half),
        Err(ConversionError::PrecisionLoss)
    );
    assert_eq!(Interval::try_from(Duration::from_nanos(1)), Err(ConversionError::PrecisionLoss));
    assert_eq!(Interval::try_from(Duration::from_nanos(999)), Err(ConversionError::PrecisionLoss));
}

#[test]
fn std_duration_of_a_multiple_of_a_thousand_nanoseconds_converts() {
    assert_eq!(Interval::try_from(Duration::from_nanos(1_000)), Ok(elapsed(1)));
    assert_eq!(Interval::try_from(Duration::from_nanos(2_000)), Ok(elapsed(2)));
    assert_eq!(Interval::try_from(Duration::from_nanos(1_000_000)), Ok(elapsed(1_000)));
}

#[test]
fn std_duration_at_the_edge_of_the_field() {
    let largest = Duration::from_micros(i64::MAX as u64);
    assert_eq!(Interval::try_from(largest), Ok(elapsed(i64::MAX)));
    let one_more = Duration::from_micros(i64::MAX as u64 + 1);
    assert_eq!(Interval::try_from(one_more), Err(ConversionError::Overflow));
}

#[test]
fn std_duration_beyond_the_field_overflows() {
    assert_eq!(Interval::try_from(Duration::from_secs(u64::MAX)), Err(ConversionError::Overflow));
}

#[test]
fn std_precision_is_checked_before_range() {
    assert_eq!(Interval::try_from(Duration::MAX), Err(ConversionError::PrecisionLoss));
}

#[test]
fn chrono_zero_duration_is_the_zero_interval() {
    assert_eq!(Interval::try_from(chrono::Duration::zero()), Ok(elapsed(0)));
}

#[test]
fn chrono_duration_of_whole_microseconds_converts() {
    assert_eq!(Interval::try_from(chrono::Duration::microseconds(27_000)), Ok(elapsed(27_000)));
    assert_eq!(Interval::try_from(chrono::Duration::nanoseconds(2_000)), Ok(elapsed(2)));
}

#[test]
fn chrono_negative_duration_keeps_its_sign() {
    let interval = Interval::try_from(chrono::Duration::microseconds(-90_061_000_000)).unwrap();
    assert_eq!(interval, elapsed(-90_061_000_000));
    let text = interval.serialize();
    assert_eq!(text, "PT-25H-1M-1S");
    assert_eq!(Interval::deserialize(&text), Ok(interval));
}

#[test]
fn chrono_duration_with_nanoseconds_is_refused() {
    assert_eq!(
        Interval::try_from(chrono::Duration::nanoseconds(1_500)),
        Err(ConversionError::PrecisionLoss)
    );
    assert_eq!(
        Interval::try_from(chrono::Duration::nanoseconds(-1)),
        Err(ConversionError::PrecisionLoss)
    );
}

#[test]
fn chrono_duration_whose_nanoseconds_overflow_is_refused() {
    assert_eq!(Interval::try_from(chrono::Duration::MAX), Err(ConversionError::Overflow));
    assert_eq!(Interval::try_from(chrono::Duration::MIN), Err(ConversionError::Overflow));
}

#[test]
fn chrono_nanosecond_overflow_counts_though_the_microseconds_fit() {
    let duration = chrono::Duration::microseconds(10_000_000_000_000_000);
    assert_eq!(duration.num_microseconds(), Some(10_000_000_000_000_000));
    assert_eq!(Interval::try_from(duration), Err(ConversionError::Overflow));
}

#[test]
fn chrono_overflow_is_checked_before_precision() {
    let duration = chrono::Duration::new(9_223_372_036_854_775, 1).unwrap();
    assert_eq!(duration.num_nanoseconds(), None);
    assert_eq!(duration.subsec_nanos(), 1);
    assert_eq!(Interval::try_from(duration), Err(ConversionError::Overflow));
}

#[test]
fn time_zero_duration_is_the_zero_interval() {
    assert_eq!(Interval::try_from(time::Duration::ZERO), Ok(elapsed(0)));
}

#[test]
fn time_duration_of_whole_microseconds_converts() {
    assert_eq!(Interval::try_from(time::Duration::microseconds(27_000)), Ok(elapsed(27_000)));
    assert_eq!(Interval::try_from(time::Duration::new(5_445, 0)), Ok(elapsed(5_445_000_000)));
}

#[test]
fn time_negative_duration_keeps_its_sign() {
    let interval = Interval::try_from(time::Duration::microseconds(-90_061_000_000)).unwrap();
    assert_eq!(interval, elapsed(-90_061_000_000));
    assert_eq!(interval.serialize(), "PT-25H-1M-1S");
}

#[test]
fn time_duration_with_nanoseconds_is_refused() {
    assert_eq!(
        Interval::try_from(time::Duration::nanoseconds(1_500)),
        Err(ConversionError::PrecisionLoss)
    );
    assert_eq!(
        Interval::try_from(time::Duration::nanoseconds(-1_500)),
        Err(ConversionError::PrecisionLoss)
    );
}

#[test]
fn time_duration_beyond_the_field_overflows() {
    assert_eq!(
        Interval::try_from(time::Duration::seconds(i64::MAX)),
        Err(ConversionError::Overflow)
    );
    assert_eq!(
        Interval::try_from(time::Duration::seconds(i64::MIN)),
        Err(ConversionError::Overflow)
    );
}

#[test]
fn time_precision_is_checked_before_range() {
    assert_eq!(Interval::try_from(time::Duration::MAX), Err(ConversionError::PrecisionLoss));
    assert_eq!(Interval::try_from(time::Duration::MIN), Err(ConversionError::PrecisionLoss));
}

#[test]
fn unsigned_counts_decide_precision_then_range() {
    assert_eq!(Interval::from_unsigned_counts(0, 0), Ok(elapsed(0)));
    assert_eq!(Interval::from_unsigned_counts(5_000, 5), Ok(elapsed(5)));
    assert_eq!(Interval::from_unsigned_counts(1_500, 1), Err(ConversionError::PrecisionLoss));
    assert_eq!(
        Interval::from_unsigned_counts(1, u128::MAX),
        Err(ConversionError::PrecisionLoss)
    );
    assert_eq!(
        Interval::from_unsigned_counts(0, i64::MAX as u128 + 1),
        Err(ConversionError::Overflow)
    );
    assert_eq!(Interval::from_unsigned_counts(0, i64::MAX as u128), Ok(elapsed(i64::MAX)));
}

#[test]
fn signed_counts_decide_precision_then_range() {
    assert_eq!(Interval::from_signed_counts(0, 0), Ok(elapsed(0)));
    assert_eq!(Interval::from_signed_counts(-5_000, -5), Ok(elapsed(-5)));
    assert_eq!(Interval::from_signed_counts(-1_500, -1), Err(ConversionError::PrecisionLoss));
    assert_eq!(Interval::from_signed_counts(-1, i128::MIN), Err(ConversionError::PrecisionLoss));
    assert_eq!(
        Interval::from_signed_counts(0, i64::MIN as i128 - 1),
        Err(ConversionError::Overflow)
    );
    assert_eq!(
        Interval::from_signed_counts(0, i64::MAX as i128 + 1),
        Err(ConversionError::Overflow)
    );
    assert_eq!(Interval::from_signed_counts(0, i64::MIN as i128), Ok(elapsed(i64::MIN)));
    assert_eq!(Interval::from_signed_counts(0, i64::MAX as i128), Ok(elapsed(i64::MAX)));
}

#[test]
fn checked_counts_decide_overflow_then_precision_then_overflow() {
    assert_eq!(Interval::from_checked_counts(Some(0), Some(0)), Ok(elapsed(0)));
    assert_eq!(Interval::from_checked_counts(Some(-3_000), Some(-3)), Ok(elapsed(-3)));
    assert_eq!(Interval::from_checked_counts(None, Some(5)), Err(ConversionError::Overflow));
    assert_eq!(Interval::from_checked_counts(None, None), Err(ConversionError::Overflow));
    assert_eq!(
        Interval::from_checked_counts(Some(1), None),
        Err(ConversionError::PrecisionLoss)
    );
    assert_eq!(
        Interval::from_checked_counts(Some(-1), Some(0)),
        Err(ConversionError::PrecisionLoss)
    );
    assert_eq!(Interval::from_checked_counts(Some(1_000), None), Err(ConversionError::Overflow));
}

#[test]
fn conversion_errors_have_their_sentences() {
    assert_eq!(
        ConversionError::PrecisionLoss.message(),
        "PostgreSQL `INTERVAL` does not support nanoseconds precision"
    );
    assert_eq!(
        ConversionError::Overflow.message(),
        "Overflow has occurred for PostgreSQL `INTERVAL`"
    );
}
