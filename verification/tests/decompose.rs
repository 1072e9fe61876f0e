use duration_decompose::decompose::{
    decompose_magnitude_u128, decompose_magnitude_u64, div_rem_i128, div_rem_u128, div_rem_u64,
    Decomposition,
};
use duration_decompose::duration::Duration;
use duration_decompose::units::{
    NANOSECONDS_PER_DAY, NANOSECONDS_PER_HOUR, NANOSECONDS_PER_MICROSECOND,
    NANOSECONDS_PER_MILLISECOND, NANOSECONDS_PER_MINUTE, NANOSECONDS_PER_MONTH,
    NANOSECONDS_PER_SECOND, NANOSECONDS_PER_WEEK, NANOSECONDS_PER_YEAR,
};

/// The elapsed time of the worked example, from 2019-05-10T21:59:12 to
/// 2023-01-03T14:32:18: 115,230,786 whole seconds.
const WORKED_EXAMPLE_NANOSECONDS: i128 = 115_230_786_000_000_000;

fn reconstruct(d: &Decomposition) -> u128 {
    d.years * NANOSECONDS_PER_YEAR as u128
        + d.months as u128 * NANOSECONDS_PER_MONTH as u128
        + d.weeks as u128 * NANOSECONDS_PER_WEEK as u128
        + d.days as u128 * NANOSECONDS_PER_DAY as u128
        + d.hours as u128 * NANOSECONDS_PER_HOUR as u128
        + d.minutes as u128 * NANOSECONDS_PER_MINUTE as u128
        + d.seconds as u128 * NANOSECONDS_PER_SECOND as u128
        + d.milliseconds as u128 * NANOSECONDS_PER_MILLISECOND as u128
        + d.microseconds as u128 * NANOSECONDS_PER_MICROSECOND as u128
        + d.nanoseconds as u128
}

fn assert_well_formed(d: &Decomposition) {
    assert!(d.sign <= 1);
    assert!(d.months < 12);
    assert!(d.weeks < 5);
    assert!(d.days < 7);
    assert!(d.hours < 24);
    assert!(d.minutes < 60);
    assert!(d.seconds < 60);
    assert!(d.milliseconds < 1000);
    assert!(d.microseconds < 1000);
    assert!(d.nanoseconds < 1000);
}

#[test]
fn unit_table_values() {
    assert_eq!(NANOSECONDS_PER_MICROSECOND, 1_000);
    assert_eq!(NANOSECONDS_PER_MILLISECOND, 1_000_000);
    assert_eq!(NANOSECONDS_PER_SECOND, 1_000_000_000);
    assert_eq!(NANOSECONDS_PER_MINUTE, 60_000_000_000);
    assert_eq!(NANOSECONDS_PER_HOUR, 3_600_000_000_000);
    assert_eq!(NANOSECONDS_PER_DAY, 86_400_000_000_000);
    assert_eq!(NANOSECONDS_PER_WEEK, 604_800_000_000_000);
    assert_eq!(NANOSECONDS_PER_MONTH, 2_629_746_000_000_000);
    assert_eq!(NANOSECONDS_PER_YEAR, 31_556_952_000_000_000);
    assert_eq!(NANOSECONDS_PER_YEAR, 12 * NANOSECONDS_PER_MONTH);
}

#[test]
fn zero_duration() {
    let d = Duration::from_total_nanoseconds(0).decompose();
    assert_eq!(d.sign, 0);
    assert_eq!(d.years, 0);
    assert_eq!(d.months, 0);
    assert_eq!(d.weeks, 0);
    assert_eq!(d.days, 0);
    assert_eq!(d.hours, 0);
    assert_eq!(d.minutes, 0);
    assert_eq!(d.seconds, 0);
    assert_eq!(d.milliseconds, 0);
    assert_eq!(d.microseconds, 0);
    assert_eq!(d.nanoseconds, 0);
}

#[test]
fn worked_example() {
    let d = Duration::from_total_nanoseconds(WORKED_EXAMPLE_NANOSECONDS).decompose();
    assert_eq!(d.sign, 0);
    assert_eq!(d.years, 3);
    assert_eq!(d.months, 7);
    assert_eq!(d.weeks, 3);
    assert_eq!(d.days, 3);
    assert_eq!(d.hours, 21);
    assert_eq!(d.minutes, 41);
    assert_eq!(d.seconds, 48);
    assert_eq!(d.milliseconds, 0);
    assert_eq!(d.microseconds, 0);
    assert_eq!(d.nanoseconds, 0);
    assert_eq!(reconstruct(&d), WORKED_EXAMPLE_NANOSECONDS as u128);
}

#[test]
fn worked_example_negated_keeps_magnitudes() {
    let pos = Duration::from_total_nanoseconds(WORKED_EXAMPLE_NANOSECONDS).decompose();
    let neg = Duration::from_total_nanoseconds(-WORKED_EXAMPLE_NANOSECONDS).decompose();
    assert_eq!(neg.sign, 1);
    assert_eq!(Decomposition { sign: 0, ..neg }, pos);
}

#[test]
fn sign_indicator_and_signum() {
    let pos = Duration::from_total_nanoseconds(5);
    let zero = Duration::from_total_nanoseconds(0);
    let neg = Duration::from_total_nanoseconds(-5);
    assert_eq!(pos.decompose().sign, 0);
    assert_eq!(zero.decompose().sign, 0);
    assert_eq!(neg.decompose().sign, 1);
    assert_eq!(pos.signum(), 1);
    assert_eq!(zero.signum(), 0);
    assert_eq!(neg.signum(), -1);
}

#[test]
fn mid_size_value_hits_every_unit() {
    let d = Duration::from_total_nanoseconds(123_456_789_012_345_678).decompose();
    assert_eq!(d.sign, 0);
    assert_eq!(d.years, 3);
    assert_eq!(d.months, 10);
    assert_eq!(d.weeks, 4);
    assert_eq!(d.days, 0);
    assert_eq!(d.hours, 19);
    assert_eq!(d.minutes, 14);
    assert_eq!(d.seconds, 33);
    assert_eq!(d.milliseconds, 12);
    assert_eq!(d.microseconds, 345);
    assert_eq!(d.nanoseconds, 678);
    assert_eq!(reconstruct(&d), 123_456_789_012_345_678);
    assert_well_formed(&d);
}

#[test]
fn large_magnitude_uses_exact_wide_arithmetic() {
    // Ten thousand billion billion nanoseconds: far beyond the signed
    // 64-bit range, so only the wide path can decompose it.
    let total: i128 = 10_000_000_000_000_000_000_000;
    assert!(total > i64::MAX as i128);
    let dur = Duration::from_total_nanoseconds(total);
    assert!(dur.try_truncated_nanoseconds().is_none());
    let d = dur.decompose();
    assert_eq!(d.sign, 0);
    assert_eq!(d.years, 316_887);
    assert_eq!(d.months, 4);
    assert_eq!(d.weeks, 2);
    assert_eq!(d.days, 4);
    assert_eq!(d.hours, 21);
    assert_eq!(d.minutes, 29);
    assert_eq!(d.seconds, 52);
    assert_eq!(d.milliseconds, 0);
    assert_eq!(d.microseconds, 0);
    assert_eq!(d.nanoseconds, 0);
    assert_eq!(reconstruct(&d), total as u128);

    let negated = Duration::from_total_nanoseconds(-total).decompose();
    assert_eq!(negated.sign, 1);
    assert_eq!(Decomposition { sign: 0, ..negated }, d);
}

#[test]
fn fast_and_wide_paths_agree() {
    let magnitudes: [u64; 7] = [
        0,
        1,
        999,
        1_000_000_007,
        WORKED_EXAMPLE_NANOSECONDS as u64,
        i64::MAX as u64,
        u64::MAX,
    ];
    for &mag in magnitudes.iter() {
        let narrow = decompose_magnitude_u64(0, mag);
        let wide = decompose_magnitude_u128(0, mag as u128);
        assert_eq!(narrow, wide);
        assert_eq!(reconstruct(&narrow), mag as u128);
        assert_well_formed(&narrow);
    }
}

#[test]
fn remainders_stay_below_their_divisors() {
    let samples: [i128; 6] = [
        1,
        -1,
        NANOSECONDS_PER_YEAR as i128 - 1,
        NANOSECONDS_PER_YEAR as i128 + 1,
        i64::MAX as i128,
        i64::MAX as i128 + 1,
    ];
    for &total in samples.iter() {
        let d = Duration::from_total_nanoseconds(total).decompose();
        assert_well_formed(&d);
        let mag = total.unsigned_abs();
        assert_eq!(reconstruct(&d), mag);
    }
}

#[test]
fn truncation_probe_matches_the_signed_64_bit_range() {
    assert_eq!(
        Duration::from_total_nanoseconds(i64::MAX as i128).try_truncated_nanoseconds(),
        Some(i64::MAX)
    );
    assert_eq!(
        Duration::from_total_nanoseconds(i64::MIN as i128).try_truncated_nanoseconds(),
        Some(i64::MIN)
    );
    assert!(Duration::from_total_nanoseconds(i64::MAX as i128 + 1)
        .try_truncated_nanoseconds()
        .is_none());
    assert!(Duration::from_total_nanoseconds(i64::MIN as i128 - 1)
        .try_truncated_nanoseconds()
        .is_none());
    assert_eq!(
        Duration::from_total_nanoseconds(-42).total_nanoseconds(),
        -42
    );
}

#[test]
fn div_rem_is_euclidean() {
    assert_eq!(div_rem_i128(7, 2), (3, 1));
    assert_eq!(div_rem_i128(-7, 2), (-4, 1));
    assert_eq!(div_rem_i128(-6, 3), (-2, 0));
    assert_eq!(div_rem_i128(0, 5), (0, 0));
    assert_eq!(div_rem_i128(i128::MIN, 1), (i128::MIN, 0));
    assert_eq!(div_rem_u64(7, 2), (3, 1));
    assert_eq!(div_rem_u128(u128::MAX, 1), (u128::MAX, 0));
}

#[test]
fn matches_timestamp_difference_from_hifitime() {
    let start = hifitime::Epoch::from_gregorian_utc_hms(2019, 5, 10, 21, 59, 12);
    let end = hifitime::Epoch::from_gregorian_utc_hms(2023, 1, 3, 14, 32, 18);
    let elapsed = end - start;
    assert_eq!(elapsed.total_nanoseconds(), WORKED_EXAMPLE_NANOSECONDS);
    let d = Duration::from_total_nanoseconds(elapsed.total_nanoseconds()).decompose();
    assert_eq!(d.sign, 0);
    assert_eq!(d.years, 3);
    assert_eq!(d.months, 7);
    assert_eq!(d.weeks, 3);
    assert_eq!(d.days, 3);
    assert_eq!(d.hours, 21);
    assert_eq!(d.minutes, 41);
    assert_eq!(d.seconds, 48);
    assert_eq!(d.milliseconds, 0);
    assert_eq!(d.microseconds, 0);
    assert_eq!(d.nanoseconds, 0);
}

#[test]
fn matches_timestamp_difference_from_chrono() {
    let start = chrono::NaiveDate::from_ymd_opt(2019, 5, 10)
        .unwrap()
        .and_hms_opt(21, 59, 12)
        .unwrap();
    let end = chrono::NaiveDate::from_ymd_opt(2023, 1, 3)
        .unwrap()
        .and_hms_opt(14, 32, 18)
        .unwrap();
    let elapsed = end - start;
    assert_eq!(
        elapsed.num_nanoseconds().unwrap() as i128,
        WORKED_EXAMPLE_NANOSECONDS
    );
}
