//! The duration-decomposition algorithm: a non-negative nanosecond magnitude
//! is broken into descending calendar-like units by a chain of Euclidean
//! divisions, each step consuming the remainder of the previous one.
//!
//! Two executable strategies share one specification: a narrow path on
//! 64-bit arithmetic for magnitudes that fit a 64-bit nanosecond count, and a
//! wide path on 128-bit arithmetic for everything else. Both are exact, and
//! both are pinned to the same spec-level division chain, so they cannot
//! disagree on any shared input.

use vstd::prelude::*;
use vstd::arithmetic::div_mod::{
    lemma_div_is_ordered, lemma_div_nonincreasing, lemma_div_of0, lemma_div_pos_is_pos,
    lemma_fundamental_div_mod, lemma_mod_division_less_than_divisor, lemma_multiply_divide_lt,
};
use vstd::arithmetic::mul::{
    lemma_mul_inequality, lemma_mul_is_distributive_sub, lemma_mul_is_distributive_sub_other_way,
};
use crate::units::{
    NANOSECONDS_PER_DAY, NANOSECONDS_PER_HOUR, NANOSECONDS_PER_MICROSECOND,
    NANOSECONDS_PER_MILLISECOND, NANOSECONDS_PER_MINUTE, NANOSECONDS_PER_MONTH,
    NANOSECONDS_PER_SECOND, NANOSECONDS_PER_WEEK, NANOSECONDS_PER_YEAR,
};

verus! {

// The specification of the division chain. Each `*_part` function is the
// whole number of that unit contained in what the coarser units left behind,
// and each `rem_after_*` function is what it passes on to the next, finer,
// step. All arithmetic is Euclidean, over mathematical integers.

pub open spec fn years_part(mag: int) -> int {
    mag / (NANOSECONDS_PER_YEAR as int)
}

pub open spec fn rem_after_years(mag: int) -> int {
    mag % (NANOSECONDS_PER_YEAR as int)
}

pub open spec fn months_part(mag: int) -> int {
    rem_after_years(mag) / (NANOSECONDS_PER_MONTH as int)
}

pub open spec fn rem_after_months(mag: int) -> int {
    rem_after_years(mag) % (NANOSECONDS_PER_MONTH as int)
}

pub open spec fn weeks_part(mag: int) -> int {
    rem_after_months(mag) / (NANOSECONDS_PER_WEEK as int)
}

pub open spec fn rem_after_weeks(mag: int) -> int {
    rem_after_months(mag) % (NANOSECONDS_PER_WEEK as int)
}

pub open spec fn days_part(mag: int) -> int {
    rem_after_weeks(mag) / (NANOSECONDS_PER_DAY as int)
}

pub open spec fn rem_after_days(mag: int) -> int {
    rem_after_weeks(mag) % (NANOSECONDS_PER_DAY as int)
}

pub open spec fn hours_part(mag: int) -> int {
    rem_after_days(mag) / (NANOSECONDS_PER_HOUR as int)
}

pub open spec fn rem_after_hours(mag: int) -> int {
    rem_after_days(mag) % (NANOSECONDS_PER_HOUR as int)
}

pub open spec fn minutes_part(mag: int) -> int {
    rem_after_hours(mag) / (NANOSECONDS_PER_MINUTE as int)
}

pub open spec fn rem_after_minutes(mag: int) -> int {
    rem_after_hours(mag) % (NANOSECONDS_PER_MINUTE as int)
}

pub open spec fn seconds_part(mag: int) -> int {
    rem_after_minutes(mag) / (NANOSECONDS_PER_SECOND as int)
}

pub open spec fn rem_after_seconds(mag: int) -> int {
    rem_after_minutes(mag) % (NANOSECONDS_PER_SECOND as int)
}

pub open spec fn milliseconds_part(mag: int) -> int {
    rem_after_seconds(mag) / (NANOSECONDS_PER_MILLISECOND as int)
}

pub open spec fn rem_after_milliseconds(mag: int) -> int {
    rem_after_seconds(mag) % (NANOSECONDS_PER_MILLISECOND as int)
}

pub open spec fn microseconds_part(mag: int) -> int {
    rem_after_milliseconds(mag) / (NANOSECONDS_PER_MICROSECOND as int)
}

/// The leftover nanoseconds: the remainder of the final (microsecond) step.
pub open spec fn nanoseconds_part(mag: int) -> int {
    rem_after_milliseconds(mag) % (NANOSECONDS_PER_MICROSECOND as int)
}

/// The decomposition of a duration: a sign indicator (`0` for zero or
/// positive, `1` for negative) and nine non-negative unit magnitudes in
/// descending unit order, ending with the nanosecond remainder.
#[derive(Clone, Copy, PartialEq, Eq, Structural, Debug)]
pub struct Decomposition {
    pub sign: u8,
    pub years: u128,
    pub months: u64,
    pub weeks: u64,
    pub days: u64,
    pub hours: u64,
    pub minutes: u64,
    pub seconds: u64,
    pub milliseconds: u64,
    pub microseconds: u64,
    pub nanoseconds: u64,
}

/// Every unit magnitude of `d` is the one the division chain assigns to the
/// magnitude `mag`.
pub open spec fn magnitudes_match(d: Decomposition, mag: int) -> bool {
    &&& d.years == years_part(mag)
    &&& d.months == months_part(mag)
    &&& d.weeks == weeks_part(mag)
    &&& d.days == days_part(mag)
    &&& d.hours == hours_part(mag)
    &&& d.minutes == minutes_part(mag)
    &&& d.seconds == seconds_part(mag)
    &&& d.milliseconds == milliseconds_part(mag)
    &&& d.microseconds == microseconds_part(mag)
    &&& d.nanoseconds == nanoseconds_part(mag)
}

impl Decomposition {
    /// Well-formedness: the sign is a 0/1 indicator and every field below
    /// the year is a proper remainder digit, strictly smaller than one unit
    /// of the next coarser kind.
    pub open spec fn well_formed(self) -> bool {
        &&& self.sign <= 1
        &&& self.months < 12
        &&& self.weeks < 5
        &&& self.days < 7
        &&& self.hours < 24
        &&& self.minutes < 60
        &&& self.seconds < 60
        &&& self.milliseconds < 1000
        &&& self.microseconds < 1000
        &&& self.nanoseconds < 1000
    }
}

/// Euclidean quotient and remainder in one call, on 64-bit operands.
pub fn div_rem_u64(me: u64, rhs: u64) -> (r: (u64, u64))
    requires
        rhs > 0,
    ensures
        r.0 == me as int / rhs as int,
        r.1 == me as int % rhs as int,
{
    (me / rhs, me % rhs)
}

/// Euclidean quotient and remainder in one call, on 128-bit operands.
pub fn div_rem_u128(me: u128, rhs: u128) -> (r: (u128, u128))
    requires
        rhs > 0,
    ensures
        r.0 == me as int / rhs as int,
        r.1 == me as int % rhs as int,
{
    (me / rhs, me % rhs)
}

/// A Euclidean quotient of a signed 128-bit value by a positive divisor
/// stays inside the signed 128-bit range, and the remainder is a
/// non-negative value below the divisor.
proof fn lemma_signed_quotient_in_range(me: int, rhs: int)
    requires
        rhs > 0,
        i128::MIN <= me <= i128::MAX,
    ensures
        i128::MIN <= me / rhs <= i128::MAX,
        0 <= me % rhs < rhs,
{
    lemma_mod_division_less_than_divisor(me, rhs);
    lemma_fundamental_div_mod(me, rhs);
    let q = me / rhs;
    let r = me % rhs;
    if me >= 0 {
        lemma_div_pos_is_pos(me, rhs);
        lemma_div_nonincreasing(me, rhs);
    } else {
        lemma_div_is_ordered(me, 0, rhs);
        lemma_div_of0(rhs);
        if q < me {
            // If the quotient lay below `me`, then `rhs * q` would fall
            // below `me - rhs`, yet the fundamental identity keeps it at
            // `me - r` with `r < rhs`.
            lemma_mul_inequality(q, me - 1, rhs);
            assert(q * rhs <= (me - 1) * rhs);
            lemma_mul_is_distributive_sub_other_way(rhs, me, 1);
            assert((me - 1) * rhs == me * rhs - 1 * rhs);
            lemma_mul_inequality(me, 0, rhs - 1);
            assert(me * (rhs - 1) <= 0 * (rhs - 1));
            lemma_mul_is_distributive_sub(me, rhs, 1);
            assert(me * (rhs - 1) == me * rhs - me * 1);
            assert(me * rhs <= me);
            assert(q * rhs <= me - rhs);
            assert(rhs * q == me - r);
            assert(q * rhs == rhs * q) by {
                vstd::arithmetic::mul::lemma_mul_is_commutative(q, rhs);
            }
            assert(me - r <= me - rhs);
            assert(false);
        }
    }
}

/// Euclidean quotient and remainder in one call, on signed 128-bit operands:
/// for a positive divisor the remainder is non-negative and the quotient
/// rounds toward negative infinity.
pub fn div_rem_i128(me: i128, rhs: i128) -> (r: (i128, i128))
    requires
        rhs > 0,
    ensures
        r.0 == me as int / rhs as int,
        r.1 == me as int % rhs as int,
{
    proof {
        lemma_signed_quotient_in_range(me as int, rhs as int);
    }
    (me.checked_div_euclid(rhs).unwrap(), me.checked_rem_euclid(rhs).unwrap())
}

/// Remainder-bound law: at every step of the chain the remainder handed to
/// the next (finer) unit is non-negative and strictly less than the divisor
/// just applied, so no step ever sees more than one whole unit of the step
/// before it.
pub proof fn lemma_remainder_bounds(mag: int)
    ensures
        0 <= rem_after_years(mag) < NANOSECONDS_PER_YEAR,
        0 <= rem_after_months(mag) < NANOSECONDS_PER_MONTH,
        0 <= rem_after_weeks(mag) < NANOSECONDS_PER_WEEK,
        0 <= rem_after_days(mag) < NANOSECONDS_PER_DAY,
        0 <= rem_after_hours(mag) < NANOSECONDS_PER_HOUR,
        0 <= rem_after_minutes(mag) < NANOSECONDS_PER_MINUTE,
        0 <= rem_after_seconds(mag) < NANOSECONDS_PER_SECOND,
        0 <= rem_after_milliseconds(mag) < NANOSECONDS_PER_MILLISECOND,
        0 <= nanoseconds_part(mag) < NANOSECONDS_PER_MICROSECOND,
{
    lemma_mod_division_less_than_divisor(mag, NANOSECONDS_PER_YEAR as int);
    lemma_mod_division_less_than_divisor(rem_after_years(mag), NANOSECONDS_PER_MONTH as int);
    lemma_mod_division_less_than_divisor(rem_after_months(mag), NANOSECONDS_PER_WEEK as int);
    lemma_mod_division_less_than_divisor(rem_after_weeks(mag), NANOSECONDS_PER_DAY as int);
    lemma_mod_division_less_than_divisor(rem_after_days(mag), NANOSECONDS_PER_HOUR as int);
    lemma_mod_division_less_than_divisor(rem_after_hours(mag), NANOSECONDS_PER_MINUTE as int);
    lemma_mod_division_less_than_divisor(rem_after_minutes(mag), NANOSECONDS_PER_SECOND as int);
    lemma_mod_division_less_than_divisor(
        rem_after_seconds(mag),
        NANOSECONDS_PER_MILLISECOND as int,
    );
    lemma_mod_division_less_than_divisor(
        rem_after_milliseconds(mag),
        NANOSECONDS_PER_MICROSECOND as int,
    );
}

/// Every unit magnitude below the year is bounded by its place in the unit
/// table: at most eleven months fit in a mean year, at most four whole weeks
/// in a mean month, and so on down to the nanosecond remainder.
pub proof fn lemma_unit_bounds(mag: int)
    requires
        mag >= 0,
    ensures
        0 <= years_part(mag),
        0 <= months_part(mag) < 12,
        0 <= weeks_part(mag) < 5,
        0 <= days_part(mag) < 7,
        0 <= hours_part(mag) < 24,
        0 <= minutes_part(mag) < 60,
        0 <= seconds_part(mag) < 60,
        0 <= milliseconds_part(mag) < 1000,
        0 <= microseconds_part(mag) < 1000,
        0 <= nanoseconds_part(mag) < 1000,
{
    crate::units::lemma_year_is_twelve_months();
    lemma_remainder_bounds(mag);
    lemma_div_pos_is_pos(mag, NANOSECONDS_PER_YEAR as int);
    lemma_div_pos_is_pos(rem_after_years(mag), NANOSECONDS_PER_MONTH as int);
    lemma_div_pos_is_pos(rem_after_months(mag), NANOSECONDS_PER_WEEK as int);
    lemma_div_pos_is_pos(rem_after_weeks(mag), NANOSECONDS_PER_DAY as int);
    lemma_div_pos_is_pos(rem_after_days(mag), NANOSECONDS_PER_HOUR as int);
    lemma_div_pos_is_pos(rem_after_hours(mag), NANOSECONDS_PER_MINUTE as int);
    lemma_div_pos_is_pos(rem_after_minutes(mag), NANOSECONDS_PER_SECOND as int);
    lemma_div_pos_is_pos(rem_after_seconds(mag), NANOSECONDS_PER_MILLISECOND as int);
    lemma_div_pos_is_pos(rem_after_milliseconds(mag), NANOSECONDS_PER_MICROSECOND as int);
    lemma_multiply_divide_lt(
        rem_after_years(mag),
        NANOSECONDS_PER_MONTH as int,
        12,
    );
    lemma_multiply_divide_lt(
        rem_after_months(mag),
        NANOSECONDS_PER_WEEK as int,
        5,
    );
    lemma_multiply_divide_lt(
        rem_after_weeks(mag),
        NANOSECONDS_PER_DAY as int,
        7,
    );
    lemma_multiply_divide_lt(
        rem_after_days(mag),
        NANOSECONDS_PER_HOUR as int,
        24,
    );
    lemma_multiply_divide_lt(
        rem_after_hours(mag),
        NANOSECONDS_PER_MINUTE as int,
        60,
    );
    lemma_multiply_divide_lt(
        rem_after_minutes(mag),
        NANOSECONDS_PER_SECOND as int,
        60,
    );
    lemma_multiply_divide_lt(
        rem_after_seconds(mag),
        NANOSECONDS_PER_MILLISECOND as int,
        1000,
    );
    lemma_multiply_divide_lt(
        rem_after_milliseconds(mag),
        NANOSECONDS_PER_MICROSECOND as int,
        1000,
    );
}

/// Reconstruction law: weighting each unit magnitude by its nanosecond
/// conversion factor and adding the nanosecond remainder gives back the
/// decomposed magnitude exactly.
pub proof fn lemma_reconstruction(mag: int)
    requires
        mag >= 0,
    ensures
        years_part(mag) * NANOSECONDS_PER_YEAR + months_part(mag) * NANOSECONDS_PER_MONTH
            + weeks_part(mag) * NANOSECONDS_PER_WEEK + days_part(mag) * NANOSECONDS_PER_DAY
            + hours_part(mag) * NANOSECONDS_PER_HOUR + minutes_part(mag) * NANOSECONDS_PER_MINUTE
            + seconds_part(mag) * NANOSECONDS_PER_SECOND
            + milliseconds_part(mag) * NANOSECONDS_PER_MILLISECOND
            + microseconds_part(mag) * NANOSECONDS_PER_MICROSECOND + nanoseconds_part(mag) == mag,
{
    lemma_fundamental_div_mod(mag, NANOSECONDS_PER_YEAR as int);
    lemma_fundamental_div_mod(rem_after_years(mag), NANOSECONDS_PER_MONTH as int);
    lemma_fundamental_div_mod(rem_after_months(mag), NANOSECONDS_PER_WEEK as int);
    lemma_fundamental_div_mod(rem_after_weeks(mag), NANOSECONDS_PER_DAY as int);
    lemma_fundamental_div_mod(rem_after_days(mag), NANOSECONDS_PER_HOUR as int);
    lemma_fundamental_div_mod(rem_after_hours(mag), NANOSECONDS_PER_MINUTE as int);
    lemma_fundamental_div_mod(rem_after_minutes(mag), NANOSECONDS_PER_SECOND as int);
    lemma_fundamental_div_mod(rem_after_seconds(mag), NANOSECONDS_PER_MILLISECOND as int);
    lemma_fundamental_div_mod(rem_after_milliseconds(mag), NANOSECONDS_PER_MICROSECOND as int);
}

/// Path-consistency law: the division chain determines every field, so two
/// decompositions of the same magnitude that carry the same sign are equal,
/// whichever arithmetic path produced each of them.
pub proof fn lemma_path_consistency(a: Decomposition, b: Decomposition, mag: int)
    requires
        magnitudes_match(a, mag),
        magnitudes_match(b, mag),
        a.sign == b.sign,
    ensures
        a == b,
{
}

/// The narrow (64-bit) decomposition path, for magnitudes that fit a 64-bit
/// nanosecond count.
pub fn decompose_magnitude_u64(sign: u8, mag: u64) -> (r: Decomposition)
    requires
        sign <= 1,
    ensures
        r.sign == sign,
        magnitudes_match(r, mag as int),
        r.well_formed(),
{
    proof {
        lemma_unit_bounds(mag as int);
    }
    let (years, ns_left) = div_rem_u64(mag, NANOSECONDS_PER_YEAR);
    let (months, ns_left) = div_rem_u64(ns_left, NANOSECONDS_PER_MONTH);
    let (weeks, ns_left) = div_rem_u64(ns_left, NANOSECONDS_PER_WEEK);
    let (days, ns_left) = div_rem_u64(ns_left, NANOSECONDS_PER_DAY);
    let (hours, ns_left) = div_rem_u64(ns_left, NANOSECONDS_PER_HOUR);
    let (minutes, ns_left) = div_rem_u64(ns_left, NANOSECONDS_PER_MINUTE);
    let (seconds, ns_left) = div_rem_u64(ns_left, NANOSECONDS_PER_SECOND);
    let (milliseconds, ns_left) = div_rem_u64(ns_left, NANOSECONDS_PER_MILLISECOND);
    let (microseconds, ns_left) = div_rem_u64(ns_left, NANOSECONDS_PER_MICROSECOND);
    Decomposition {
        sign,
        years: years as u128,
        months,
        weeks,
        days,
        hours,
        minutes,
        seconds,
        milliseconds,
        microseconds,
        nanoseconds: ns_left,
    }
}

/// The wide (128-bit) decomposition path, for magnitudes beyond the 64-bit
/// range: the identical division sequence, in exact 128-bit arithmetic.
pub fn decompose_magnitude_u128(sign: u8, mag: u128) -> (r: Decomposition)
    requires
        sign <= 1,
    ensures
        r.sign == sign,
        magnitudes_match(r, mag as int),
        r.well_formed(),
{
    proof {
        lemma_unit_bounds(mag as int);
    }
    let (years, ns_left) = div_rem_u128(mag, NANOSECONDS_PER_YEAR as u128);
    let (months, ns_left) = div_rem_u128(ns_left, NANOSECONDS_PER_MONTH as u128);
    let (weeks, ns_left) = div_rem_u128(ns_left, NANOSECONDS_PER_WEEK as u128);
    let (days, ns_left) = div_rem_u128(ns_left, NANOSECONDS_PER_DAY as u128);
    let (hours, ns_left) = div_rem_u128(ns_left, NANOSECONDS_PER_HOUR as u128);
    let (minutes, ns_left) = div_rem_u128(ns_left, NANOSECONDS_PER_MINUTE as u128);
    let (seconds, ns_left) = div_rem_u128(ns_left, NANOSECONDS_PER_SECOND as u128);
    let (milliseconds, ns_left) = div_rem_u128(ns_left, NANOSECONDS_PER_MILLISECOND as u128);
    let (microseconds, ns_left) = div_rem_u128(ns_left, NANOSECONDS_PER_MICROSECOND as u128);
    Decomposition {
        sign,
        years,
        months: months as u64,
        weeks: weeks as u64,
        days: days as u64,
        hours: hours as u64,
        minutes: minutes as u64,
        seconds: seconds as u64,
        milliseconds: milliseconds as u64,
        microseconds: microseconds as u64,
        nanoseconds: ns_left as u64,
    }
}

} // verus!
