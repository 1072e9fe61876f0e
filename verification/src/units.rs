//! The unit conversion table: nanoseconds per unit, derived once from a
//! single chain of definitions so that every consumer shares one source of
//! truth.
//!
//! The month and year are fixed average lengths, not calendar-exact ones:
//! the Gregorian mean month of 30.436875 days is exactly 2_629_746 seconds,
//! and the Gregorian mean year of 365.2425 days is exactly 31_556_952
//! seconds. Both are therefore whole numbers of nanoseconds, and the year is
//! exactly twelve mean months.

use vstd::prelude::*;

verus! {

pub const NANOSECONDS_PER_MICROSECOND: u64 = 1_000;

pub const NANOSECONDS_PER_MILLISECOND: u64 = 1_000 * NANOSECONDS_PER_MICROSECOND;

pub const NANOSECONDS_PER_SECOND: u64 = 1_000 * NANOSECONDS_PER_MILLISECOND;

pub const NANOSECONDS_PER_MINUTE: u64 = 60 * NANOSECONDS_PER_SECOND;

pub const NANOSECONDS_PER_HOUR: u64 = 60 * NANOSECONDS_PER_MINUTE;

pub const NANOSECONDS_PER_DAY: u64 = 24 * NANOSECONDS_PER_HOUR;

pub const NANOSECONDS_PER_WEEK: u64 = 7 * NANOSECONDS_PER_DAY;

/// The Gregorian mean month, 30.436875 days, as a whole number of seconds.
pub const SECONDS_PER_MONTH: u64 = 2_629_746;

/// The Gregorian mean year, 365.2425 days, as a whole number of seconds.
pub const SECONDS_PER_YEAR: u64 = 31_556_952;

pub const NANOSECONDS_PER_MONTH: u64 = SECONDS_PER_MONTH * NANOSECONDS_PER_SECOND;

pub const NANOSECONDS_PER_YEAR: u64 = SECONDS_PER_YEAR * NANOSECONDS_PER_SECOND;

/// The mean year is exactly twelve mean months, so after the year step at
/// most eleven whole months remain.
pub proof fn lemma_year_is_twelve_months()
    ensures
        NANOSECONDS_PER_YEAR == 12 * NANOSECONDS_PER_MONTH,
{
}

} // verus!
