//! A signed, nanosecond-resolution duration and its decomposition into
//! descending calendar-like units.
//!
//! The decomposition extracts the sign once, as a 0/1 indicator, and runs the
//! division chain on the absolute magnitude: on 64-bit arithmetic when the
//! nanosecond count fits the signed 64-bit range, and otherwise on exact
//! 128-bit arithmetic. The branch is invisible in the contract — both paths
//! are pinned to the same specification.

use vstd::prelude::*;
use crate::decompose::{
    decompose_magnitude_u128, decompose_magnitude_u64, lemma_reconstruction, magnitudes_match,
    Decomposition,
};
use crate::units::{
    NANOSECONDS_PER_DAY, NANOSECONDS_PER_HOUR, NANOSECONDS_PER_MICROSECOND,
    NANOSECONDS_PER_MILLISECOND, NANOSECONDS_PER_MINUTE, NANOSECONDS_PER_MONTH,
    NANOSECONDS_PER_SECOND, NANOSECONDS_PER_WEEK, NANOSECONDS_PER_YEAR,
};

verus! {

/// The absolute nanosecond magnitude of a signed nanosecond count.
pub open spec fn magnitude_of(total_ns: int) -> int {
    if total_ns < 0 {
        -total_ns
    } else {
        total_ns
    }
}

/// The sign indicator a decomposition carries: `0` for a zero or positive
/// nanosecond count, `1` for a negative one.
pub open spec fn sign_indicator_of(total_ns: int) -> int {
    if total_ns < 0 {
        1
    } else {
        0
    }
}

/// A signed elapsed-time quantity at nanosecond resolution, immutable once
/// constructed. Its view is the exact nanosecond count as a mathematical
/// integer.
#[derive(Clone, Copy, PartialEq, Eq, Structural, Debug)]
pub struct Duration {
    total_ns: i128,
}

impl View for Duration {
    type V = int;

    closed spec fn view(&self) -> int {
        self.total_ns as int
    }
}

impl Duration {
    /// Builds the duration holding exactly `total_nanoseconds`.
    pub fn from_total_nanoseconds(total_nanoseconds: i128) -> (r: Self)
        ensures
            r@ == total_nanoseconds as int,
    {
        Duration { total_ns: total_nanoseconds }
    }

    /// The exact signed nanosecond count.
    pub fn total_nanoseconds(&self) -> (r: i128)
        ensures
            r as int == self@,
    {
        self.total_ns
    }

    /// The signed nanosecond count as a 64-bit value when it fits; `None`
    /// exactly when the count overflows the signed 64-bit range.
    pub fn try_truncated_nanoseconds(&self) -> (r: Option<i64>)
        ensures
            r is Some <==> i64::MIN <= self@ <= i64::MAX,
            r is Some ==> r->0 as int == self@,
    {
        if i64::MIN as i128 <= self.total_ns && self.total_ns <= i64::MAX as i128 {
            Some(self.total_ns as i64)
        } else {
            None
        }
    }

    /// The sign of the duration: `-1`, `0` or `1` for a negative, zero or
    /// positive nanosecond count.
    pub fn signum(&self) -> (r: i8)
        ensures
            r == -1 <==> self@ < 0,
            r == 0 <==> self@ == 0,
            r == 1 <==> self@ > 0,
    {
        if self.total_ns < 0 {
            -1
        } else if self.total_ns == 0 {
            0
        } else {
            1
        }
    }

    /// Decomposes the duration into its sign indicator and the nine unit
    /// magnitudes of the division chain applied to its absolute magnitude:
    /// years, months, weeks, days, hours, minutes, seconds, milliseconds,
    /// microseconds, and the nanosecond remainder, in descending unit order.
    ///
    /// Magnitudes that fit a signed 64-bit nanosecond count take the narrow
    /// arithmetic path; larger ones transparently take the exact 128-bit
    /// path. No input is rejected, and weighting each unit magnitude by its
    /// nanosecond conversion factor reconstructs the absolute magnitude
    /// exactly.
    pub fn decompose(&self) -> (r: Decomposition)
        ensures
            r.sign == sign_indicator_of(self@),
            magnitudes_match(r, magnitude_of(self@)),
            r.well_formed(),
            r.years * NANOSECONDS_PER_YEAR + r.months * NANOSECONDS_PER_MONTH + r.weeks
                * NANOSECONDS_PER_WEEK + r.days * NANOSECONDS_PER_DAY + r.hours
                * NANOSECONDS_PER_HOUR + r.minutes * NANOSECONDS_PER_MINUTE + r.seconds
                * NANOSECONDS_PER_SECOND + r.milliseconds * NANOSECONDS_PER_MILLISECOND
                + r.microseconds * NANOSECONDS_PER_MICROSECOND + r.nanoseconds == magnitude_of(
                self@,
            ),
    {
        proof {
            lemma_reconstruction(magnitude_of(self@));
        }
        let sign: u8 = if self.total_ns < 0 {
            1
        } else {
            0
        };
        match self.try_truncated_nanoseconds() {
            Some(truncated_ns) => {
                let mag: u64 = if truncated_ns < 0 {
                    ((-(truncated_ns + 1)) as u64) + 1
                } else {
                    truncated_ns as u64
                };
                decompose_magnitude_u64(sign, mag)
            },
            None => {
                let total_ns = self.total_ns;
                let mag: u128 = if total_ns < 0 {
                    ((-(total_ns + 1)) as u128) + 1
                } else {
                    total_ns as u128
                };
                decompose_magnitude_u128(sign, mag)
            },
        }
    }
}

} // verus!
