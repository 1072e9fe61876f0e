//! Decomposition of a signed, nanosecond-resolution duration into a
//! human-oriented breakdown of calendar-like units: a sign indicator followed
//! by magnitudes for years, months, weeks, days, hours, minutes, seconds,
//! milliseconds, microseconds, and a final nanosecond remainder.
//!
//! Months and years use fixed Gregorian mean lengths rather than true
//! calendar arithmetic, so the breakdown is an approximation by design.
//! Durations whose magnitude does not fit a 64-bit nanosecond count are
//! handled by a wider 128-bit arithmetic path with identical semantics.

pub mod decompose;
pub mod duration;
pub mod units;
