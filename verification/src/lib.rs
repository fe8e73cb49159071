//! Days of the week as a set packed into a single byte.
//!
//! A [`Weekdays`] value holds any subset of the seven days, one bit per day,
//! Monday in the highest of the seven bits and Sunday in the lowest. The eighth
//! bit is never set. Every operation is stated twice: over the byte, and over
//! the set of day numbers (Monday = 0 … Sunday = 6) that the byte stands for.
//!
//! - [`bits`]: facts about single bytes.
//! - [`days`]: the bit patterns with a name, and a byte read as a set of day numbers.
//! - [`weekdays`]: the set type, its queries and its algebra.
//! - [`ops`], [`order`]: the operators and the order of sets.
//! - [`iter`]: walking a set day by day, Monday first.
//! - [`text`]: a set as binary digits.
//! - [`calendar`]: conversions with `chrono::Weekday`.
//! - [`serial`], [`storage`]: a set as one serialised byte, and in a
//!   bit-string column of a PostgreSQL table.
//! - [`laws`]: what holds of all sets.

pub mod bits;
pub mod calendar;
pub mod days;
pub mod iter;
pub mod laws;
pub mod ops;
pub mod order;
pub mod serial;
pub mod storage;
pub mod text;
pub mod weekdays;

pub use iter::WeekdaysIter;
pub use storage::InvalidType;
pub use weekdays::Weekdays;
