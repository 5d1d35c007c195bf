//! Relative lock times: the number of blocks, or of 512-second intervals, that
//! must pass after an output is confirmed before an input that spends it is
//! valid.
//!
//! A [`LockTime`] is made from a [`Height`] or from a [`Time`]. It is then
//! asked whether the blocks and the time that have passed satisfy it, either
//! with both counts at once ([`LockTime::is_satisfied_by`]) or with the one
//! count that the caller knows to be in the lock's unit
//! ([`LockTime::is_satisfied_by_height`], [`LockTime::is_satisfied_by_time`]),
//! and whether another lock implies it ([`LockTime::is_implied_by`]).
//!
//! The crate is verified with Verus. Every function says in its contract what
//! it returns, for every input, and what holds between the functions is proved
//! beside them as lemmas.
//!
//! * [`units`]: the two counts, and the conversion from seconds to intervals.
//! * [`lock_time`]: the lock, its questions and their errors.
//! * [`decimal`]: the text form of a count, written and read.

pub mod decimal;
pub mod lock_time;
pub mod units;

pub use decimal::ParseError;
pub use lock_time::{IncompatibleHeightError, IncompatibleTimeError, LockTime};
pub use units::{Height, Time, TimeOverflowError};
