//! The relative lock time itself: a count of blocks or a count of intervals,
//! and the questions that are asked of it.
//!
//! A lock is satisfied once as many blocks, or as many intervals, have passed
//! as it counts. A count in one unit is never compared with a count in the
//! other.

use vstd::prelude::*;
use vstd::std_specs::convert::FromSpecImpl;

use crate::decimal::{numeral, push_numeral};
use crate::units::{Height, Time};

verus! {

/// A relative lock time: either a number of blocks or a number of intervals
/// of 512 seconds.
///
/// A lock is made from a [`Height`] or from a [`Time`], which settles its unit
/// for good.
#[derive(Debug, Clone, Copy, PartialEq, Eq, Hash, Structural)]
pub enum LockTime {
    /// A lock that counts blocks.
    Blocks(Height),
    /// A lock that counts intervals of 512 seconds.
    Time(Time),
}

/// A lock that counts time was asked whether a height satisfies it.
#[derive(Debug, PartialEq, Eq, Structural)]
#[non_exhaustive]
pub struct IncompatibleHeightError {
    /// The height that was offered.
    pub height: Height,
    /// The time that the lock counts.
    pub time: Time,
}

/// A lock that counts blocks was asked whether a time satisfies it.
#[derive(Debug, PartialEq, Eq, Structural)]
#[non_exhaustive]
pub struct IncompatibleTimeError {
    /// The time that was offered.
    pub time: Time,
    /// The height that the lock counts.
    pub height: Height,
}

impl LockTime {
    /// Whether `height` satisfies this lock, where the lock counts blocks; the
    /// mismatch of units where it counts time.
    pub open spec fn spec_is_satisfied_by_height(&self, height: Height) -> Result<
        bool,
        IncompatibleHeightError,
    > {
        match *self {
            LockTime::Blocks(lock) => Ok(lock@ <= height@),
            LockTime::Time(time) => Err(IncompatibleHeightError { height, time }),
        }
    }

    /// Whether `time` satisfies this lock, where the lock counts time; the
    /// mismatch of units where it counts blocks.
    pub open spec fn spec_is_satisfied_by_time(&self, time: Time) -> Result<
        bool,
        IncompatibleTimeError,
    > {
        match *self {
            LockTime::Time(lock) => Ok(lock@ <= time@),
            LockTime::Blocks(height) => Err(IncompatibleTimeError { time, height }),
        }
    }

    /// Whether the lock is satisfied once `height` blocks and `time` intervals
    /// have passed: each lock looks at the count in its own unit only.
    pub open spec fn spec_is_satisfied_by(&self, height: Height, time: Time) -> bool {
        match *self {
            LockTime::Blocks(lock) => lock@ <= height@,
            LockTime::Time(lock) => lock@ <= time@,
        }
    }

    /// Whether this lock asks no more than `other` does, in the same unit.
    pub open spec fn spec_is_implied_by(&self, other: LockTime) -> bool {
        match (*self, other) {
            (LockTime::Blocks(this), LockTime::Blocks(that)) => this@ <= that@,
            (LockTime::Time(this), LockTime::Time(that)) => this@ <= that@,
            _ => false,
        }
    }

    /// Whether both locks count in the same unit.
    pub open spec fn same_unit(&self, other: LockTime) -> bool {
        (*self is Blocks) == (other is Blocks)
    }

    /// The count, whatever the unit.
    pub open spec fn count(&self) -> u16 {
        match *self {
            LockTime::Blocks(height) => height@,
            LockTime::Time(time) => time@,
        }
    }

    /// The short text of the lock: its count alone.
    pub open spec fn spec_to_string(&self) -> Seq<char> {
        numeral(self.count() as nat)
    }

    /// The long text of the lock: the short text with the unit spelled out
    /// around it.
    pub open spec fn spec_to_verbose_string(&self) -> Seq<char> {
        match *self {
            LockTime::Blocks(_) => "block-height "@ + self.spec_to_string(),
            LockTime::Time(_) => "block-time "@ + self.spec_to_string()
                + " (512 second intervals)"@,
        }
    }

    /// The text of the lock in one of its two forms: the long one where
    /// `alternate` is set, the short one where it is not.
    pub open spec fn spec_format(&self, alternate: bool) -> Seq<char> {
        if alternate {
            self.spec_to_verbose_string()
        } else {
            self.spec_to_string()
        }
    }

    /// Whether the lock is satisfied once `height` blocks and `time` intervals
    /// have passed since the output was confirmed.
    ///
    /// The caller hands over both counts and need not know the unit of the
    /// lock. A lock that counts blocks looks at `height` alone, one that counts
    /// time at `time` alone; the count in the other unit is passed over in
    /// silence and never reported as a mismatch. To be told of a mismatch, ask
    /// [`LockTime::is_satisfied_by_height`] or
    /// [`LockTime::is_satisfied_by_time`].
    #[verifier::when_used_as_spec(spec_is_satisfied_by)]
    pub fn is_satisfied_by(&self, height: Height, time: Time) -> (satisfied: bool)
        ensures
            satisfied == self.spec_is_satisfied_by(height, time),
    {
        if let Ok(true) = self.is_satisfied_by_height(height) {
            true
        } else {
            matches!(self.is_satisfied_by_time(time), Ok(true))
        }
    }

    /// Whether this lock is satisfied whenever `other` is: both count in the
    /// same unit, and this one counts no more than `other`.
    ///
    /// Locks of different units never imply each other, since blocks that have
    /// passed say nothing of the seconds that have.
    #[verifier::when_used_as_spec(spec_is_implied_by)]
    pub fn is_implied_by(&self, other: LockTime) -> (implied: bool)
        ensures
            implied == self.spec_is_implied_by(other),
    {
        match (*self, other) {
            (LockTime::Blocks(this), LockTime::Blocks(that)) => this.value() <= that.value(),
            (LockTime::Time(this), LockTime::Time(that)) => this.value() <= that.value(),
            _ => false,
        }
    }

    /// Whether `height` blocks satisfy this lock.
    ///
    /// Fails on a lock that counts time, with an error that holds `height` and
    /// the time of the lock.
    #[verifier::when_used_as_spec(spec_is_satisfied_by_height)]
    pub fn is_satisfied_by_height(&self, height: Height) -> (satisfied: Result<
        bool,
        IncompatibleHeightError,
    >)
        ensures
            satisfied == self.spec_is_satisfied_by_height(height),
    {
        match *self {
            LockTime::Blocks(lock) => Ok(lock.value() <= height.value()),
            LockTime::Time(time) => Err(IncompatibleHeightError { height, time }),
        }
    }

    /// Whether `time` intervals satisfy this lock.
    ///
    /// Fails on a lock that counts blocks, with an error that holds `time` and
    /// the height of the lock.
    #[verifier::when_used_as_spec(spec_is_satisfied_by_time)]
    pub fn is_satisfied_by_time(&self, time: Time) -> (satisfied: Result<
        bool,
        IncompatibleTimeError,
    >)
        ensures
            satisfied == self.spec_is_satisfied_by_time(time),
    {
        match *self {
            LockTime::Time(lock) => Ok(lock.value() <= time.value()),
            LockTime::Blocks(height) => Err(IncompatibleTimeError { time, height }),
        }
    }

    /// The short text of the lock: its count as a decimal numeral. The unit is
    /// left to the context.
    pub fn to_string(&self) -> (text: String)
        ensures
            text@ == self.spec_to_string(),
    {
        match *self {
            LockTime::Blocks(height) => height.to_string(),
            LockTime::Time(time) => time.to_string(),
        }
    }

    /// The long text of the lock: `block-height` and the count of blocks, or
    /// `block-time`, the count of intervals and a reminder of their length.
    pub fn to_verbose_string(&self) -> (text: String)
        ensures
            text@ == self.spec_to_verbose_string(),
    {
        let short = self.to_string();
        match *self {
            LockTime::Blocks(_) => {
                let mut text = String::from_str("block-height ");
                text.append(short.as_str());
                text
            },
            LockTime::Time(_) => {
                let mut text = String::from_str("block-time ");
                text.append(short.as_str());
                text.append(" (512 second intervals)");
                text
            },
        }
    }

    /// The text of the lock in the form that a formatter asks for: the long
    /// one for the alternate form (`{:#}`), the short one otherwise. Both
    /// hold the same count.
    pub fn format(&self, alternate: bool) -> (text: String)
        ensures
            text@ == self.spec_format(alternate),
    {
        if alternate {
            self.to_verbose_string()
        } else {
            self.to_string()
        }
    }
}

impl From<Height> for LockTime {
    /// The lock that counts `height` blocks.
    fn from(height: Height) -> (lock: LockTime) {
        LockTime::Blocks(height)
    }
}

impl FromSpecImpl<Height> for LockTime {
    open spec fn obeys_from_spec() -> bool {
        true
    }

    open spec fn from_spec(height: Height) -> LockTime {
        LockTime::Blocks(height)
    }
}

impl From<Time> for LockTime {
    /// The lock that counts `time` intervals.
    fn from(time: Time) -> (lock: LockTime) {
        LockTime::Time(time)
    }
}

impl FromSpecImpl<Time> for LockTime {
    open spec fn obeys_from_spec() -> bool {
        true
    }

    open spec fn from_spec(time: Time) -> LockTime {
        LockTime::Time(time)
    }
}

impl IncompatibleHeightError {
    /// The text of the error.
    pub open spec fn spec_to_string(&self) -> Seq<char> {
        "tried to satisfy a lock-by-blocktime lock "@ + numeral(self.time@ as nat)
            + " with height: "@ + numeral(self.height@ as nat)
    }

    /// The text of the error: the time of the lock, then the height that was
    /// offered.
    pub fn to_string(&self) -> (text: String)
        ensures
            text@ == self.spec_to_string(),
    {
        let mut text = String::from_str("tried to satisfy a lock-by-blocktime lock ");
        push_numeral(&mut text, self.time.value() as u32);
        text.append(" with height: ");
        push_numeral(&mut text, self.height.value() as u32);
        text
    }
}

impl Clone for IncompatibleHeightError {
    fn clone(&self) -> (copy: IncompatibleHeightError)
        ensures
            copy == *self,
    {
        IncompatibleHeightError { height: self.height, time: self.time }
    }
}

impl IncompatibleTimeError {
    /// The text of the error.
    pub open spec fn spec_to_string(&self) -> Seq<char> {
        "tried to satisfy a lock-by-blockheight lock "@ + numeral(self.height@ as nat)
            + " with time: "@ + numeral(self.time@ as nat)
    }

    /// The text of the error: the height of the lock, then the time that was
    /// offered.
    pub fn to_string(&self) -> (text: String)
        ensures
            text@ == self.spec_to_string(),
    {
        let mut text = String::from_str("tried to satisfy a lock-by-blockheight lock ");
        push_numeral(&mut text, self.height.value() as u32);
        text.append(" with time: ");
        push_numeral(&mut text, self.time.value() as u32);
        text
    }
}

impl Clone for IncompatibleTimeError {
    fn clone(&self) -> (copy: IncompatibleTimeError)
        ensures
            copy == *self,
    {
        IncompatibleTimeError { time: self.time, height: self.height }
    }
}

/// A lock that counts blocks is satisfied by its own height and by every
/// greater one, and by no smaller one.
pub proof fn lemma_height_lock_threshold(lower: Height, upper: Height)
    requires
        lower@ <= upper@,
    ensures
        LockTime::Blocks(lower).is_satisfied_by_height(upper) matches Ok(true),
        lower != upper ==> (LockTime::Blocks(upper).is_satisfied_by_height(lower) matches Ok(
            false,
        )),
{
    lower.lemma_value_determines(upper);
}

/// A lock that counts time is satisfied by its own time and by every greater
/// one, and by no smaller one.
pub proof fn lemma_time_lock_threshold(lower: Time, upper: Time)
    requires
        lower@ <= upper@,
    ensures
        LockTime::Time(lower).is_satisfied_by_time(upper) matches Ok(true),
        lower != upper ==> (LockTime::Time(upper).is_satisfied_by_time(lower) matches Ok(
            false,
        )),
{
    lower.lemma_value_determines(upper);
}

/// A question in the wrong unit is an error whatever the two counts are, and
/// the error holds them both.
pub proof fn lemma_wrong_unit_is_an_error(height: Height, time: Time)
    ensures
        LockTime::Blocks(height).is_satisfied_by_time(time) matches Err(error)
            && error == (IncompatibleTimeError { time, height }),
        LockTime::Time(time).is_satisfied_by_height(height) matches Err(error)
            && error == (IncompatibleHeightError { height, time }),
{
}

/// Asking with both counts at once is asking both questions and taking a
/// plain yes from either: an error counts as a no.
pub proof fn lemma_satisfied_by_either_count(lock: LockTime, height: Height, time: Time)
    ensures
        lock.is_satisfied_by(height, time) <==> (lock.is_satisfied_by_height(height) matches Ok(
            true,
        )) || (lock.is_satisfied_by_time(time) matches Ok(true)),
{
}

/// Implication orders the locks of one unit, and relates no lock to one of
/// the other unit. It is reflexive, antisymmetric and transitive, and of two
/// locks of one unit at least one implies the other.
pub proof fn lemma_implication_is_a_total_order(a: LockTime, b: LockTime, c: LockTime)
    ensures
        a.is_implied_by(a),
        a.is_implied_by(b) && b.is_implied_by(a) ==> a == b,
        a.is_implied_by(b) && b.is_implied_by(c) ==> a.is_implied_by(c),
        a.same_unit(b) ==> a.is_implied_by(b) || b.is_implied_by(a),
        !a.same_unit(b) ==> !a.is_implied_by(b) && !b.is_implied_by(a),
{
    match (a, b) {
        (LockTime::Blocks(this), LockTime::Blocks(that)) => {
            this.lemma_value_determines(that);
        },
        (LockTime::Time(this), LockTime::Time(that)) => {
            this.lemma_value_determines(that);
        },
        _ => {},
    }
}

/// Implication is what its name says: whatever satisfies a lock satisfies
/// every lock that it implies.
pub proof fn lemma_implied_lock_is_satisfied(
    implied: LockTime,
    lock: LockTime,
    height: Height,
    time: Time,
)
    requires
        implied.is_implied_by(lock),
        lock.is_satisfied_by(height, time),
    ensures
        implied.is_satisfied_by(height, time),
{
}

/// A lock that is satisfied stays satisfied as blocks and time go on.
pub proof fn lemma_satisfaction_lasts(
    lock: LockTime,
    height: Height,
    time: Time,
    later_height: Height,
    later_time: Time,
)
    requires
        lock.is_satisfied_by(height, time),
        height@ <= later_height@,
        time@ <= later_time@,
    ensures
        lock.is_satisfied_by(later_height, later_time),
{
}

} // verus!
