//! The two units in which a relative lock time counts: blocks, and intervals
//! of 512 seconds.
//!
//! Both are plain sixteen-bit counts. They are kept apart as types because a
//! count of blocks says nothing about a count of intervals, and the other way
//! round.

use core::cmp::Ordering;
use core::str::FromStr;
use vstd::prelude::*;
use vstd::std_specs::cmp::PartialOrdSpecImpl;
use vstd::std_specs::convert::FromSpec;

use crate::decimal::{decimal_u16, numeral, parse_u16, push_numeral, ParseError};

verus! {

/// The largest number of seconds that a [`Time`] can cover: 65535 whole
/// intervals.
pub const MAX_SECONDS: u32 = 65535 * 512;

/// Whether `intervals` whole intervals last at least `seconds` seconds.
pub open spec fn covers(intervals: nat, seconds: nat) -> bool {
    intervals * 512 >= seconds
}

/// The least number of whole intervals that cover `seconds`.
pub open spec fn intervals_ceil(seconds: nat) -> nat {
    if seconds % 512 == 0 {
        seconds / 512
    } else {
        seconds / 512 + 1
    }
}

/// [`intervals_ceil`] is the quotient of `seconds` by 512, rounded up: its
/// intervals cover the seconds, no smaller number of intervals does, and it is
/// what adding 511 before a division that rounds down gives.
pub proof fn lemma_intervals_ceil(seconds: nat)
    ensures
        covers(intervals_ceil(seconds), seconds),
        forall|n: nat| #[trigger] covers(n, seconds) ==> n >= intervals_ceil(seconds),
        intervals_ceil(seconds) == (seconds + 511) / 512,
{
}

/// How two counts compare.
pub open spec fn count_order(left: u16, right: u16) -> Ordering {
    if left < right {
        Ordering::Less
    } else if left == right {
        Ordering::Equal
    } else {
        Ordering::Greater
    }
}

/// A number of blocks.
#[derive(Debug, Clone, Copy, PartialEq, Eq, Ord, Hash, Structural)]
pub struct Height(u16);

impl View for Height {
    type V = u16;

    closed spec fn view(&self) -> u16 {
        self.0
    }
}

impl Height {
    /// No blocks: a lock of this height holds nothing back.
    pub fn zero() -> (height: Height)
        ensures
            height@ == 0,
    {
        Height(0)
    }

    /// The smallest height, which is zero.
    pub fn min_value() -> (height: Height)
        ensures
            height@ == 0,
    {
        Height(0)
    }

    /// The largest height, 65535 blocks.
    pub fn max_value() -> (height: Height)
        ensures
            height@ == u16::MAX,
    {
        Height(u16::MAX)
    }

    /// The number of blocks.
    pub fn value(self) -> (raw: u16)
        ensures
            raw == self@,
    {
        self.0
    }

    /// The number of blocks as a decimal numeral.
    pub fn to_string(&self) -> (text: String)
        ensures
            text@ == numeral(self@ as nat),
    {
        let mut text = String::new();
        push_numeral(&mut text, self.0 as u32);
        assert(text@ =~= numeral(self@ as nat));
        text
    }

    /// A height is its number of blocks and nothing more: two heights of one
    /// value are the same height.
    pub proof fn lemma_value_determines(self, other: Height)
        ensures
            self@ == other@ <==> self == other,
    {
    }

    /// Every value is the value of a height: of the one made from it.
    pub proof fn lemma_value_of_from(value: u16)
        ensures
            Height::from_spec(value)@ == value,
    {
    }
}

impl From<u16> for Height {
    /// The height of `value` blocks. Every value is a height.
    fn from(value: u16) -> (height: Height)
        ensures
            height@ == value,
    {
        Height(value)
    }
}

impl vstd::std_specs::convert::FromSpecImpl<u16> for Height {
    open spec fn obeys_from_spec() -> bool {
        true
    }

    closed spec fn from_spec(value: u16) -> Height {
        Height(value)
    }
}

impl Default for Height {
    /// Zero blocks.
    fn default() -> (height: Height)
        ensures
            height@ == 0,
    {
        Height(0)
    }
}

impl PartialOrd for Height {
    /// Heights are ordered as their numbers of blocks are.
    fn partial_cmp(&self, other: &Height) -> (order: Option<Ordering>) {
        if self.0 < other.0 {
            Some(Ordering::Less)
        } else if self.0 == other.0 {
            Some(Ordering::Equal)
        } else {
            Some(Ordering::Greater)
        }
    }
}

impl PartialOrdSpecImpl for Height {
    open spec fn obeys_partial_cmp_spec() -> bool {
        true
    }

    open spec fn partial_cmp_spec(&self, other: &Height) -> Option<Ordering> {
        Some(count_order(self@, other@))
    }
}

impl FromStr for Height {
    type Err = ParseError;

    /// Reads a height from its decimal numeral. Every unsigned decimal integer
    /// up to 65535 is a height, so the only failures are those of the text.
    fn from_str(text: &str) -> (parsed: Result<Height, ParseError>)
        ensures
            match decimal_u16(text@) {
                Ok(value) => parsed matches Ok(height) && height@ == value,
                Err(error) => parsed == Err::<Height, ParseError>(error),
            },
    {
        match parse_u16(text) {
            Ok(value) => Ok(Height(value)),
            Err(error) => Err(error),
        }
    }
}

/// A number of intervals of 512 seconds.
#[derive(Debug, Clone, Copy, PartialEq, Eq, Ord, Hash, Structural)]
pub struct Time(u16);

impl View for Time {
    type V = u16;

    closed spec fn view(&self) -> u16 {
        self.0
    }
}

impl Time {
    /// The time of `intervals` intervals.
    pub closed spec fn spec_from_512_second_intervals(intervals: u16) -> Time {
        Time(intervals)
    }

    /// What converting `seconds` gives: the least number of whole intervals
    /// that cover them, or an error that holds them where that number does
    /// not fit in sixteen bits.
    pub closed spec fn spec_from_seconds_ceil(seconds: u32) -> Result<Time, TimeOverflowError> {
        if intervals_ceil(seconds as nat) <= u16::MAX {
            Ok(Time(intervals_ceil(seconds as nat) as u16))
        } else {
            Err(TimeOverflowError { seconds })
        }
    }

    /// No time: a lock of this time holds nothing back.
    pub fn zero() -> (time: Time)
        ensures
            time@ == 0,
    {
        Time(0)
    }

    /// The smallest time, which is zero.
    pub fn min_value() -> (time: Time)
        ensures
            time@ == 0,
    {
        Time(0)
    }

    /// The largest time: 65535 intervals, which is 33,553,920 seconds or about
    /// 388 days.
    pub fn max_value() -> (time: Time)
        ensures
            time@ == u16::MAX,
    {
        Time(u16::MAX)
    }

    /// The time of `intervals` intervals of 512 seconds each. Every value is a
    /// time; nothing finer than an interval can be encoded.
    #[verifier::when_used_as_spec(spec_from_512_second_intervals)]
    pub fn from_512_second_intervals(intervals: u16) -> (time: Time)
        ensures
            time == Time::spec_from_512_second_intervals(intervals),
            time@ == intervals,
    {
        Time(intervals)
    }

    /// The time that covers `seconds`, rounded up to whole intervals so that a
    /// lock made from it is never satisfied earlier than the seconds ask.
    ///
    /// Fails where more than 65535 intervals would be needed, that is for
    /// every count of seconds above [`MAX_SECONDS`]; the error holds the
    /// seconds.
    #[verifier::when_used_as_spec(spec_from_seconds_ceil)]
    pub fn from_seconds_ceil(seconds: u32) -> (converted: Result<Time, TimeOverflowError>)
        ensures
            converted == Time::spec_from_seconds_ceil(seconds),
            match converted {
                Ok(time) => seconds <= MAX_SECONDS && time@ == intervals_ceil(seconds as nat),
                Err(error) => seconds > MAX_SECONDS && error@ == seconds,
            },
    {
        let intervals: u64 = (seconds as u64 + 511) / 512;
        if intervals <= 65535 {
            Ok(Time(intervals as u16))
        } else {
            Err(TimeOverflowError { seconds })
        }
    }

    /// The number of intervals.
    pub fn value(self) -> (raw: u16)
        ensures
            raw == self@,
    {
        self.0
    }

    /// The number of intervals as a decimal numeral.
    pub fn to_string(&self) -> (text: String)
        ensures
            text@ == numeral(self@ as nat),
    {
        let mut text = String::new();
        push_numeral(&mut text, self.0 as u32);
        assert(text@ =~= numeral(self@ as nat));
        text
    }

    /// A time is its number of intervals and nothing more: two times of one
    /// value are the same time.
    pub proof fn lemma_value_determines(self, other: Time)
        ensures
            self@ == other@ <==> self == other,
    {
    }

    /// Every value is the value of a time: of the one made from it.
    pub proof fn lemma_value_of_from(intervals: u16)
        ensures
            Time::from_512_second_intervals(intervals)@ == intervals,
    {
    }

    /// Converting seconds succeeds exactly up to [`MAX_SECONDS`]. It then
    /// gives the least number of whole intervals that cover the seconds, and
    /// above it an error that holds the seconds.
    pub proof fn lemma_from_seconds_ceil(seconds: u32)
        ensures
            Time::from_seconds_ceil(seconds) is Ok <==> seconds <= 65535 * 512,
            Time::from_seconds_ceil(seconds) matches Ok(time) ==> time@ == intervals_ceil(
                seconds as nat,
            ),
            Time::from_seconds_ceil(seconds) matches Err(error) ==> error@ == seconds,
    {
    }

    /// A bound of `511 + 65535 * 512` seconds tells the counts that convert
    /// from those that do not, except among the 511 counts that lie between
    /// [`MAX_SECONDS`] and that bound: the last whole interval is already
    /// full, so these round up to 65536 intervals and do not convert.
    pub proof fn lemma_from_seconds_ceil_outside_last_interval(seconds: u32)
        requires
            seconds <= 65535 * 512 || seconds > 511 + 65535 * 512,
        ensures
            Time::from_seconds_ceil(seconds) is Ok <==> seconds <= 511 + 65535 * 512,
            Time::from_seconds_ceil(seconds) matches Ok(time) ==> time@ == intervals_ceil(
                seconds as nat,
            ),
    {
    }
}

impl Default for Time {
    /// Zero intervals.
    fn default() -> (time: Time)
        ensures
            time@ == 0,
    {
        Time(0)
    }
}

impl PartialOrd for Time {
    /// Times are ordered as their numbers of intervals are.
    fn partial_cmp(&self, other: &Time) -> (order: Option<Ordering>) {
        if self.0 < other.0 {
            Some(Ordering::Less)
        } else if self.0 == other.0 {
            Some(Ordering::Equal)
        } else {
            Some(Ordering::Greater)
        }
    }
}

impl PartialOrdSpecImpl for Time {
    open spec fn obeys_partial_cmp_spec() -> bool {
        true
    }

    open spec fn partial_cmp_spec(&self, other: &Time) -> Option<Ordering> {
        Some(count_order(self@, other@))
    }
}

impl FromStr for Time {
    type Err = ParseError;

    /// Reads a time from the decimal numeral of its number of intervals. Every
    /// unsigned decimal integer up to 65535 is a time, so the only failures
    /// are those of the text.
    fn from_str(text: &str) -> (parsed: Result<Time, ParseError>)
        ensures
            match decimal_u16(text@) {
                Ok(value) => parsed matches Ok(time) && time@ == value,
                Err(error) => parsed == Err::<Time, ParseError>(error),
            },
    {
        match parse_u16(text) {
            Ok(value) => Ok(Time(value)),
            Err(error) => Err(error),
        }
    }
}

/// A number of seconds that is too large to be encoded as a [`Time`].
#[derive(Debug, PartialEq, Eq, Structural)]
pub struct TimeOverflowError {
    seconds: u32,
}

impl View for TimeOverflowError {
    type V = u32;

    closed spec fn view(&self) -> u32 {
        self.seconds
    }
}

impl TimeOverflowError {
    /// Only a number of seconds that no time covers is ever held.
    #[verifier::type_invariant]
    spec fn overflows(self) -> bool {
        self.seconds > MAX_SECONDS
    }

    /// The text of the error.
    pub open spec fn spec_to_string(&self) -> Seq<char> {
        numeral(self@ as nat)
            + " seconds is too large to be encoded to a 16 bit 512 second interval"@
    }

    /// The number of seconds that was too large.
    pub fn seconds(&self) -> (seconds: u32)
        ensures
            seconds == self@,
            seconds > MAX_SECONDS,
    {
        proof {
            use_type_invariant(self);
        }
        self.seconds
    }

    /// The text of the error: the seconds, and the limit that they are over.
    pub fn to_string(&self) -> (text: String)
        ensures
            text@ == self.spec_to_string(),
    {
        let mut text = String::new();
        push_numeral(&mut text, self.seconds);
        text.append(" seconds is too large to be encoded to a 16 bit 512 second interval");
        text
    }
}

impl Clone for TimeOverflowError {
    fn clone(&self) -> (copy: TimeOverflowError)
        ensures
            copy == *self,
    {
        proof {
            use_type_invariant(self);
        }
        TimeOverflowError { seconds: self.seconds }
    }
}

} // verus!
