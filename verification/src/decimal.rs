//! Unsigned decimal numerals: the text form of the counts that this crate holds.
//!
//! A count is written as its decimal numeral, and a text is read back as the
//! number it spells. Reading accepts what writing produces, and a little more:
//! leading zeros, and one plus sign in front.

use vstd::prelude::*;

verus! {

/// Whether `c` is one of the ten ASCII digits.
pub open spec fn is_digit(c: char) -> bool {
    '0' <= c <= '9'
}

/// The number that the digit `c` stands for.
pub open spec fn digit_value(c: char) -> nat
    recommends
        is_digit(c),
{
    (c as nat - '0' as nat) as nat
}

/// The digit that stands for `d`.
pub open spec fn digit_char(d: nat) -> char
    recommends
        d < 10,
{
    (d + '0' as nat) as char
}

/// The decimal numeral of `n`: most significant digit first, no sign, and no
/// leading zero except in the numeral of zero itself.
pub open spec fn numeral(n: nat) -> Seq<char>
    decreases n,
{
    if n < 10 {
        seq![digit_char(n)]
    } else {
        numeral(n / 10).push(digit_char(n % 10))
    }
}

/// The number that a sequence of digits spells, most significant digit first.
/// Leading zeros do not change it, and the empty sequence spells zero.
pub open spec fn numeral_value(digits: Seq<char>) -> nat
    decreases digits.len(),
{
    if digits.len() == 0 {
        0
    } else {
        10 * numeral_value(digits.drop_last()) + digit_value(digits.last())
    }
}

/// Whether `text` is one digit or more, and nothing else.
pub open spec fn is_numeral(text: Seq<char>) -> bool {
    &&& text.len() > 0
    &&& forall|i: int| 0 <= i < text.len() ==> is_digit(#[trigger] text[i])
}

/// What is left of `text` without the one plus sign that may stand in front.
pub open spec fn unsigned_digits(text: Seq<char>) -> Seq<char> {
    if text.len() > 0 && text[0] == '+' {
        text.skip(1)
    } else {
        text
    }
}

/// The number that `text` spells as an unsigned decimal integer, if it spells
/// one: an optional plus sign, then one digit or more.
pub open spec fn unsigned_value(text: Seq<char>) -> Option<nat> {
    if is_numeral(unsigned_digits(text)) {
        Some(numeral_value(unsigned_digits(text)))
    } else {
        None
    }
}

/// Why a text could not be read as a count of sixteen bits.
#[derive(Debug, Clone, Copy, PartialEq, Eq, Hash, Structural)]
pub enum ParseError {
    /// The text is no unsigned decimal integer.
    NotDecimal,
    /// The text is an unsigned decimal integer above 65535.
    TooLarge,
}

impl ParseError {
    /// The text of the error.
    pub open spec fn spec_to_string(&self) -> Seq<char> {
        match *self {
            ParseError::NotDecimal => "invalid unsigned decimal integer"@,
            ParseError::TooLarge => "number too large to fit in 16 bits"@,
        }
    }

    /// The text of the error: what was wrong with the text that was read.
    pub fn to_string(&self) -> (text: String)
        ensures
            text@ == self.spec_to_string(),
    {
        match *self {
            ParseError::NotDecimal => String::from_str("invalid unsigned decimal integer"),
            ParseError::TooLarge => String::from_str("number too large to fit in 16 bits"),
        }
    }
}

/// What reading `text` as a count of sixteen bits gives.
pub open spec fn decimal_u16(text: Seq<char>) -> Result<u16, ParseError> {
    match unsigned_value(text) {
        None => Err(ParseError::NotDecimal),
        Some(n) => if n <= u16::MAX {
            Ok(n as u16)
        } else {
            Err(ParseError::TooLarge)
        },
    }
}

/// Where the digits of a text begin: behind the plus sign, if it has one.
spec fn digits_start(signed: bool) -> int {
    if signed {
        1
    } else {
        0
    }
}

/// Reads `text` as an unsigned decimal integer of at most sixteen bits.
///
/// Any number of leading zeros is accepted, and so is one plus sign in front
/// of the digits. No other character is: no minus sign, no space, no
/// underscore.
pub fn parse_u16(text: &str) -> (parsed: Result<u16, ParseError>)
    ensures
        parsed == decimal_u16(text@),
{
    let mut value: u32 = 0;
    let mut fits = true;
    let mut signed = false;
    let mut any_digit = false;
    for c in it: text.chars()
        invariant
            it.seq() == text@,
            signed <==> it.index() > 0 && text@[0] == '+',
            any_digit <==> it.index() > digits_start(signed),
            forall|i: int|
                digits_start(signed) <= i < it.index() ==> is_digit(#[trigger] text@[i]),
            fits ==> value == numeral_value(text@.subrange(digits_start(signed), it.index())),
            fits ==> value <= u16::MAX,
            !fits ==> numeral_value(text@.subrange(digits_start(signed), it.index()))
                > u16::MAX,
    {
        let ghost at = it.index();
        if !signed && !any_digit && c == '+' {
            signed = true;
            assert(text@.subrange(1, 1) =~= Seq::<char>::empty());
        } else if '0' <= c && c <= '9' {
            let digit: u32 = c as u32 - '0' as u32;
            proof {
                let before = text@.subrange(digits_start(signed), at);
                let after = text@.subrange(digits_start(signed), at + 1);
                assert(after.drop_last() =~= before);
                assert(after.last() == c);
            }
            if fits {
                value = value * 10 + digit;
                if value > 65535 {
                    fits = false;
                }
            }
            any_digit = true;
        } else {
            assert(!is_digit(unsigned_digits(text@)[at - digits_start(signed)]));
            return Err(ParseError::NotDecimal);
        }
    }
    assert(unsigned_digits(text@) =~= text@.subrange(digits_start(signed), text@.len() as int));
    if !any_digit {
        Err(ParseError::NotDecimal)
    } else if !fits {
        Err(ParseError::TooLarge)
    } else {
        Ok(value as u16)
    }
}

/// The text of one digit.
fn digit_text(d: u32) -> (text: &'static str)
    requires
        d < 10,
    ensures
        text@ == seq![digit_char(d as nat)],
{
    proof {
        reveal_strlit("0");
        reveal_strlit("1");
        reveal_strlit("2");
        reveal_strlit("3");
        reveal_strlit("4");
        reveal_strlit("5");
        reveal_strlit("6");
        reveal_strlit("7");
        reveal_strlit("8");
        reveal_strlit("9");
    }
    let text = match d {
        0 => "0",
        1 => "1",
        2 => "2",
        3 => "3",
        4 => "4",
        5 => "5",
        6 => "6",
        7 => "7",
        8 => "8",
        _ => "9",
    };
    assert(text@ =~= seq![digit_char(d as nat)]);
    text
}

/// Appends the decimal numeral of `n` to `out`.
pub fn push_numeral(out: &mut String, n: u32)
    ensures
        final(out)@ == old(out)@ + numeral(n as nat),
    decreases n,
{
    if n >= 10 {
        push_numeral(out, n / 10);
    }
    out.append(digit_text(n % 10));
    assert(out@ =~= old(out)@ + numeral(n as nat));
}

/// Every numeral is made of digits alone and spells the number it was made
/// for, so a count that was written out is read back unchanged.
pub proof fn lemma_numeral_round_trip(n: nat)
    ensures
        is_numeral(numeral(n)),
        numeral_value(numeral(n)) == n,
        unsigned_value(numeral(n)) == Some(n),
    decreases n,
{
    let text = numeral(n);
    if n >= 10 {
        lemma_numeral_round_trip(n / 10);
        assert(text.drop_last() =~= numeral(n / 10));
        assert(text.last() == digit_char(n % 10));
    } else {
        assert(text.drop_last() =~= Seq::<char>::empty());
        assert(numeral_value(text.drop_last()) == 0);
        assert(text.last() == digit_char(n));
    }
    assert(numeral_value(text) == 10 * numeral_value(text.drop_last()) + digit_value(text.last()));
    assert(is_digit(text[0]));
    assert(unsigned_digits(text) == text);
}

/// A count of sixteen bits that was written out is read back as itself.
pub proof fn lemma_u16_round_trip(value: u16)
    ensures
        decimal_u16(numeral(value as nat)) == Ok::<u16, ParseError>(value),
{
    lemma_numeral_round_trip(value as nat);
}

} // verus!
