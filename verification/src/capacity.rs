//! The state of charge, as the device file gives it: a whole number in text.

use vstd::prelude::*;

use crate::text::{trim, trimmed};

verus! {

/// Why a text is no capacity reading.
#[derive(Debug, Clone, Copy, PartialEq, Eq, Structural)]
pub enum CapacityError {
    /// Nothing but white space was read.
    Empty,
    /// A character is no decimal digit, or a sign stands alone.
    InvalidDigit,
    /// The number is above the largest `i8`.
    PosOverflow,
    /// The number is below the smallest `i8`.
    NegOverflow,
}

/// Whether `c` is one of the decimal digits `0` to `9`.
pub open spec fn is_digit(c: char) -> bool {
    '0' <= c <= '9'
}

/// The number that the digit `c` stands for.
pub open spec fn digit_value(c: char) -> int {
    c as int - '0' as int
}

/// Whether `t` begins with a sign.
pub open spec fn has_sign(t: Seq<char>) -> bool {
    t.len() > 0 && (t[0] == '+' || t[0] == '-')
}

/// Whether `t` begins with a minus sign.
pub open spec fn is_negative(t: Seq<char>) -> bool {
    t.len() > 0 && t[0] == '-'
}

/// What follows the sign of `t`, or all of `t` where it has none.
pub open spec fn digits_of(t: Seq<char>) -> Seq<char> {
    if has_sign(t) {
        t.drop_first()
    } else {
        t
    }
}

/// Whether every character of `digits` is a decimal digit.
pub open spec fn all_digits(digits: Seq<char>) -> bool {
    forall|i: int| 0 <= i < digits.len() ==> is_digit(#[trigger] digits[i])
}

/// The number that `digits` spell in base ten; zero for no digits.
pub open spec fn decimal(digits: Seq<char>) -> int
    decreases digits.len(),
{
    if digits.len() == 0 {
        0
    } else {
        10 * decimal(digits.drop_last()) + digit_value(digits.last())
    }
}

/// The number that `digits` spell under the given sign.
pub open spec fn signed_decimal(digits: Seq<char>, negative: bool) -> int {
    if negative {
        -decimal(digits)
    } else {
        decimal(digits)
    }
}

/// The number `n` where it is in the range of `i8`, else the error that
/// says on which side it is out.
pub open spec fn number_or_overflow(n: int) -> Result<i8, CapacityError> {
    if n > i8::MAX {
        Err(CapacityError::PosOverflow)
    } else if n < i8::MIN {
        Err(CapacityError::NegOverflow)
    } else {
        Ok(n as i8)
    }
}

/// Reads `digits` from the left as a number of the given sign. The first
/// character that is no digit, or that takes the number out of the range of
/// `i8`, ends the reading with its error.
pub open spec fn read_digits(digits: Seq<char>, negative: bool) -> Result<i8, CapacityError>
    decreases digits.len(),
{
    if digits.len() == 0 {
        Ok(0i8)
    } else {
        match read_digits(digits.drop_last(), negative) {
            Err(e) => Err(e),
            Ok(v) => {
                let d = digit_value(digits.last());
                let w = if negative {
                    10 * v - d
                } else {
                    10 * v + d
                };
                if !is_digit(digits.last()) {
                    Err(CapacityError::InvalidDigit)
                } else if w > i8::MAX {
                    Err(CapacityError::PosOverflow)
                } else if w < i8::MIN {
                    Err(CapacityError::NegOverflow)
                } else {
                    Ok(w as i8)
                }
            },
        }
    }
}

/// The number that `t` spells: an optional sign, then at least one decimal
/// digit, and nothing else.
pub open spec fn parse_i8(t: Seq<char>) -> Result<i8, CapacityError> {
    if t.len() == 0 {
        Err(CapacityError::Empty)
    } else if digits_of(t).len() == 0 {
        Err(CapacityError::InvalidDigit)
    } else {
        read_digits(digits_of(t), is_negative(t))
    }
}

/// The capacity that the text `s` gives: the number it spells once the
/// white space at its ends is gone.
pub open spec fn capacity_of(s: Seq<char>) -> Result<i8, CapacityError> {
    parse_i8(trimmed(s))
}

/// Once reading has failed, more characters do not change the error.
pub proof fn lemma_error_sticks(digits: Seq<char>, k: int, negative: bool)
    requires
        0 <= k <= digits.len(),
        read_digits(digits.take(k), negative) is Err,
    ensures
        read_digits(digits, negative) == read_digits(digits.take(k), negative),
    decreases digits.len() - k,
{
    if k == digits.len() {
        assert(digits.take(k) == digits);
    } else {
        assert(digits.drop_last().take(k) == digits.take(k));
        lemma_error_sticks(digits.drop_last(), k, negative);
    }
}

/// What reading digits comes to. Digits alone spell a number that is not
/// negative; they are read as that number under its sign where it is in the
/// range of `i8`, and refused as too large or too small where it is not.
/// Nothing else is read as a number.
pub proof fn lemma_read_digits(digits: Seq<char>, negative: bool)
    ensures
        all_digits(digits) ==> decimal(digits) >= 0,
        read_digits(digits, negative) is Ok ==> all_digits(digits),
        read_digits(digits, negative) != Err::<i8, CapacityError>(CapacityError::Empty),
        all_digits(digits) ==> read_digits(digits, negative) == number_or_overflow(
            signed_decimal(digits, negative),
        ),
    decreases digits.len(),
{
    if digits.len() > 0 {
        let front = digits.drop_last();
        lemma_read_digits(front, negative);
        if all_digits(digits) {
            assert forall|i: int| 0 <= i < front.len() implies is_digit(#[trigger] front[i]) by {
                assert(front[i] == digits[i]);
            }
            assert(is_digit(digits.last()));
        } else if all_digits(front) {
            assert(!is_digit(digits.last())) by {
                if is_digit(digits.last()) {
                    assert forall|i: int| 0 <= i < digits.len() implies is_digit(
                        #[trigger] digits[i],
                    ) by {
                        if i < front.len() {
                            assert(front[i] == digits[i]);
                        }
                    }
                }
            }
        }
    }
}

/// A text is read as a number exactly when it is an optional sign followed
/// by decimal digits, at least one, that spell a number in the range of
/// `i8`; the number read is the one they spell. Digits that spell a number
/// out of that range are refused as too large or too small, and only the
/// empty text is refused as empty.
pub proof fn law_parse_i8(t: Seq<char>)
    ensures
        parse_i8(t) is Ok <==> digits_of(t).len() > 0 && all_digits(digits_of(t)) && i8::MIN
            <= signed_decimal(digits_of(t), is_negative(t)) <= i8::MAX,
        parse_i8(t) matches Ok(v) ==> v == signed_decimal(digits_of(t), is_negative(t)),
        digits_of(t).len() > 0 && all_digits(digits_of(t)) ==> parse_i8(t) == number_or_overflow(
            signed_decimal(digits_of(t), is_negative(t)),
        ),
        parse_i8(t) == Err::<i8, CapacityError>(CapacityError::Empty) <==> t.len() == 0,
{
    lemma_read_digits(digits_of(t), is_negative(t));
}

/// Reads a number in the range of `i8` from text that holds nothing else.
fn read_i8(t: &str) -> (r: Result<i8, CapacityError>)
    ensures
        r == parse_i8(t@),
{
    // `value` is the number read so far; `any` tells whether a digit was
    // among what was read.
    let mut first: bool = true;
    let mut negative: bool = false;
    let mut any: bool = false;
    let mut value: i8 = 0;
    for c in it: t.chars()
        invariant
            it.seq() == t@,
            first <==> it.index() == 0,
            first ==> !negative && !any && value == 0,
            !first ==> {
                let from: int = if has_sign(t@) { 1 } else { 0 };
                &&& negative == is_negative(t@)
                &&& any == (it.index() > from)
                &&& from <= it.index()
                &&& read_digits(t@.subrange(from, it.index() as int), negative) == Ok::<
                    i8,
                    CapacityError,
                >(value)
            },
    {
        let ghost at: int = it.index() as int;
        let ghost from: int = if has_sign(t@) { 1 } else { 0 };
        if first && (c == '+' || c == '-') {
            negative = c == '-';
            first = false;
            assert(t@.subrange(1, 1).len() == 0);
        } else {
            proof {
                let read = t@.subrange(from, at + 1);
                assert(read.drop_last() == t@.subrange(from, at));
                assert(read.last() == c);
                if first {
                    assert(t@.subrange(from, at).len() == 0);
                }
                let rest = digits_of(t@);
                assert(rest == t@.subrange(from, t@.len() as int));
                assert(rest.take(at + 1 - from) == read);
                if read_digits(read, is_negative(t@)) is Err {
                    lemma_error_sticks(rest, at + 1 - from, is_negative(t@));
                }
            }
            first = false;
            if !('0' <= c && c <= '9') {
                return Err(CapacityError::InvalidDigit);
            }
            let d: i16 = (c as u32 - '0' as u32) as i16;
            let w: i16 = if negative {
                value as i16 * 10 - d
            } else {
                value as i16 * 10 + d
            };
            if w > 127 {
                return Err(CapacityError::PosOverflow);
            }
            if w < -128 {
                return Err(CapacityError::NegOverflow);
            }
            value = w as i8;
            any = true;
        }
    }
    if first {
        Err(CapacityError::Empty)
    } else if !any {
        Err(CapacityError::InvalidDigit)
    } else {
        assert(digits_of(t@) == t@.subrange(if has_sign(t@) { 1int } else { 0int }, t@.len() as int));
        Ok(value)
    }
}

/// Reads the capacity from the text of the device file. White space at
/// either end is ignored; what is left must be a whole number in the range of
/// `i8`, written in decimal digits with an optional sign.
pub fn parse_capacity(text: &str) -> (r: Result<i8, CapacityError>)
    ensures
        r == capacity_of(text@),
        r is Ok <==> ({
            let t = trimmed(text@);
            &&& digits_of(t).len() > 0
            &&& all_digits(digits_of(t))
            &&& i8::MIN <= signed_decimal(digits_of(t), is_negative(t)) <= i8::MAX
        }),
        r matches Ok(v) ==> v == signed_decimal(
            digits_of(trimmed(text@)),
            is_negative(trimmed(text@)),
        ),
{
    proof {
        law_parse_i8(trimmed(text@));
    }
    read_i8(trim(text))
}

} // verus!
