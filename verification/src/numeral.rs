//! Whole numbers as upstream sends them: decimal text with an optional sign.

use vstd::prelude::*;

verus! {

/// Whether `c` is one of the digits `0` to `9`.
pub open spec fn is_digit(c: char) -> bool {
    '0' <= c && c <= '9'
}

/// The number that a run of digits denotes in base ten; the empty run denotes 0.
pub open spec fn decimal_value(digits: Seq<char>) -> int
    decreases digits.len(),
{
    if digits.len() == 0 {
        0
    } else {
        10 * decimal_value(digits.drop_last()) + (digits.last() as int - '0' as int)
    }
}

/// How many characters of `text` are its sign: a leading `+`, or a leading `-` where
/// a minus is allowed.
pub open spec fn sign_len(text: Seq<char>, signed: bool) -> int {
    if text.len() > 0 && (text[0] == '+' || (signed && text[0] == '-')) {
        1
    } else {
        0
    }
}

/// Whether `text` is a numeral: an optional sign, then one digit or more, and
/// nothing else.
pub open spec fn is_numeral(text: Seq<char>, signed: bool) -> bool {
    &&& sign_len(text, signed) < text.len()
    &&& forall|i: int| sign_len(text, signed) <= i < text.len() ==> is_digit(#[trigger] text[i])
}

/// The number that a numeral denotes.
pub open spec fn numeral_value(text: Seq<char>, signed: bool) -> int {
    let magnitude = decimal_value(text.skip(sign_len(text, signed)));
    if signed && text.len() > 0 && text[0] == '-' {
        -magnitude
    } else {
        magnitude
    }
}

/// A run of digits denotes at least what any of its leading parts denotes.
proof fn lemma_value_grows(digits: Seq<char>, k: int)
    requires
        0 <= k <= digits.len(),
        forall|i: int| 0 <= i < digits.len() ==> is_digit(#[trigger] digits[i]),
    ensures
        0 <= decimal_value(digits.take(k)) <= decimal_value(digits),
    decreases digits.len(),
{
    if digits.len() == 0 {
        assert(digits.take(k) =~= digits);
    } else if k == digits.len() {
        assert(digits.take(k) =~= digits);
        lemma_value_grows(digits.drop_last(), k - 1);
        assert(is_digit(digits[digits.len() - 1]));
    } else {
        lemma_value_grows(digits.drop_last(), k);
        assert(digits.drop_last().take(k) =~= digits.take(k));
        assert(is_digit(digits[digits.len() - 1]));
    }
}

/// The largest magnitude that the scan follows exactly: one more than `u32::MAX`.
pub const SCAN_LIMIT: u64 = 0x1_0000_0000;

/// Reads a numeral: whether it is negative, and its magnitude. `None` where `text`
/// is no numeral, or where its magnitude is above [`SCAN_LIMIT`].
fn scan(text: &str, signed: bool) -> (read: Option<(bool, u64)>)
    ensures
        match read {
            Some((negative, magnitude)) => {
                &&& is_numeral(text@, signed)
                &&& negative == (signed && text@[0] == '-')
                &&& magnitude == decimal_value(text@.skip(sign_len(text@, signed)))
                &&& magnitude <= SCAN_LIMIT
            },
            None => !is_numeral(text@, signed) || decimal_value(text@.skip(sign_len(text@, signed))) > SCAN_LIMIT,
        },
{
    let ghost start = sign_len(text@, signed);
    let ghost digits = text@.skip(start);
    let mut first = true;
    let mut seen_digit = false;
    let mut negative = false;
    let mut magnitude: u64 = 0;
    for c in it: text.chars()
        invariant
            it.seq() == text@,
            start == sign_len(text@, signed),
            digits == text@.skip(start),
            first == (it.index() == 0),
            !first ==> start <= it.index(),
            seen_digit == (it.index() > start),
            negative == (!first && signed && text@[0] == '-'),
            forall|i: int| start <= i < it.index() ==> is_digit(#[trigger] text@[i]),
            !first ==> magnitude == decimal_value(digits.take(it.index() - start)),
            first ==> magnitude == 0,
            magnitude <= SCAN_LIMIT,
    {
        let ghost at = it.index() as int;
        assert(c == text@[at]);
        if first && (c == '+' || (signed && c == '-')) {
            negative = c == '-';
            proof {
                assert(digits.take(0) =~= Seq::<char>::empty());
            }
        } else if '0' <= c && c <= '9' {
            let digit: u64 = (c as u32 - '0' as u32) as u64;
            proof {
                let upto = digits.take(at + 1 - start);
                assert(upto.drop_last() =~= digits.take(at - start));
                assert(upto.last() == c);
                if first {
                    assert(digits.take(0) =~= Seq::<char>::empty());
                }
                assert(decimal_value(upto) == 10 * decimal_value(upto.drop_last()) + (upto.last() as int - '0' as int));
            }
            magnitude = magnitude * 10 + digit;
            seen_digit = true;
            if magnitude > SCAN_LIMIT {
                proof {
                    if is_numeral(text@, signed) {
                        assert forall|i: int| 0 <= i < digits.len() implies is_digit(#[trigger] digits[i]) by {
                            assert(is_digit(text@[i + start]));
                        }
                        lemma_value_grows(digits, at + 1 - start);
                    }
                }
                return None;
            }
        } else {
            assert(!is_digit(text@[at]));
            return None;
        }
        first = false;
    }
    if seen_digit {
        assert(digits.take(text@.len() - start) =~= digits);
        Some((negative, magnitude))
    } else {
        None
    }
}

/// What a numeral without minus sign denotes, where that fits in 32 bits.
pub open spec fn as_u32(text: Seq<char>) -> Option<u32> {
    if is_numeral(text, false) && numeral_value(text, false) <= u32::MAX {
        Some(numeral_value(text, false) as u32)
    } else {
        None
    }
}

/// What a numeral denotes, where that fits in 32 bits with a sign.
pub open spec fn as_i32(text: Seq<char>) -> Option<i32> {
    if is_numeral(text, true) && i32::MIN <= numeral_value(text, true) <= i32::MAX {
        Some(numeral_value(text, true) as i32)
    } else {
        None
    }
}

/// Reads an unsigned number: an optional `+`, then digits only. Text that is no such
/// numeral, the empty text and a lone sign among it, and a number above `u32::MAX`
/// give `None`.
pub fn parse_u32(text: &str) -> (number: Option<u32>)
    ensures
        number == as_u32(text@),
{
    match scan(text, false) {
        Some((_, magnitude)) => {
            if magnitude <= 0xffff_ffff {
                Some(magnitude as u32)
            } else {
                None
            }
        },
        None => None,
    }
}

/// Reads a signed number: an optional `+` or `-`, then digits only. Text that is no
/// such numeral and a number outside `i32::MIN ..= i32::MAX` give `None`.
pub fn parse_i32(text: &str) -> (number: Option<i32>)
    ensures
        number == as_i32(text@),
{
    match scan(text, true) {
        Some((negative, magnitude)) => {
            if negative {
                if magnitude <= 0x8000_0000 {
                    Some((0 - magnitude as i64) as i32)
                } else {
                    None
                }
            } else if magnitude <= 0x7fff_ffff {
                Some(magnitude as i32)
            } else {
                None
            }
        },
        None => None,
    }
}

} // verus!
