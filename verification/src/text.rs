//! String helpers that the standard library offers without a specification.

use vstd::prelude::*;
use vstd::string::StrSliceExecFns;

verus! {

/// Compares two string slices with `str::eq`.
///
/// Trusted: the standard library documents string equality as equality of
/// contents, which is what the contract claims over the views.
#[verifier::external_body]
pub(crate) fn str_eq(a: &str, b: &str) -> (res: bool)
    ensures
        res == (a@ == b@),
{
    a == b
}

/// Appending a character with `String::push`.
///
/// Trusted: the standard library documents that the character is appended
/// to the end of the string.
pub assume_specification[ String::push ](s: &mut String, c: char)
    ensures
        final(s)@ == old(s)@.push(c),
;

/// Whether a character is whitespace: whether it has the Unicode property
/// White_Space. These are the control characters from tab to carriage
/// return, the space, the next-line control, the no-break space, and the
/// spaces, line and paragraph separators of the general punctuation and
/// CJK blocks.
pub open spec fn white_space(c: char) -> bool {
    let code = c as u32;
    ||| 0x09 <= code <= 0x0D
    ||| code == 0x20
    ||| code == 0x85
    ||| code == 0xA0
    ||| code == 0x1680
    ||| 0x2000 <= code <= 0x200A
    ||| code == 0x2028
    ||| code == 0x2029
    ||| code == 0x202F
    ||| code == 0x205F
    ||| code == 0x3000
}

/// Tests whether a character is whitespace, as the standard library's
/// `char::is_whitespace` does.
pub fn is_white_space(c: char) -> (b: bool)
    ensures
        b == white_space(c),
{
    let code = c as u32;
    (0x09 <= code && code <= 0x0D) || code == 0x20 || code == 0x85 || code == 0xA0 || code
        == 0x1680 || (0x2000 <= code && code <= 0x200A) || code == 0x2028 || code == 0x2029 || code
        == 0x202F || code == 0x205F || code == 0x3000
}

/// The value of a decimal digit; none for any other character.
pub open spec fn digit_value(c: char) -> Option<nat> {
    if '0' <= c <= '9' {
        Some((c as u32 - '0' as u32) as nat)
    } else {
        None
    }
}

/// The number a run of decimal digits denotes; none if a character is no
/// digit. The empty run denotes zero.
pub open spec fn digits_value(digits: Seq<char>) -> Option<nat>
    decreases digits.len(),
{
    if digits.len() == 0 {
        Some(0)
    } else {
        match (digits_value(digits.drop_last()), digit_value(digits.last())) {
            (Some(value), Some(digit)) => Some(value * 10 + digit),
            _ => None,
        }
    }
}

/// The number a text denotes in decimal: an optional plus sign and at
/// least one digit, with a value that fits in 64 bits. Anything else
/// denotes none.
pub open spec fn decimal_u64(text: Seq<char>) -> Option<u64> {
    let digits = if text.len() > 0 && text[0] == '+' {
        text.skip(1)
    } else {
        text
    };
    if digits.len() == 0 {
        None
    } else {
        match digits_value(digits) {
            Some(value) => if value <= u64::MAX {
                Some(value as u64)
            } else {
                None
            },
            None => None,
        }
    }
}

proof fn lemma_digits_grow(digits: Seq<char>, k: int)
    requires
        0 <= k <= digits.len(),
    ensures
        digits_value(digits) matches Some(value) ==> digits_value(digits.take(k)) matches Some(
            part,
        ) && part <= value,
    decreases digits.len(),
{
    if k < digits.len() {
        let head = digits.drop_last();
        lemma_digits_grow(head, k);
        assert(head.take(k) =~= digits.take(k));
    } else {
        assert(digits.take(k) =~= digits);
    }
}

/// Reads a number written in decimal, as the standard library's parser for
/// `u64` does: an optional plus sign, then digits only; not empty, and
/// not beyond the range.
pub fn parse_u64(text: &str) -> (res: Option<u64>)
    ensures
        res == decimal_u64(text@),
{
    let len = text.unicode_len();
    let start: usize = if len > 0 && text.get_char(0) == '+' {
        1
    } else {
        0
    };
    if start >= len {
        return None;
    }
    let ghost digits = text@.skip(start as int);
    let mut value: u64 = 0;
    let mut i: usize = start;
    assert(digits.take(0) =~= Seq::<char>::empty());
    assert(text@.skip(0) =~= text@);
    assert(digits == if text@.len() > 0 && text@[0] == '+' {
        text@.skip(1)
    } else {
        text@
    });
    while i < len
        invariant
            start <= i <= len,
            len == text@.len(),
            digits == text@.skip(start as int),
            decimal_u64(text@) == match digits_value(digits) {
                Some(all) => if all <= u64::MAX {
                    Some(all as u64)
                } else {
                    None
                },
                None => None,
            },
            digits_value(digits.take(i - start)) == Some(value as nat),
        decreases len - i,
    {
        let c = text.get_char(i);
        let code = c as u32;
        proof {
            let next = digits.take(i - start + 1);
            assert(next.drop_last() =~= digits.take(i - start));
            assert(next.last() == c);
            lemma_digits_grow(digits, i - start + 1);
            assert('0' as u32 == 48 && '9' as u32 == 57);
            assert(digit_value(c).is_some() == (48 <= code <= 57));
            if 48 <= code <= 57 {
                assert(digits_value(next) == Some(value as nat * 10 + (code - 48) as nat));
            } else {
                assert(digits_value(next).is_none());
            }
        }
        if code < 48 || code > 57 {
            return None;
        }
        let digit = (code - 48) as u64;
        if value > (u64::MAX - digit) / 10 {
            assert(value * 10 + digit > u64::MAX);
            return None;
        }
        value = value * 10 + digit;
        i += 1;
    }
    assert(digits.take(len - start) =~= digits);
    Some(value)
}

/// What a text becomes under `str::to_lowercase`.
pub uninterp spec fn lowercased(text: Seq<char>) -> Seq<char>;

/// Lower-cases a text with `str::to_lowercase`.
///
/// Trusted: the result is a function of the text alone; the contract gives
/// it the name [`lowercased`] and claims nothing more of it.
#[verifier::external_body]
pub(crate) fn to_lowercase(text: &str) -> (lower: String)
    ensures
        lower@ == lowercased(text@),
{
    text.to_lowercase()
}

} // verus!
