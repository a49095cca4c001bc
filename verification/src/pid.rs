//! Decimal process ids.

use vstd::prelude::*;
use vstd::utf8::{
    encode_utf8, encode_utf8_valid_utf8, is_ascii_chars, is_ascii_chars_encode_utf8, valid_utf8,
};

verus! {

/// The byte `b` is an ASCII decimal digit.
pub open spec fn is_digit(b: u8) -> bool {
    0x30 <= b <= 0x39
}

/// Every byte of `s` is an ASCII decimal digit.
pub open spec fn all_digits(s: Seq<u8>) -> bool {
    forall|i: int| 0 <= i < s.len() ==> is_digit(#[trigger] s[i])
}

/// The number that the decimal digits `s` write, most significant first.
pub open spec fn decimal_value(s: Seq<u8>) -> nat
    decreases s.len(),
{
    if s.len() == 0 {
        0
    } else {
        decimal_value(s.drop_last()) * 10 + (s.last() - 0x30) as nat
    }
}

/// `text` without the one plus sign that may lead it.
pub open spec fn unsigned_part(text: Seq<u8>) -> Seq<u8> {
    if text.len() > 0 && text[0] == 0x2b {
        text.skip(1)
    } else {
        text
    }
}

/// `text` writes a process id: an optional plus sign, then at least one
/// decimal digit and nothing else, with a value from 1 to `i32::MAX`.
pub open spec fn is_pid_text(text: Seq<u8>) -> bool {
    let digits = unsigned_part(text);
    &&& digits.len() > 0
    &&& all_digits(digits)
    &&& 0 < decimal_value(digits) <= i32::MAX
}

/// The process id that `text` writes, if it writes one.
pub open spec fn pid_of(text: Seq<u8>) -> Option<i32> {
    if is_pid_text(text) {
        Some(decimal_value(unsigned_part(text)) as i32)
    } else {
        None
    }
}

/// Appending digits never makes the value smaller.
pub proof fn lemma_decimal_value_prefix(s: Seq<u8>, k: int)
    requires
        0 <= k <= s.len(),
        all_digits(s),
    ensures
        decimal_value(s.take(k)) <= decimal_value(s),
    decreases s.len() - k,
{
    if k == s.len() {
        assert(s.take(k) =~= s);
    } else {
        lemma_decimal_value_prefix(s, k + 1);
        let t = s.take(k + 1);
        assert(t.drop_last() =~= s.take(k));
        assert(is_digit(s[k]));
        assert(t.last() == s[k]);
    }
}

/// Text that writes a process id is ASCII, so it is well-formed UTF-8.
pub proof fn lemma_pid_text_is_utf8(text: Seq<u8>)
    requires
        is_pid_text(text),
    ensures
        valid_utf8(text),
{
    let chars = Seq::new(text.len(), |i: int| text[i] as char);
    assert forall|i: int| 0 <= i < text.len() implies text[i] < 0x80 by {
        let digits = unsigned_part(text);
        if digits.len() == text.len() {
            assert(is_digit(digits[i]));
        } else if i > 0 {
            assert(is_digit(digits[i - 1]));
            assert(digits[i - 1] == text[i]);
        }
    }
    assert(is_ascii_chars(chars));
    is_ascii_chars_encode_utf8(chars);
    assert(encode_utf8(chars) =~= text) by {
        assert forall|i: int| 0 <= i < text.len() implies encode_utf8(chars)[i] == text[i] by {
            assert(chars[i] as u8 == encode_utf8(chars)[i]);
            assert(chars[i] as u8 == text[i]);
        }
    }
    encode_utf8_valid_utf8(chars);
}

/// No text writes a process id that is empty, that is not UTF-8, or that
/// holds a byte that is neither a digit nor a plus sign in front.
pub proof fn lemma_not_pid_text(text: Seq<u8>)
    ensures
        text.len() == 0 ==> !is_pid_text(text),
        !valid_utf8(text) ==> !is_pid_text(text),
        forall|i: int|
            0 <= i < text.len() && !is_digit(#[trigger] text[i]) && !(i == 0 && text[0] == 0x2b)
                ==> !is_pid_text(text),
{
    if is_pid_text(text) {
        lemma_pid_text_is_utf8(text);
        let digits = unsigned_part(text);
        assert forall|i: int|
            0 <= i < text.len() && !(i == 0 && text[0] == 0x2b) implies is_digit(
            #[trigger] text[i],
        ) by {
            if digits.len() == text.len() {
                assert(is_digit(digits[i]));
            } else {
                assert(is_digit(digits[i - 1]));
                assert(digits[i - 1] == text[i]);
            }
        }
    }
}

/// Reads a process id from the bytes of a command argument.
pub fn parse_pid(text: &[u8]) -> (r: Option<i32>)
    ensures
        r == pid_of(text@),
{
    let n = text.len();
    let start: usize = if n > 0 && text[0] == 0x2b { 1 } else { 0 };
    let ghost digits = unsigned_part(text@);
    assert(digits =~= text@.skip(start as int));
    if start == n {
        return None;
    }
    let mut value: i32 = 0;
    let mut i: usize = start;
    while i < n
        invariant
            start <= i <= n,
            n == text.len(),
            digits == text@.skip(start as int),
            digits == unsigned_part(text@),
            all_digits(digits.take(i - start)),
            value == decimal_value(digits.take(i - start)),
        decreases n - i,
    {
        let b = text[i];
        let ghost seen = digits.take(i - start);
        let ghost next = digits.take(i - start + 1);
        assert(next.drop_last() =~= seen);
        assert(next.last() == b);
        if b < 0x30 || b > 0x39 {
            assert(!is_digit(digits[i - start]));
            return None;
        }
        let d: i32 = (b - 0x30) as i32;
        assert forall|j: int| 0 <= j < next.len() implies is_digit(#[trigger] next[j]) by {
            if j < seen.len() {
                assert(next[j] == seen[j]);
            }
        }
        if value > (i32::MAX - d) / 10 {
            proof {
                assert(value * 10 + d > i32::MAX);
                assert(decimal_value(next) > i32::MAX);
                if all_digits(digits) {
                    lemma_decimal_value_prefix(digits, i - start + 1);
                }
            }
            return None;
        }
        value = value * 10 + d;
        i = i + 1;
    }
    assert(digits.take(i - start) =~= digits);
    if value == 0 {
        None
    } else {
        Some(value)
    }
}

} // verus!
