//! Bytes that arrive from outside: where a C string ends, what surrounds a
//! command's output, and which bytes are text.

use vstd::prelude::*;
use vstd::slice::{slice_subrange, slice_to_vec};
use vstd::utf8::{decode_utf8, valid_utf8};

verus! {

/// The bytes of an owned buffer that may be absent.
pub open spec fn bytes_of(buffer: Option<Vec<u8>>) -> Option<Seq<u8>> {
    match buffer {
        Some(bytes) => Some(bytes@),
        None => None,
    }
}

/// The bytes of a borrowed buffer that may be absent.
pub open spec fn slice_bytes_of(buffer: Option<&[u8]>) -> Option<Seq<u8>> {
    match buffer {
        Some(bytes) => Some(bytes@),
        None => None,
    }
}

/// How many bytes of `buf` come before its first zero byte, or all of them
/// if it holds none.
pub open spec fn c_len(buf: Seq<u8>) -> nat
    decreases buf.len(),
{
    if buf.len() == 0 || buf[0] == 0 {
        0
    } else {
        1 + c_len(buf.skip(1))
    }
}

/// The C string at the start of `buf`: its bytes up to the first zero byte.
pub open spec fn c_string(buf: Seq<u8>) -> Seq<u8> {
    buf.take(c_len(buf) as int)
}

/// `c_len(buf)` is the one position that no zero byte precedes and that is
/// either the end of `buf` or a zero byte.
pub proof fn lemma_c_len(buf: Seq<u8>)
    ensures
        c_len(buf) <= buf.len(),
        forall|i: int| 0 <= i < c_len(buf) ==> #[trigger] buf[i] != 0,
        c_len(buf) < buf.len() ==> buf[c_len(buf) as int] == 0,
    decreases buf.len(),
{
    if buf.len() == 0 || buf[0] == 0 {
    } else {
        let rest = buf.skip(1);
        lemma_c_len(rest);
        assert forall|i: int| 0 <= i < c_len(buf) implies #[trigger] buf[i] != 0 by {
            if i > 0 {
                assert(buf[i] == rest[i - 1]);
            }
        }
        if c_len(buf) < buf.len() {
            assert(buf[c_len(buf) as int] == rest[c_len(rest) as int]);
        }
    }
}

/// A position that no zero byte precedes, and that ends `buf` or holds a
/// zero byte, is `c_len(buf)`.
pub proof fn lemma_c_len_unique(buf: Seq<u8>, n: int)
    requires
        0 <= n <= buf.len(),
        forall|i: int| 0 <= i < n ==> #[trigger] buf[i] != 0,
        n < buf.len() ==> buf[n] == 0,
    ensures
        c_len(buf) == n,
{
    lemma_c_len(buf);
    let m = c_len(buf) as int;
    if m < n {
        assert(buf[m] != 0);
    } else if n < m {
        assert(buf[n] != 0);
    }
}

/// Copies the C string at the start of `buf`.
pub fn until_nul(buf: &[u8]) -> (r: Vec<u8>)
    ensures
        r@ == c_string(buf@),
{
    let mut n: usize = 0;
    while n < buf.len() && buf[n] != 0
        invariant
            0 <= n <= buf.len(),
            forall|j: int| 0 <= j < n ==> #[trigger] buf@[j] != 0,
        decreases buf.len() - n,
    {
        n = n + 1;
    }
    proof {
        lemma_c_len_unique(buf@, n as int);
    }
    slice_to_vec(slice_subrange(buf, 0, n))
}

/// The byte `b` is ASCII white space: a space, a tab, a line feed, a form
/// feed or a carriage return.
pub open spec fn is_space(b: u8) -> bool {
    b == 0x20 || b == 0x09 || b == 0x0a || b == 0x0c || b == 0x0d
}

/// `s` without the white space that leads it.
pub open spec fn trim_start(s: Seq<u8>) -> Seq<u8>
    decreases s.len(),
{
    if s.len() > 0 && is_space(s[0]) {
        trim_start(s.skip(1))
    } else {
        s
    }
}

/// `s` without the white space that ends it.
pub open spec fn trim_end(s: Seq<u8>) -> Seq<u8>
    decreases s.len(),
{
    if s.len() > 0 && is_space(s.last()) {
        trim_end(s.drop_last())
    } else {
        s
    }
}

/// `s` without the white space around it.
pub open spec fn trimmed(s: Seq<u8>) -> Seq<u8> {
    trim_end(trim_start(s))
}

/// Skipping `k` leading white space bytes first does not change what
/// `trim_start` leaves.
proof fn lemma_trim_start_skip(s: Seq<u8>, k: int)
    requires
        0 <= k <= s.len(),
        forall|j: int| 0 <= j < k ==> is_space(#[trigger] s[j]),
    ensures
        trim_start(s) == trim_start(s.skip(k)),
    decreases k,
{
    if k == 0 {
        assert(s.skip(0) =~= s);
    } else {
        assert(is_space(s[0]));
        let rest = s.skip(1);
        assert forall|j: int| 0 <= j < k - 1 implies is_space(#[trigger] rest[j]) by {
            assert(rest[j] == s[j + 1]);
        }
        lemma_trim_start_skip(rest, k - 1);
        assert(rest.skip(k - 1) =~= s.skip(k));
    }
}

/// Dropping trailing white space bytes first does not change what
/// `trim_end` leaves.
proof fn lemma_trim_end_take(s: Seq<u8>, k: int)
    requires
        0 <= k <= s.len(),
        forall|j: int| k <= j < s.len() ==> is_space(#[trigger] s[j]),
    ensures
        trim_end(s) == trim_end(s.take(k)),
    decreases s.len() - k,
{
    if k == s.len() {
        assert(s.take(k) =~= s);
    } else {
        assert(is_space(s[s.len() - 1]));
        let rest = s.drop_last();
        lemma_trim_end_take(rest, k);
        assert(rest.take(k) =~= s.take(k));
    }
}

/// What is left of `s` between `a` and `b` is `trimmed(s)`, where nothing
/// but white space comes before `a` and from `b` on, and what is left
/// neither starts nor ends with white space.
pub proof fn lemma_trimmed_unique(s: Seq<u8>, a: int, b: int)
    requires
        0 <= a <= b <= s.len(),
        forall|j: int| 0 <= j < a ==> is_space(#[trigger] s[j]),
        forall|j: int| b <= j < s.len() ==> is_space(#[trigger] s[j]),
        a < b ==> !is_space(s[a]) && !is_space(s[b - 1]),
    ensures
        trimmed(s) == s.subrange(a, b),
{
    let lead = s.skip(a);
    lemma_trim_start_skip(s, a);
    if a == b {
        // Nothing is left: every byte from `a` on is white space.
        assert forall|j: int| 0 <= j < lead.len() implies is_space(#[trigger] lead[j]) by {
            assert(lead[j] == s[j + a]);
        }
        lemma_trim_start_skip(lead, lead.len() as int);
        assert(lead.skip(lead.len() as int) =~= Seq::<u8>::empty());
        assert(s.subrange(a, b) =~= Seq::<u8>::empty());
    } else {
        assert(lead[0] == s[a]);
        assert(trim_start(lead) == lead);
        assert forall|j: int| b - a <= j < lead.len() implies is_space(#[trigger] lead[j]) by {
            assert(lead[j] == s[j + a]);
        }
        lemma_trim_end_take(lead, b - a);
        let kept = lead.take(b - a);
        assert(kept =~= s.subrange(a, b));
        assert(kept.last() == s[b - 1]);
        assert(trim_end(kept) == kept);
    }
}

/// Copies `s` without the white space around it.
pub fn trim(s: &[u8]) -> (r: Vec<u8>)
    ensures
        r@ == trimmed(s@),
{
    let n = s.len();
    let mut a: usize = 0;
    while a < n && is_space_byte(s[a])
        invariant
            0 <= a <= n,
            n == s.len(),
            forall|j: int| 0 <= j < a ==> is_space(#[trigger] s@[j]),
        decreases n - a,
    {
        a = a + 1;
    }
    let mut b: usize = n;
    while b > a && is_space_byte(s[b - 1])
        invariant
            a <= b <= n,
            n == s.len(),
            forall|j: int| b <= j < n ==> is_space(#[trigger] s@[j]),
        decreases b,
    {
        b = b - 1;
    }
    proof {
        lemma_trimmed_unique(s@, a as int, b as int);
    }
    slice_to_vec(slice_subrange(s, a, b))
}

/// Tells whether `b` is ASCII white space.
pub fn is_space_byte(b: u8) -> (r: bool)
    ensures
        r == is_space(b),
{
    b == 0x20 || b == 0x09 || b == 0x0a || b == 0x0c || b == 0x0d
}

/// The text that `bytes` encode in UTF-8, if they encode any.
pub open spec fn text_of(bytes: Seq<u8>) -> Option<Seq<char>> {
    if valid_utf8(bytes) {
        Some(decode_utf8(bytes))
    } else {
        None
    }
}

/// Calls `String::from_utf8` of the standard library. Not proved: that it
/// accepts exactly the byte sequences that are well-formed UTF-8, and that
/// the string it returns holds the characters that the bytes encode.
#[verifier::external_body]
pub(crate) fn string_from_utf8(bytes: Vec<u8>) -> (r: Option<String>)
    ensures
        r is Some == valid_utf8(bytes@),
        r matches Some(s) ==> s@ == decode_utf8(bytes@),
{
    String::from_utf8(bytes).ok()
}

} // verus!
