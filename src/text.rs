use vstd::prelude::*;
use vstd::utf8::{decode_utf8, valid_utf8};

verus! {

/// `n` is where the text in a NUL-terminated buffer `s` ends: before the
/// first NUL, or at the end of the buffer where it holds none.
pub open spec fn is_text_end(s: Seq<u8>, n: int) -> bool {
    &&& 0 <= n <= s.len()
    &&& forall|i: int| 0 <= i < n ==> s[i] != 0
    &&& n < s.len() ==> s[n] == 0
}

/// Where the text in a NUL-terminated buffer ends.
pub open spec fn text_end(s: Seq<u8>) -> int {
    choose|n: int| is_text_end(s, n)
}

/// The text that a NUL-terminated buffer holds: the characters that the
/// bytes before the NUL encode, or `None` where they are not valid UTF-8.
pub open spec fn text_of(s: Seq<u8>) -> Option<Seq<char>> {
    let b = s.subrange(0, text_end(s));
    if valid_utf8(b) {
        Some(decode_utf8(b))
    } else {
        None
    }
}

/// A buffer has exactly one text end.
pub proof fn lemma_text_end_unique(s: Seq<u8>, n: int)
    requires
        is_text_end(s, n),
    ensures
        text_end(s) == n,
{
    let m = text_end(s);
    assert(is_text_end(s, m));
    if m < n {
        assert(s[m] != 0);
    } else if n < m {
        assert(s[n] != 0);
    }
}

/// Relies on std::str::from_utf8: it succeeds exactly on valid UTF-8, and
/// the text then holds the characters that the bytes encode.
#[verifier::external_body]
fn utf8_text(b: &[u8]) -> (r: Option<String>)
    ensures
        r is Some <==> valid_utf8(b@),
        r matches Some(s) ==> s@ == decode_utf8(b@),
{
    std::str::from_utf8(b).ok().map(|s| s.to_string())
}

/// The text that a NUL-terminated buffer holds; `None` where it is not
/// valid UTF-8. A buffer without a NUL ends at its last byte.
pub fn c_text(s: &[u8]) -> (r: Option<String>)
    ensures
        r is Some <==> text_of(s@) is Some,
        r matches Some(t) ==> text_of(s@) == Some(t@),
{
    let mut n: usize = 0;
    while n < s.len() && s[n] != 0
        invariant
            n <= s@.len(),
            forall|i: int| 0 <= i < n ==> s@[i] != 0,
        decreases s@.len() - n,
    {
        n += 1;
    }
    proof {
        lemma_text_end_unique(s@, n as int);
    }
    let b = vstd::slice::slice_subrange(s, 0, n);
    utf8_text(b)
}

} // verus!
