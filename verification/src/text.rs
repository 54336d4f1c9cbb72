//! Texts that the runtime writes into buffers as zero-terminated strings.

use vstd::prelude::*;

verus! {

/// `memchr::memchr` searches a byte slice from its start. The contract says
/// what its documentation says: the index returned is that of the first
/// occurrence of `needle` and lies inside the slice, and nothing is returned
/// exactly when the slice does not hold `needle`.
pub assume_specification[ memchr::memchr ](needle: u8, haystack: &[u8]) -> (found: Option<usize>)
    ensures
        match found {
            Some(at) => at < haystack@.len() && haystack@[at as int] == needle && forall|k: int|
                0 <= k < at ==> haystack@[k] != needle,
            None => forall|k: int| 0 <= k < haystack@.len() ==> haystack@[k] != needle,
        },
;

/// `text` is what a zero-terminated buffer holds: the bytes of `buffer` in
/// front of its first zero byte.
pub open spec fn is_text_of(text: Seq<u8>, buffer: Seq<u8>) -> bool {
    &&& text.len() < buffer.len()
    &&& text == buffer.subrange(0, text.len() as int)
    &&& buffer[text.len() as int] == 0u8
    &&& !text.contains(0u8)
}

/// `text` is the terminated text of `buffer`: the bytes of `buffer` in front
/// of its first zero byte, or all of them where it has none, followed by
/// exactly one zero byte.
pub open spec fn is_terminated_text_of(text: Seq<u8>, buffer: Seq<u8>) -> bool {
    &&& text.len() > 0
    &&& text.last() == 0u8
    &&& !text.drop_last().contains(0u8)
    &&& text.drop_last().is_prefix_of(buffer)
    &&& text.len() - 1 == buffer.len() || buffer[text.len() - 1] == 0u8
}

/// A buffer has at most one terminated text.
pub proof fn lemma_terminated_text_unique(a: Seq<u8>, b: Seq<u8>, buffer: Seq<u8>)
    requires
        is_terminated_text_of(a, buffer),
        is_terminated_text_of(b, buffer),
    ensures
        a == b,
{
    let x = a.drop_last();
    let y = b.drop_last();
    if x.len() < y.len() {
        assert(y[x.len() as int] == buffer[x.len() as int]);
        assert(y.contains(0u8));
    }
    if y.len() < x.len() {
        assert(x[y.len() as int] == buffer[y.len() as int]);
        assert(x.contains(0u8));
    }
    assert(x =~= y);
    assert(a =~= x.push(0u8));
    assert(b =~= y.push(0u8));
}

/// The text in a buffer that the runtime filled with a zero-terminated
/// string: the bytes in front of the first zero byte, or nothing where the
/// buffer holds no zero byte.
pub fn text_before_nul(buffer: Vec<u8>) -> (r: Option<Vec<u8>>)
    ensures
        match r {
            Some(text) => is_text_of(text@, buffer@),
            None => !buffer@.contains(0u8),
        },
{
    let mut buffer = buffer;
    let ghost filled = buffer@;
    match memchr::memchr(0, buffer.as_slice()) {
        Some(strlen) => {
            buffer.truncate(strlen);
            assert(buffer@ == filled.subrange(0, strlen as int));
            Some(buffer)
        },
        None => None,
    }
}

/// The text of a reply as a zero-terminated string: the bytes in front of the
/// first zero byte of `buffer` followed by exactly one zero byte. A buffer
/// without a zero byte gives all its bytes and the terminator, so the empty
/// reply gives the terminator alone.
pub fn terminated_text(buffer: Vec<u8>) -> (text: Vec<u8>)
    ensures
        is_terminated_text_of(text@, buffer@),
{
    let mut text = buffer;
    let len = text.len();
    match memchr::memchr(0, text.as_slice()) {
        Some(at) => {
            assert(at < len);
            text.truncate(at + 1);
            assert(text@ == buffer@.subrange(0, at + 1));
            assert(text@.drop_last() =~= buffer@.subrange(0, at as int));
        },
        None => {
            text.push(0);
            assert(text@.drop_last() =~= buffer@);
        },
    }
    text
}

} // verus!
