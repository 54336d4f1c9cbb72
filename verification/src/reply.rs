//! Buffers offered to the runtime and what becomes of them once it has
//! replied.
//!
//! A request for a variable-length answer takes a buffer and its length. The
//! runtime fills what fits and reports how many items the full answer has.
//! The caller then either keeps the reported items or offers a longer buffer
//! and asks again.

use vstd::prelude::*;

verus! {

/// `len` items, all of them `fill`.
pub open spec fn filled<T>(len: int, fill: T) -> Seq<T> {
    Seq::new(len as nat, |i: int| fill)
}

/// What is kept of a buffer of which the runtime reported `reported` items:
/// that many from its start, and no more than the buffer has.
pub open spec fn kept<T>(buffer: Seq<T>, reported: int) -> Seq<T> {
    if 0 <= reported <= buffer.len() {
        buffer.subrange(0, reported)
    } else {
        buffer
    }
}

/// A buffer made at least `len` items long: what it held, then as many
/// `fill` as are missing.
pub open spec fn grown<T>(buffer: Seq<T>, len: int, fill: T) -> Seq<T> {
    if len > buffer.len() {
        buffer + filled(len - buffer.len(), fill)
    } else {
        buffer
    }
}

/// A buffer that grew for a report holds an answer of that size: it keeps
/// what it held, and of the same report it keeps exactly that many items.
pub proof fn lemma_grown_holds<T>(buffer: Seq<T>, reported: int, fill: T)
    requires
        0 <= reported,
    ensures
        buffer.is_prefix_of(grown(buffer, reported, fill)),
        grown(buffer, reported, fill).len() >= reported,
        kept(grown(buffer, reported, fill), reported).len() == reported,
{
    let longer = grown(buffer, reported, fill);
    assert(buffer =~= longer.subrange(0, buffer.len() as int));
}

/// What is kept of a buffer is its front: nothing is moved and nothing is
/// added.
pub proof fn lemma_kept_is_front<T>(buffer: Seq<T>, reported: int)
    ensures
        kept(buffer, reported).is_prefix_of(buffer),
        kept(buffer, reported).len() <= buffer.len(),
        0 <= reported <= buffer.len() ==> kept(buffer, reported).len() == reported,
{
    let front = kept(buffer, reported);
    assert(front =~= buffer.subrange(0, front.len() as int));
}

/// The value where the runtime reported success, nothing otherwise.
pub fn some_if<T>(value: T, success: bool) -> (r: Option<T>)
    ensures
        r == if success {
            Some(value)
        } else {
            None
        },
{
    if success {
        Some(value)
    } else {
        None
    }
}

/// A buffer of `len` zero bytes to offer to the runtime.
pub fn zeroed(len: usize) -> (buffer: Vec<u8>)
    ensures
        buffer@ == filled(len as int, 0u8),
{
    let buffer = vec![0u8; len];
    assert(buffer@ =~= filled(len as int, 0u8));
    buffer
}

/// Cuts the buffer down to the items that the runtime reported.
pub fn keep_reported<T>(buffer: &mut Vec<T>, reported: u32)
    ensures
        final(buffer)@ == kept(old(buffer)@, reported as int),
{
    buffer.truncate(reported as usize);
}

/// Makes the buffer at least `len` items long by appending `fill`.
pub fn grow_to<T: Copy>(buffer: &mut Vec<T>, len: u32, fill: T)
    ensures
        final(buffer)@ == grown(old(buffer)@, len as int, fill),
{
    let target = len as usize;
    while buffer.len() < target
        invariant
            target == len as usize,
            old(buffer)@.len() <= buffer@.len(),
            buffer@.len() <= target || buffer@ == old(buffer)@,
            buffer@ == old(buffer)@ + filled(buffer@.len() - old(buffer)@.len(), fill),
        decreases target - buffer@.len(),
    {
        buffer.push(fill);
        assert(buffer@ =~= old(buffer)@ + filled(buffer@.len() - old(buffer)@.len(), fill));
    }
    assert(buffer@ =~= grown(old(buffer)@, len as int, fill));
}

/// Settles a request that cannot fail. The answer has arrived exactly when
/// the reported items fit into the buffer that was offered: then the buffer
/// is cut down to them. Otherwise the buffer is made long enough for the next
/// request.
pub fn settle<T: Copy>(buffer: &mut Vec<T>, reported: u32, fill: T) -> (done: bool)
    ensures
        done == (reported as int <= old(buffer)@.len()),
        done ==> final(buffer)@ == kept(old(buffer)@, reported as int),
        !done ==> final(buffer)@ == grown(old(buffer)@, reported as int, fill),
{
    if reported as usize <= buffer.len() {
        keep_reported(buffer, reported);
        true
    } else {
        grow_to(buffer, reported, fill);
        false
    }
}

} // verus!
