//! Names of the native interface and the identifiers made of them.
//!
//! All names are byte strings. The separators, prefixes and letters that the
//! rules speak of are ASCII, so a rule cuts a name between characters
//! whenever the name is valid UTF-8.

use vstd::prelude::*;
use vstd::string::StringSliceAdditionalSpecFns;
use crate::bytes::{slice_from, starts_with};

verus! {

/// The byte `_`.
pub const UNDERSCORE: u8 = 95;

/// The byte `:`.
pub const COLON: u8 = 58;

/// The byte `A`.
pub const UPPER_A: u8 = 65;

/// The byte `E`.
pub const UPPER_E: u8 = 69;

/// The byte `Z`.
pub const UPPER_Z: u8 = 90;

/// The byte `e`.
pub const LOWER_E: u8 = 101;

/// An ASCII upper-case letter.
pub open spec fn is_upper(b: u8) -> bool {
    UPPER_A <= b <= UPPER_Z
}

/// A name that only marks the end of an enumeration: it starts with `MAX_`
/// and is made of upper-case letters and underscores alone.
pub open spec fn is_max(name: Seq<u8>) -> bool {
    &&& "MAX_".spec_bytes().is_prefix_of(name)
    &&& forall|i: int| 0 <= i < name.len() ==> is_upper(#[trigger] name[i]) || name[i] == UNDERSCORE
}

/// The name without its underscores.
pub open spec fn without_underscores(name: Seq<u8>) -> Seq<u8> {
    name.filter(|b: u8| b != UNDERSCORE)
}

/// The name without the copies of `pattern` that it starts with.
pub open spec fn trim_start(name: Seq<u8>, pattern: Seq<u8>) -> Seq<u8>
    decreases name.len(),
{
    if pattern.len() > 0 && pattern.is_prefix_of(name) {
        trim_start(name.skip(pattern.len() as int), pattern)
    } else {
        name
    }
}

/// Where the scope of a qualified name ends: the index behind the first
/// `::` that starts at `from` or later, if there is one.
pub open spec fn scope_end(name: Seq<u8>, from: int) -> Option<int>
    decreases name.len() - from,
{
    if from < 0 || from + 2 > name.len() {
        None
    } else if name[from] == COLON && name[from + 1] == COLON {
        Some(from + 2)
    } else {
        scope_end(name, from + 1)
    }
}

/// The name without its scope: what follows the first `::`, or the whole
/// name where it has none.
pub open spec fn unqualified(name: Seq<u8>) -> Seq<u8> {
    match scope_end(name, 0) {
        Some(end) => name.skip(end),
        None => name,
    }
}

/// The identifier of the generated type: the unqualified name without its
/// leading `E`s, then without its leading `VR`s, then without underscores.
pub open spec fn type_ident(name: Seq<u8>) -> Seq<u8> {
    without_underscores(
        trim_start(trim_start(unqualified(name), "E".spec_bytes()), "VR".spec_bytes()),
    )
}

/// The identifier of a generated value: the native name behind the first
/// `cut` bytes, without underscores, and with a leading `e` in upper case.
/// There is none where the name is shorter than `cut` or nothing is left.
pub open spec fn value_ident(cut: int, name: Seq<u8>) -> Option<Seq<u8>> {
    if cut < 0 || cut > name.len() {
        None
    } else {
        let bare = without_underscores(name.skip(cut));
        if bare.len() == 0 {
            None
        } else if bare[0] == LOWER_E {
            Some(bare.update(0, UPPER_E))
        } else {
            Some(bare)
        }
    }
}

/// An identifier of a type holds no underscore.
pub proof fn lemma_type_ident_shape(name: Seq<u8>)
    ensures
        forall|i: int| 0 <= i < type_ident(name).len() ==> type_ident(name)[i] != UNDERSCORE,
{
    let keep = |b: u8| b != UNDERSCORE;
    let bare = trim_start(trim_start(unqualified(name), "E".spec_bytes()), "VR".spec_bytes());
    assert forall|i: int| 0 <= i < type_ident(name).len() implies type_ident(name)[i]
        != UNDERSCORE by {
        bare.lemma_filter_pred(keep, i);
    }
}

/// An identifier of a value is not empty, holds no underscore and does not
/// start with a lower-case `e`.
pub proof fn lemma_value_ident_shape(cut: int, name: Seq<u8>)
    requires
        value_ident(cut, name).is_some(),
    ensures
        value_ident(cut, name).unwrap().len() > 0,
        value_ident(cut, name).unwrap()[0] != LOWER_E,
        forall|i: int|
            0 <= i < value_ident(cut, name).unwrap().len() ==> value_ident(cut, name).unwrap()[i]
                != UNDERSCORE,
{
    let keep = |b: u8| b != UNDERSCORE;
    let rest = name.skip(cut);
    let bare = without_underscores(rest);
    let ident = value_ident(cut, name).unwrap();
    assert forall|i: int| 0 <= i < ident.len() implies ident[i] != UNDERSCORE by {
        rest.lemma_filter_pred(keep, i);
    }
}

/// Whether the name only marks the end of an enumeration.
pub fn is_max_entry(name: &[u8]) -> (r: bool)
    ensures
        r == is_max(name@),
{
    if !starts_with(name, "MAX_".as_bytes()) {
        return false;
    }
    let mut i: usize = 0;
    while i < name.len()
        invariant
            i <= name@.len(),
            forall|k: int| 0 <= k < i ==> is_upper(#[trigger] name@[k]) || name@[k] == UNDERSCORE,
        decreases name@.len() - i,
    {
        let b = name[i];
        if !((UPPER_A <= b && b <= UPPER_Z) || b == UNDERSCORE) {
            return false;
        }
        i += 1;
    }
    true
}

/// Appends `name` without its underscores to `out`.
pub fn append_without_underscores(out: &mut Vec<u8>, name: &[u8])
    ensures
        final(out)@ == old(out)@ + without_underscores(name@),
{
    let mut i: usize = 0;
    proof {
        reveal(Seq::filter);
        assert(name@.take(0) =~= Seq::<u8>::empty());
    }
    while i < name.len()
        invariant
            i <= name@.len(),
            out@ == old(out)@ + without_underscores(name@.take(i as int)),
        decreases name@.len() - i,
    {
        let b = name[i];
        proof {
            let keep = |b: u8| b != UNDERSCORE;
            assert(name@.take(i + 1) =~= name@.take(i as int).push(b));
            name@.take(i as int).lemma_filter_push(b, keep);
        }
        if b != UNDERSCORE {
            out.push(b);
        }
        assert(out@ =~= old(out)@ + without_underscores(name@.take(i + 1)));
        i += 1;
    }
    assert(name@.take(i as int) =~= name@);
}

/// The part of `name` behind the copies of `pattern` that it starts with.
pub fn trimmed_start<'a>(name: &'a [u8], pattern: &[u8]) -> (r: &'a [u8])
    ensures
        r@ == trim_start(name@, pattern@),
{
    if pattern.len() == 0 {
        return name;
    }
    let mut at: usize = 0;
    assert(name@.skip(0) =~= name@);
    while name.len() - at >= pattern.len() && starts_with(slice_from(name, at), pattern)
        invariant
            at <= name@.len(),
            pattern@.len() > 0,
            trim_start(name@, pattern@) == trim_start(name@.skip(at as int), pattern@),
        decreases name@.len() - at,
    {
        proof {
            assert(name@.skip(at as int).skip(pattern@.len() as int) =~= name@.skip(
                at + pattern@.len(),
            ));
        }
        at += pattern.len();
    }
    slice_from(name, at)
}

/// The name without its scope.
pub fn unqualified_name<'a>(name: &'a [u8]) -> (r: &'a [u8])
    ensures
        r@ == unqualified(name@),
{
    let mut at: usize = 0;
    while name.len() - at >= 2
        invariant
            at <= name@.len(),
            scope_end(name@, 0) == scope_end(name@, at as int),
        decreases name@.len() - at,
    {
        if name[at] == COLON && name[at + 1] == COLON {
            return slice_from(name, at + 2);
        }
        at += 1;
    }
    name
}

/// The identifier of the type generated for the enumeration `name`.
pub fn enum_type_name(name: &[u8]) -> (r: Vec<u8>)
    ensures
        r@ == type_ident(name@),
{
    let bare = unqualified_name(name);
    let bare = trimmed_start(bare, "E".as_bytes());
    let bare = trimmed_start(bare, "VR".as_bytes());
    let mut r: Vec<u8> = Vec::new();
    append_without_underscores(&mut r, bare);
    assert(r@ =~= type_ident(name@));
    r
}

/// The identifier of the value generated for the native name
/// `value_cpp_name`, of which the first `common_len` bytes are left out.
pub fn value_name_rs(common_len: usize, value_cpp_name: &[u8]) -> (r: Option<Vec<u8>>)
    ensures
        match r {
            Some(ident) => value_ident(common_len as int, value_cpp_name@) == Some(ident@),
            None => value_ident(common_len as int, value_cpp_name@).is_none(),
        },
{
    if common_len > value_cpp_name.len() {
        return None;
    }
    let mut value_name: Vec<u8> = Vec::new();
    append_without_underscores(&mut value_name, slice_from(value_cpp_name, common_len));
    assert(value_name@ =~= without_underscores(value_cpp_name@.skip(common_len as int)));
    if value_name.len() == 0 {
        return None;
    }
    if value_name[0] == LOWER_E {
        value_name.set(0, UPPER_E);
    }
    Some(value_name)
}

} // verus!
