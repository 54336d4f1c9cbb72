//! The prefix that the native names of an enumeration's values share, and
//! how much of it the generated identifiers leave out.

use vstd::prelude::*;
use crate::generator::names::{is_max, is_max_entry, UNDERSCORE};
use crate::generator::EnumInfo;

verus! {

/// `a` and `b` are at least `n` bytes long and have their first `n` bytes in
/// common.
pub open spec fn agree(a: Seq<u8>, b: Seq<u8>, n: int) -> bool {
    &&& 0 <= n <= a.len()
    &&& n <= b.len()
    &&& forall|k: int| 0 <= k < n ==> a[k] == b[k]
}

/// Whether the name at `i` has a say in the shared prefix: the first name
/// always has, another one unless it only marks the end of the enumeration.
pub open spec fn counts(names: Seq<Seq<u8>>, i: int) -> bool {
    i == 0 || !is_max(names[i])
}

/// Every name that counts starts with the first `n` bytes of the first name.
pub open spec fn all_agree(names: Seq<Seq<u8>>, n: int) -> bool {
    forall|i: int|
        0 <= i < names.len() && counts(names, i) ==> agree(names[0], #[trigger] names[i], n)
}

/// `n` is the length of the longest prefix of the first name that every
/// name that counts starts with.
pub open spec fn is_shared_len(names: Seq<Seq<u8>>, n: int) -> bool {
    all_agree(names, n) && !all_agree(names, n + 1)
}

/// The length of the longest prefix of the first name that every name that
/// counts starts with.
pub open spec fn shared_len(names: Seq<Seq<u8>>) -> int {
    choose|n: int| is_shared_len(names, n)
}

/// `cut` is where the identifiers start behind a shared `prefix`: behind its
/// last underscore, or behind all of it where it has none.
pub open spec fn is_cut(prefix: Seq<u8>, cut: int) -> bool {
    &&& 0 <= cut <= prefix.len()
    &&& forall|k: int| cut <= k < prefix.len() ==> prefix[k] != UNDERSCORE
    &&& {
        ||| cut > 0 && prefix[cut - 1] == UNDERSCORE
        ||| cut == prefix.len() && forall|k: int| 0 <= k < prefix.len() ==> prefix[k] != UNDERSCORE
    }
}

/// Where the identifiers start behind a shared `prefix`.
pub open spec fn cut_of(prefix: Seq<u8>) -> int {
    choose|cut: int| is_cut(prefix, cut)
}

/// How many leading bytes the identifiers of an enumeration's values leave
/// out. There is no such number for an enumeration without values, nor for
/// one whose names share no prefix.
pub open spec fn common_cut(names: Seq<Seq<u8>>) -> Option<int> {
    if names.len() == 0 || shared_len(names) == 0 {
        None
    } else {
        Some(cut_of(names[0].take(shared_len(names))))
    }
}

/// A sequence of names has at most one shared length.
pub proof fn lemma_shared_len_unique(names: Seq<Seq<u8>>, a: int, b: int)
    requires
        is_shared_len(names, a),
        is_shared_len(names, b),
    ensures
        a == b,
{
    if names.len() > 0 {
        assert(counts(names, 0));
        assert(agree(names[0], names[0], a));
        assert(agree(names[0], names[0], b));
        if a < b {
            assert forall|i: int| 0 <= i < names.len() && counts(names, i) implies agree(
                names[0],
                #[trigger] names[i],
                a + 1,
            ) by {
                assert(agree(names[0], names[i], b));
            }
        }
        if b < a {
            assert forall|i: int| 0 <= i < names.len() && counts(names, i) implies agree(
                names[0],
                #[trigger] names[i],
                b + 1,
            ) by {
                assert(agree(names[0], names[i], a));
            }
        }
    }
}

/// A prefix has at most one cut.
pub proof fn lemma_cut_unique(prefix: Seq<u8>, a: int, b: int)
    requires
        is_cut(prefix, a),
        is_cut(prefix, b),
    ensures
        a == b,
{
    if a < b {
        if b > 0 && prefix[b - 1] == UNDERSCORE {
            assert(prefix[b - 1] != UNDERSCORE);
        } else {
            assert(prefix[a - 1] != UNDERSCORE);
        }
    }
    if b < a {
        if a > 0 && prefix[a - 1] == UNDERSCORE {
            assert(prefix[a - 1] != UNDERSCORE);
        } else {
            assert(prefix[b - 1] != UNDERSCORE);
        }
    }
}

/// The shared length of a sequence of names is the one number that is one.
pub proof fn lemma_shared_len_is(names: Seq<Seq<u8>>, n: int)
    requires
        is_shared_len(names, n),
    ensures
        shared_len(names) == n,
{
    lemma_shared_len_unique(names, n, shared_len(names));
}

/// The cut of a prefix is the one number that is one.
pub proof fn lemma_cut_is(prefix: Seq<u8>, cut: int)
    requires
        is_cut(prefix, cut),
    ensures
        cut_of(prefix) == cut,
{
    lemma_cut_unique(prefix, cut, cut_of(prefix));
}

/// Every sequence of names with a first name has a shared length: the
/// search from any length that all names agree on ends at one.
pub proof fn lemma_shared_len_exists(names: Seq<Seq<u8>>, from: int)
    requires
        names.len() > 0,
        all_agree(names, from),
    ensures
        is_shared_len(names, shared_len(names)),
        from <= shared_len(names) <= names[0].len(),
    decreases names[0].len() - from,
{
    assert(counts(names, 0) && agree(names[0], names[0], from));
    if all_agree(names, from + 1) {
        lemma_shared_len_exists(names, from + 1);
    } else {
        assert(is_shared_len(names, from));
        lemma_shared_len_is(names, from);
    }
}

/// Every prefix has a cut: the search backwards from any place behind which
/// there is no underscore ends at one.
pub proof fn lemma_cut_exists(prefix: Seq<u8>, from: int)
    requires
        0 <= from <= prefix.len(),
        forall|k: int| from <= k < prefix.len() ==> prefix[k] != UNDERSCORE,
    ensures
        is_cut(prefix, cut_of(prefix)),
    decreases from,
{
    if from > 0 && prefix[from - 1] == UNDERSCORE {
        assert(is_cut(prefix, from));
    } else if from > 0 {
        lemma_cut_exists(prefix, from - 1);
    } else {
        assert(is_cut(prefix, prefix.len() as int));
    }
}

/// The identifiers of an enumeration leave out at least one byte and never
/// more than a name that counts has: the cut lies inside every such name.
pub proof fn lemma_cut_fits(names: Seq<Seq<u8>>, i: int)
    requires
        common_cut(names).is_some(),
        0 <= i < names.len(),
        counts(names, i),
    ensures
        0 < common_cut(names).unwrap() <= shared_len(names) <= names[i].len(),
{
    assert(all_agree(names, 0)) by {
        assert forall|k: int| 0 <= k < names.len() && counts(names, k) implies agree(
            names[0],
            #[trigger] names[k],
            0,
        ) by {}
    }
    lemma_shared_len_exists(names, 0);
    let shared = shared_len(names);
    let prefix = names[0].take(shared);
    lemma_cut_exists(prefix, prefix.len() as int);
    assert(agree(names[0], names[i], shared));
}

/// How many leading bytes `a` and `b` have in common, looking at no more
/// than the first `limit` bytes of `a`.
pub fn common_len_within(a: &[u8], b: &[u8], limit: usize) -> (n: usize)
    requires
        limit <= a@.len(),
    ensures
        n <= limit,
        agree(a@, b@, n as int),
        n == limit || !agree(a@, b@, n + 1),
{
    let mut n: usize = 0;
    while n < limit && n < b.len() && a[n] == b[n]
        invariant
            n <= limit <= a@.len(),
            n <= b@.len(),
            forall|k: int| 0 <= k < n ==> a@[k] == b@[k],
        decreases limit - n,
    {
        n += 1;
    }
    n
}

/// How many leading bytes the identifiers of the enumeration's values leave
/// out: the shared prefix of the native names up to its last underscore, or
/// all of it where it has none.
pub fn find_common_prefix_len(enum_info: &EnumInfo) -> (r: Option<usize>)
    ensures
        match r {
            Some(cut) => common_cut(enum_info.names()) == Some(cut as int),
            None => common_cut(enum_info.names()).is_none(),
        },
{
    let ghost names = enum_info.names();
    let count = enum_info.values.len();
    if count == 0 {
        return None;
    }
    let first = enum_info.value_name(0);
    let mut shared: usize = first.len();
    let mut i: usize = 1;
    while i < count
        invariant
            1 <= i <= count,
            count == names.len(),
            names == enum_info.names(),
            count == enum_info.values@.len(),
            first@ == names[0],
            shared <= first@.len(),
            forall|k: int| 0 <= k < i && counts(names, k) ==> agree(names[0], #[trigger] names[k], shared as int),
            shared == first@.len() || exists|k: int|
                0 <= k < i && counts(names, k) && !agree(names[0], #[trigger] names[k], shared + 1),
        decreases count - i,
    {
        let name = enum_info.value_name(i);
        if !is_max_entry(name) {
            let within = common_len_within(first, name, shared);
            proof {
                assert forall|k: int| 0 <= k < i + 1 && counts(names, k) implies agree(
                    names[0],
                    #[trigger] names[k],
                    within as int,
                ) by {
                    if k < i {
                        assert(agree(names[0], names[k], shared as int));
                    }
                }
                if within < shared {
                    assert(counts(names, i as int) && !agree(names[0], names[i as int], within + 1));
                } else if shared < first@.len() {
                    let k = choose|k: int|
                        0 <= k < i && counts(names, k) && !agree(names[0], #[trigger] names[k], shared + 1);
                    assert(counts(names, k) && !agree(names[0], names[k], within + 1));
                }
            }
            shared = within;
        }
        i += 1;
    }
    proof {
        assert(all_agree(names, shared as int));
        if shared == first@.len() {
            assert(counts(names, 0) && !agree(names[0], names[0], shared + 1));
        }
        assert(!all_agree(names, shared + 1));
        lemma_shared_len_is(names, shared as int);
    }
    if shared == 0 {
        return None;
    }
    let mut at: usize = shared;
    while at > 0 && first[at - 1] != UNDERSCORE
        invariant
            at <= shared <= first@.len(),
            forall|k: int| at <= k < shared ==> first@[k] != UNDERSCORE,
        decreases at,
    {
        at -= 1;
    }
    let cut = if at > 0 {
        at
    } else {
        shared
    };
    proof {
        let prefix = names[0].take(shared as int);
        assert(is_cut(prefix, cut as int));
        lemma_cut_is(prefix, cut as int);
    }
    Some(cut)
}

} // verus!
