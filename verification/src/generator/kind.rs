//! The kind of a generated enumeration: whether its numbers are signed, and
//! whether its values are flags that combine.

use vstd::prelude::*;
use crate::generator::EnumInfo;

verus! {

/// What kind of type stands for a native enumeration.
#[derive(Copy, Clone, PartialEq, Eq, Debug, Structural)]
pub enum EnumKind {
    Unsigned,
    Signed,
    UnsignedBitflags,
    SignedBitflags,
}

/// The number that stands for "every flag": it takes no part in the test for
/// overlapping bits.
pub const ALL_BITS: i64 = -1;

/// Flags are worth the name from this many non-zero values on.
pub const MIN_FLAG_VALUES: usize = 3;

/// A decimal digit.
pub open spec fn is_digit(c: char) -> bool {
    '0' <= c <= '9'
}

/// One or more decimal digits and nothing else.
pub open spec fn all_digits(digits: Seq<char>) -> bool {
    digits.len() > 0 && forall|i: int| 0 <= i < digits.len() ==> is_digit(#[trigger] digits[i])
}

/// The number that a sequence of decimal digits stands for.
pub open spec fn digits_value(digits: Seq<char>) -> int
    decreases digits.len(),
{
    if digits.len() == 0 {
        0
    } else {
        digits_value(digits.drop_last()) * 10 + (digits.last() as int - '0' as int)
    }
}

/// The number that a text in decimal notation stands for: digits, with one
/// `+` or `-` in front of them at most. Any other text stands for none.
pub open spec fn decimal_value(text: Seq<char>) -> Option<int> {
    if text.len() > 0 && text[0] == '-' {
        if all_digits(text.skip(1)) {
            Some(-digits_value(text.skip(1)))
        } else {
            None
        }
    } else if text.len() > 0 && text[0] == '+' {
        if all_digits(text.skip(1)) {
            Some(digits_value(text.skip(1)))
        } else {
            None
        }
    } else if all_digits(text) {
        Some(digits_value(text))
    } else {
        None
    }
}

/// The number of a value as its text gives it: the number that the text
/// stands for where 64 bits hold it.
pub open spec fn parsed_value(text: Seq<char>) -> Option<i64> {
    match decimal_value(text) {
        Some(value) => if i64::MIN <= value <= i64::MAX {
            Some(value as i64)
        } else {
            None
        },
        None => None,
    }
}

/// One of the numbers is negative.
pub open spec fn has_negative(values: Seq<i64>) -> bool {
    exists|i: int| 0 <= i < values.len() && #[trigger] values[i] < 0
}

/// How many of the numbers are not zero.
pub open spec fn nonzero_count(values: Seq<i64>) -> nat {
    values.filter(|v: i64| v != 0).len()
}

/// No two of the numbers have a bit in common, "every flag" left aside.
pub open spec fn disjoint_bits(values: Seq<i64>) -> bool {
    forall|i: int, j: int|
        0 <= i < j < values.len() && #[trigger] values[i] != ALL_BITS && #[trigger] values[j]
            != ALL_BITS ==> values[i] & values[j] == 0
}

/// The bits of all the numbers together, "every flag" left aside.
pub open spec fn union_bits(values: Seq<i64>) -> i64
    decreases values.len(),
{
    if values.len() == 0 {
        0
    } else if values.last() == ALL_BITS {
        union_bits(values.drop_last())
    } else {
        union_bits(values.drop_last()) | values.last()
    }
}

/// The kind of an enumeration with these numbers. It is signed where a
/// number is negative or the target prefers signed enumerations, and a set of
/// flags where at least three numbers are not zero and no two overlap.
pub open spec fn kind_of(values: Seq<i64>, prefer_signed: bool) -> EnumKind {
    let signed = prefer_signed || has_negative(values);
    let flags = nonzero_count(values) >= MIN_FLAG_VALUES && disjoint_bits(values);
    if flags {
        if signed {
            EnumKind::SignedBitflags
        } else {
            EnumKind::UnsignedBitflags
        }
    } else {
        if signed {
            EnumKind::Signed
        } else {
            EnumKind::Unsigned
        }
    }
}

/// The numbers of an enumeration's values as far as their texts are numbers.
pub open spec fn parsed_values(info: EnumInfo) -> Seq<Option<i64>> {
    Seq::new(info.values@.len(), |i: int| parsed_value(info.values@[i].value@))
}

/// Every value of the enumeration has a number.
pub open spec fn all_parsed(info: EnumInfo) -> bool {
    forall|i: int| 0 <= i < info.values@.len() ==> (#[trigger] parsed_values(info)[i]).is_some()
}

/// The numbers of an enumeration's values.
pub open spec fn numbers(info: EnumInfo) -> Seq<i64> {
    Seq::new(info.values@.len(), |i: int| parsed_values(info)[i].unwrap())
}

/// A number that shares no bit with the union shares none with a member.
proof fn lemma_union_covers(values: Seq<i64>, k: int, v: i64)
    requires
        0 <= k < values.len(),
        values[k] != ALL_BITS,
        union_bits(values) & v == 0,
    ensures
        values[k] & v == 0,
    decreases values.len(),
{
    let rest = values.drop_last();
    let last = values.last();
    let u = union_bits(rest);
    if last == ALL_BITS {
        lemma_union_covers(rest, k, v);
    } else {
        assert((u | last) & v == 0 ==> u & v == 0 && last & v == 0) by (bit_vector);
        if k < values.len() - 1 {
            lemma_union_covers(rest, k, v);
        }
    }
}

/// A number that shares a bit with the union shares one with a member.
proof fn lemma_union_overlap(values: Seq<i64>, v: i64) -> (k: int)
    requires
        union_bits(values) & v != 0,
    ensures
        0 <= k < values.len(),
        values[k] != ALL_BITS,
        values[k] & v != 0,
    decreases values.len(),
{
    if values.len() == 0 {
        assert(0i64 & v == 0) by (bit_vector);
        0
    } else {
        let rest = values.drop_last();
        let last = values.last();
        let u = union_bits(rest);
        if last == ALL_BITS {
            lemma_union_overlap(rest, v)
        } else {
            assert((u | last) & v != 0 ==> u & v != 0 || last & v != 0) by (bit_vector);
            if last & v != 0 {
                values.len() - 1
            } else {
                lemma_union_overlap(rest, v)
            }
        }
    }
}

/// `str::parse::<i64>` reads a number in decimal notation: ASCII digits with
/// an optional sign in front. It returns the number where the text is of
/// that form and the number fits into 64 bits, and an error for every other
/// text, the empty one and a sign alone included.
#[verifier::external_body]
fn parse_value(text: &str) -> (r: Option<i64>)
    ensures
        r == parsed_value(text@),
{
    match text.parse::<i64>() {
        Ok(value) => Some(value),
        Err(_) => None,
    }
}

/// The kind of an enumeration with these numbers.
pub fn classify(values: &[i64], prefer_signed: bool) -> (kind: EnumKind)
    ensures
        kind == kind_of(values@, prefer_signed),
{
    let mut existing: i64 = 0;
    let mut bits = true;
    let mut signed = false;
    let mut non_zero_cnt: usize = 0;
    let mut i: usize = 0;
    proof {
        reveal(Seq::filter);
        assert(values@.take(0) =~= Seq::<i64>::empty());
    }
    while i < values.len()
        invariant
            i <= values@.len(),
            existing == union_bits(values@.take(i as int)),
            bits == disjoint_bits(values@.take(i as int)),
            signed == has_negative(values@.take(i as int)),
            non_zero_cnt == nonzero_count(values@.take(i as int)),
            non_zero_cnt <= i,
        decreases values@.len() - i,
    {
        let value = values[i];
        let ghost before = values@.take(i as int);
        let ghost after = values@.take(i + 1);
        proof {
            assert(after =~= before.push(value));
            assert(after.drop_last() =~= before);
            before.lemma_filter_push(value, |v: i64| v != 0);
            if has_negative(before) {
                let k = choose|k: int| 0 <= k < before.len() && #[trigger] before[k] < 0;
                assert(after[k] < 0);
            }
            if value < 0 {
                assert(after[i as int] < 0);
            }
            if has_negative(after) {
                let k = choose|k: int| 0 <= k < after.len() && #[trigger] after[k] < 0;
                if k < i {
                    assert(before[k] < 0);
                }
            }
            if !disjoint_bits(before) {
                let (a, b) = choose|a: int, b: int|
                    0 <= a < b < before.len() && #[trigger] before[a] != ALL_BITS
                        && #[trigger] before[b] != ALL_BITS && before[a] & before[b] != 0;
                assert(after[a] != ALL_BITS && after[b] != ALL_BITS && after[a] & after[b] != 0);
            }
            if disjoint_bits(before) && value != ALL_BITS {
                if existing & value != 0 {
                    let k = lemma_union_overlap(before, value);
                    assert(after[k] != ALL_BITS && after[i as int] != ALL_BITS && after[k]
                        & after[i as int] != 0);
                } else {
                    assert forall|a: int, b: int|
                        0 <= a < b < after.len() && #[trigger] after[a] != ALL_BITS
                            && #[trigger] after[b] != ALL_BITS implies after[a] & after[b]
                        == 0 by {
                        if b < i {
                            assert(before[a] != ALL_BITS && before[b] != ALL_BITS);
                        } else {
                            lemma_union_covers(before, a, value);
                        }
                    }
                }
            }
            if disjoint_bits(before) && value == ALL_BITS {
                assert forall|a: int, b: int|
                    0 <= a < b < after.len() && #[trigger] after[a] != ALL_BITS
                        && #[trigger] after[b] != ALL_BITS implies after[a] & after[b] == 0 by {
                    assert(before[a] != ALL_BITS && before[b] != ALL_BITS);
                }
            }
        }
        if value < 0 {
            signed = true;
        }
        if value != 0 {
            non_zero_cnt += 1;
        }
        if value != ALL_BITS {
            if (existing & value) != 0 {
                bits = false;
            }
            existing |= value;
        }
        i += 1;
    }
    assert(values@.take(i as int) =~= values@);
    let signed = signed || prefer_signed;
    if non_zero_cnt >= MIN_FLAG_VALUES && bits {
        if signed {
            EnumKind::SignedBitflags
        } else {
            EnumKind::UnsignedBitflags
        }
    } else {
        if signed {
            EnumKind::Signed
        } else {
            EnumKind::Unsigned
        }
    }
}

/// The numbers of the enumeration's values, or nothing where the text of a
/// value is not a number.
pub fn parse_values(enum_info: &EnumInfo) -> (r: Option<Vec<i64>>)
    ensures
        match r {
            Some(values) => all_parsed(*enum_info) && values@ == numbers(*enum_info),
            None => !all_parsed(*enum_info),
        },
{
    let mut values: Vec<i64> = Vec::new();
    let mut i: usize = 0;
    while i < enum_info.values.len()
        invariant
            i <= enum_info.values@.len(),
            values@.len() == i,
            forall|k: int| 0 <= k < i ==> (#[trigger] parsed_values(*enum_info)[k]) == Some(values@[k]),
        decreases enum_info.values@.len() - i,
    {
        match parse_value(enum_info.values[i].value.as_str()) {
            Some(value) => values.push(value),
            None => {
                assert(parsed_values(*enum_info)[i as int].is_none());
                return None;
            },
        }
        i += 1;
    }
    assert(values@ =~= numbers(*enum_info));
    Some(values)
}

/// The kind of the enumeration, or nothing where the text of a value is not
/// a number.
pub fn enum_kind(enum_info: &EnumInfo, prefer_signed: bool) -> (r: Option<EnumKind>)
    ensures
        r == if all_parsed(*enum_info) {
            Some(kind_of(numbers(*enum_info), prefer_signed))
        } else {
            None
        },
{
    match parse_values(enum_info) {
        Some(values) => Some(classify(values.as_slice(), prefer_signed)),
        None => None,
    }
}

} // verus!
