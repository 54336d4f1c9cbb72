//! How a value of a generated enumeration reads as text.
//!
//! A value is shown as the name of its type with a description in round
//! brackets. What the description is depends on the kind of the enumeration.

use vstd::prelude::*;
use vstd::string::StringExecFns;
use crate::generator::kind::{all_digits, digits_value, is_digit, parsed_value};

verus! {

/// The number that stands for "every flag".
pub const ALL_FLAGS: u32 = 0xffff_ffff;

/// A named flag of an enumeration whose values combine.
#[derive(Copy, Clone, PartialEq, Eq, Debug)]
pub struct Flag {
    pub name: &'static str,
    pub value: u32,
}

/// The digits of the notations, in the order of their values.
pub open spec fn digit(value: int) -> char {
    "0123456789abcdef"@[value]
}

/// The decimal digits of a number, without leading zeros.
pub open spec fn decimal_digits(n: nat) -> Seq<char>
    decreases n,
{
    if n < 10 {
        seq![digit(n as int)]
    } else {
        decimal_digits(n / 10).push(digit(n as int % 10))
    }
}

/// The hexadecimal digits of a number in lower case, without leading zeros.
pub open spec fn hex_digits(n: nat) -> Seq<char>
    decreases n,
{
    if n < 16 {
        seq![digit(n as int)]
    } else {
        hex_digits(n / 16).push(digit(n as int % 16))
    }
}

/// The decimal notation of a number: its digits, behind a `-` where it is
/// negative.
pub open spec fn decimal_text(value: i64) -> Seq<char> {
    if value < 0 {
        seq!['-'] + decimal_digits((-(value as int)) as nat)
    } else {
        decimal_digits(value as nat)
    }
}

/// `text` with blanks in front of it where it is shorter than `width`.
pub open spec fn padded(text: Seq<char>, width: int) -> Seq<char> {
    if text.len() < width {
        Seq::new((width - text.len()) as nat, |i: int| ' ') + text
    } else {
        text
    }
}

/// The width that the hexadecimal notation of a number is padded to.
pub const HEX_WIDTH: usize = 8;

/// The hexadecimal notation of a number: `0x` and its digits in lower case,
/// with blanks in front where that is shorter than eight characters.
pub open spec fn hex_text(value: u32) -> Seq<char> {
    padded("0x"@ + hex_digits(value as nat), HEX_WIDTH as int)
}

/// The first ten digits are the decimal digits, each with its value.
pub proof fn lemma_decimal_digit(value: int)
    requires
        0 <= value < 10,
    ensures
        is_digit(digit(value)),
        digit(value) as int - '0' as int == value,
        digit(value) != '-',
        digit(value) != '+',
{
    reveal_strlit("0123456789abcdef");
}

/// The decimal digits of a number are digits that stand for the number.
pub proof fn lemma_decimal_digits_read_back(n: nat)
    ensures
        all_digits(decimal_digits(n)),
        digits_value(decimal_digits(n)) == n,
        is_digit(decimal_digits(n)[0]),
    decreases n,
{
    let digits = decimal_digits(n);
    if n < 10 {
        lemma_decimal_digit(n as int);
        assert(digits.drop_last() =~= Seq::<char>::empty());
        assert(digits_value(digits.drop_last()) == 0);
        assert(digits.last() == digit(n as int));
    } else {
        let front = decimal_digits(n / 10);
        lemma_decimal_digits_read_back(n / 10);
        lemma_decimal_digit(n as int % 10);
        assert(digits.drop_last() =~= front);
        assert(digits.last() == digit(n as int % 10));
        assert(digits[0] == front[0]);
        assert forall|i: int| 0 <= i < digits.len() implies is_digit(#[trigger] digits[i]) by {
            if i < front.len() {
                assert(digits[i] == front[i]);
            }
        }
    }
}

/// What is written in decimal notation reads back as the same number.
pub proof fn lemma_decimal_text_reads_back(value: i64)
    ensures
        parsed_value(decimal_text(value)) == Some(value),
{
    let text = decimal_text(value);
    if value < 0 {
        let magnitude = (-(value as int)) as nat;
        lemma_decimal_digits_read_back(magnitude);
        assert(text.skip(1) =~= decimal_digits(magnitude));
        assert(text[0] == '-');
    } else {
        lemma_decimal_digits_read_back(value as nat);
        lemma_decimal_digit(0);
        assert(is_digit(text[0]));
    }
}

/// One of the numbers is `raw`.
pub open spec fn is_known(known: Seq<i64>, raw: i64) -> bool {
    exists|i: int| 0 <= i < known.len() && #[trigger] known[i] == raw
}

/// The text of a value of a plain enumeration. The names of the values are
/// no part of it: a value that has a name shows the name of its type in the
/// brackets, which tells it from a value without a name, and that one shows
/// its number.
pub open spec fn simple_text(enum_name: Seq<char>, known: Seq<i64>, raw: i64) -> Seq<char> {
    if is_known(known, raw) {
        enum_name + "("@ + enum_name + ")"@
    } else {
        enum_name + "("@ + decimal_text(raw) + ")"@
    }
}

/// The name of the first flag whose number is zero.
pub open spec fn zero_name(flags: Seq<Flag>) -> Option<Seq<char>>
    decreases flags.len(),
{
    if flags.len() == 0 {
        None
    } else if flags[0].value == 0 {
        Some(flags[0].name@)
    } else {
        zero_name(flags.skip(1))
    }
}

/// The bits of `raw` that none of the first `upto` flags accounts for. The
/// flags are gone through in order, and a flag accounts for its bits where
/// it has one and all of them are still there.
pub open spec fn rest_bits(flags: Seq<Flag>, raw: u32, upto: int) -> u32
    decreases upto,
{
    if upto <= 0 {
        raw
    } else {
        let rest = rest_bits(flags, raw, upto - 1);
        let value = flags[upto - 1].value;
        if value != 0 && rest & value == value {
            rest & !value
        } else {
            rest
        }
    }
}

/// Whether the flag at `at` is part of the text of `raw`: it has a bit, and
/// all its bits are among those that the flags in front of it left.
pub open spec fn is_shown(flags: Seq<Flag>, raw: u32, at: int) -> bool {
    flags[at].value != 0 && rest_bits(flags, raw, at) & flags[at].value == flags[at].value
}

/// The names of the flags among the first `upto` that are part of the text
/// of `raw`, with ` | ` between one and the next.
pub open spec fn shown_names(flags: Seq<Flag>, raw: u32, upto: int) -> Seq<char>
    decreases upto,
{
    if upto <= 0 {
        Seq::empty()
    } else if !is_shown(flags, raw, upto - 1) {
        shown_names(flags, raw, upto - 1)
    } else if any_shown(flags, raw, upto - 1) {
        shown_names(flags, raw, upto - 1) + " | "@ + flags[upto - 1].name@
    } else {
        shown_names(flags, raw, upto - 1) + flags[upto - 1].name@
    }
}

/// One of the first `upto` flags is part of the text of `raw`.
pub open spec fn any_shown(flags: Seq<Flag>, raw: u32, upto: int) -> bool {
    exists|i: int| 0 <= i < upto && is_shown(flags, raw, i)
}

/// The text of a value of an enumeration of flags. "Every flag" and zero
/// have texts of their own; any other value lists its flags and, behind
/// them, the bits that no flag accounts for.
pub open spec fn bits_text(enum_name: Seq<char>, flags: Seq<Flag>, raw: u32) -> Seq<char> {
    if raw == ALL_FLAGS {
        enum_name + "(All)"@
    } else if raw == 0 {
        match zero_name(flags) {
            Some(name) => enum_name + "("@ + name + ")"@,
            None => enum_name + "(0)"@,
        }
    } else {
        let rest = rest_bits(flags, raw, flags.len() as int);
        let names = enum_name + "("@ + shown_names(flags, raw, flags.len() as int);
        if rest != 0 {
            names + " | "@ + hex_text(rest) + ")"@
        } else {
            names + ")"@
        }
    }
}

/// The formatter of the standard library writes an integer for `{}` in
/// decimal notation: a `-` for a negative number, then the digits of its
/// magnitude without leading zeros.
#[verifier::external_body]
fn decimal(value: i64) -> (text: String)
    ensures
        text@ == decimal_text(value),
{
    format!("{}", value)
}

/// The formatter of the standard library writes an integer for `{:#8x}` in
/// hexadecimal notation: the prefix `0x`, then the digits in lower case
/// without leading zeros, and blanks in front of the prefix where the whole
/// is shorter than the width of eight.
#[verifier::external_body]
fn hex(value: u32) -> (text: String)
    ensures
        text@ == hex_text(value),
{
    format!("{:#8x}", value)
}

/// The text of the value `raw` of a plain enumeration `enum_name` whose
/// named values have the numbers `known`.
pub fn simple_enum_text(enum_name: &str, known: &[i64], raw: i64) -> (text: String)
    ensures
        text@ == simple_text(enum_name@, known@, raw),
{
    let mut text = String::from_str(enum_name);
    text.append("(");
    let mut i: usize = 0;
    while i < known.len()
        invariant
            i <= known@.len(),
            forall|k: int| 0 <= k < i ==> known@[k] != raw,
            text@ == enum_name@ + "("@,
        decreases known@.len() - i,
    {
        if known[i] == raw {
            text.append(enum_name);
            text.append(")");
            assert(text@ =~= simple_text(enum_name@, known@, raw));
            return text;
        }
        i += 1;
    }
    let number = decimal(raw);
    text.append(number.as_str());
    text.append(")");
    assert(text@ =~= simple_text(enum_name@, known@, raw));
    text
}

/// The text of the value `raw` of an enumeration of flags `enum_name` with
/// the named flags `flags`.
pub fn bits_enum_text(enum_name: &str, flags: &[Flag], raw: u32) -> (text: String)
    ensures
        text@ == bits_text(enum_name@, flags@, raw),
{
    let mut text = String::from_str(enum_name);
    if raw == ALL_FLAGS {
        text.append("(All)");
        return text;
    }
    if raw == 0 {
        let mut i: usize = 0;
        assert(flags@.skip(0) =~= flags@);
        while i < flags.len()
            invariant
                i <= flags@.len(),
                raw == 0,
                zero_name(flags@) == zero_name(flags@.skip(i as int)),
                text@ == enum_name@,
            decreases flags@.len() - i,
        {
            assert(flags@.skip(i as int)[0] == flags@[i as int]);
            if flags[i].value == 0 {
                text.append("(");
                text.append(flags[i].name);
                text.append(")");
                assert(zero_name(flags@.skip(i as int)) == Some(flags@[i as int].name@));
                assert(text@ =~= enum_name@ + "("@ + flags@[i as int].name@ + ")"@);
                return text;
            }
            assert(flags@.skip(i as int).skip(1) =~= flags@.skip(i + 1));
            i += 1;
        }
        text.append("(0)");
        return text;
    }
    text.append("(");
    let mut inner = raw;
    let mut written = false;
    let mut i: usize = 0;
    while i < flags.len()
        invariant
            i <= flags@.len(),
            inner == rest_bits(flags@, raw, i as int),
            written == any_shown(flags@, raw, i as int),
            text@ == enum_name@ + "("@ + shown_names(flags@, raw, i as int),
        decreases flags@.len() - i,
    {
        let flag = flags[i];
        if flag.value != 0 && (inner & flag.value) == flag.value {
            assert(is_shown(flags@, raw, i as int));
            if written {
                text.append(" | ");
            }
            text.append(flag.name);
            written = true;
            inner = inner & !flag.value;
            proof {
                assert(any_shown(flags@, raw, i + 1));
                assert(text@ =~= enum_name@ + "("@ + shown_names(flags@, raw, i + 1));
            }
        } else {
            assert(!is_shown(flags@, raw, i as int));
            proof {
                if any_shown(flags@, raw, i + 1) {
                    let k = choose|k: int| 0 <= k < i + 1 && is_shown(flags@, raw, k);
                    assert(k < i);
                }
            }
        }
        i += 1;
    }
    if inner != 0 {
        text.append(" | ");
        let rest = hex(inner);
        text.append(rest.as_str());
    }
    text.append(")");
    assert(text@ =~= bits_text(enum_name@, flags@, raw));
    text
}

} // verus!
