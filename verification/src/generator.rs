//! The generator of the enumeration definitions: from the description of a
//! native enumeration to the text that defines its typed counterpart.

use vstd::prelude::*;
use vstd::string::StringSliceAdditionalSpecFns;
use vstd::utf8::encode_utf8;
use crate::generator::kind::{all_parsed, classify, kind_of, numbers, parse_values, EnumKind};
use crate::bytes::{append, starts_with};
use crate::generator::names::{
    enum_type_name, is_max, is_max_entry, type_ident, unqualified, unqualified_name, value_ident,
    value_name_rs,
};
use crate::generator::prefix::{common_cut, find_common_prefix_len};

pub mod kind;
pub mod names;
pub mod prefix;

verus! {

/// One value of a native enumeration: its native name and its number in
/// decimal notation.
#[derive(PartialEq, Eq, Debug)]
pub struct EnumValueInfo {
    pub name: String,
    pub value: String,
}

/// A native enumeration: its qualified name and its values in the order of
/// their declaration.
#[derive(PartialEq, Eq, Debug)]
pub struct EnumInfo {
    pub name: String,
    pub values: Vec<EnumValueInfo>,
}

impl EnumValueInfo {
    /// The native name as bytes.
    pub open spec fn name_bytes(&self) -> Seq<u8> {
        encode_utf8(self.name@)
    }

    /// The native name as bytes.
    pub fn name(&self) -> (bytes: &[u8])
        ensures
            bytes@ == self.name_bytes(),
    {
        self.name.as_str().as_bytes()
    }
}

impl EnumInfo {
    /// The qualified name as bytes.
    pub open spec fn name_bytes(&self) -> Seq<u8> {
        encode_utf8(self.name@)
    }

    /// The native names of the values, in order.
    pub open spec fn names(&self) -> Seq<Seq<u8>> {
        Seq::new(self.values@.len(), |i: int| self.values@[i].name_bytes())
    }

    /// The qualified name as bytes.
    pub fn name(&self) -> (bytes: &[u8])
        ensures
            bytes@ == self.name_bytes(),
    {
        self.name.as_str().as_bytes()
    }

    /// The native name of the value at `index`.
    pub fn value_name(&self, index: usize) -> (bytes: &[u8])
        requires
            index < self.values@.len(),
        ensures
            bytes@ == self.names()[index as int],
    {
        self.values[index].name()
    }
}

/// Why no definition can be generated for an enumeration.
#[derive(Copy, Clone, PartialEq, Eq, Debug, Structural)]
pub enum GenerateError {
    /// The text of a value is not a number.
    BadValue,
    /// The enumeration has no values.
    NoValues,
    /// The native names of the values share no prefix.
    NoCommonPrefix,
    /// Nothing is left of a native name behind the shared prefix.
    EmptyValueName,
}

/// The macro that defines an enumeration of the given kind.
pub open spec fn macro_name(kind: EnumKind) -> Seq<u8> {
    match kind {
        EnumKind::Unsigned => "unsigned_enum!".spec_bytes(),
        EnumKind::Signed => "signed_enum!".spec_bytes(),
        EnumKind::UnsignedBitflags => "unsigned_bits_enum!".spec_bytes(),
        EnumKind::SignedBitflags => "signed_bits_enum!".spec_bytes(),
    }
}

/// The native constant behind a value: the native name of the value where it
/// starts with the name of its enumeration, and the two joined by an
/// underscore where it does not.
pub open spec fn native_constant(enum_name: Seq<u8>, cpp_name: Seq<u8>) -> Seq<u8> {
    if enum_name.is_prefix_of(cpp_name) {
        cpp_name
    } else {
        enum_name + "_".spec_bytes() + cpp_name
    }
}

/// The line that defines one value.
pub open spec fn value_line(enum_name: Seq<u8>, ident: Seq<u8>, cpp_name: Seq<u8>) -> Seq<u8> {
    "    ".spec_bytes() + ident + " = ::openvr_sys::".spec_bytes() + native_constant(
        enum_name,
        cpp_name,
    ) + ",\n".spec_bytes()
}

/// The lines of the first `upto` values: one for each value, in order, but
/// none for a name that only marks the end of the enumeration.
pub open spec fn value_lines(enum_name: Seq<u8>, names: Seq<Seq<u8>>, cut: int, upto: int) -> Seq<
    u8,
>
    decreases upto,
{
    if upto <= 0 {
        Seq::empty()
    } else if is_max(names[upto - 1]) {
        value_lines(enum_name, names, cut, upto - 1)
    } else {
        value_lines(enum_name, names, cut, upto - 1) + value_line(
            enum_name,
            value_ident(cut, names[upto - 1]).unwrap(),
            names[upto - 1],
        )
    }
}

/// Every value that gets a line has an identifier.
pub open spec fn all_named(names: Seq<Seq<u8>>, cut: int) -> bool {
    forall|i: int|
        0 <= i < names.len() && !is_max(#[trigger] names[i]) ==> value_ident(cut, names[i]).is_some()
}

/// The definition of an enumeration: the macro of its kind, the identifier of
/// the type, and the lines of its values.
pub open spec fn enum_text(kind: EnumKind, name: Seq<u8>, names: Seq<Seq<u8>>, cut: int) -> Seq<
    u8,
> {
    macro_name(kind) + " {\n".spec_bytes() + "    ".spec_bytes() + type_ident(name)
        + ";\n".spec_bytes() + value_lines(unqualified(name), names, cut, names.len() as int)
        + "}\n".spec_bytes()
}

/// What is generated for an enumeration whose values have the given numbers.
pub open spec fn rendered(
    name: Seq<u8>,
    names: Seq<Seq<u8>>,
    values: Seq<i64>,
    prefer_signed: bool,
) -> Result<Seq<u8>, GenerateError> {
    match common_cut(names) {
        None => if names.len() == 0 {
            Err(GenerateError::NoValues)
        } else {
            Err(GenerateError::NoCommonPrefix)
        },
        Some(cut) => if all_named(names, cut) {
            Ok(enum_text(kind_of(values, prefer_signed), name, names, cut))
        } else {
            Err(GenerateError::EmptyValueName)
        },
    }
}

/// What is generated for an enumeration.
pub open spec fn generated(info: EnumInfo, prefer_signed: bool) -> Result<Seq<u8>, GenerateError> {
    if all_parsed(info) {
        rendered(info.name_bytes(), info.names(), numbers(info), prefer_signed)
    } else {
        Err(GenerateError::BadValue)
    }
}

/// Appends the line that defines one value to `out`.
pub fn write_value(
    enum_name: &[u8],
    value_rs_name: &[u8],
    value_cpp_name: &[u8],
    out: &mut Vec<u8>,
)
    ensures
        final(out)@ == old(out)@ + value_line(enum_name@, value_rs_name@, value_cpp_name@),
{
    append(out, "    ".as_bytes());
    append(out, value_rs_name);
    append(out, " = ::openvr_sys::".as_bytes());
    if !starts_with(value_cpp_name, enum_name) {
        append(out, enum_name);
        append(out, "_".as_bytes());
    }
    append(out, value_cpp_name);
    append(out, ",\n".as_bytes());
    assert(out@ =~= old(out)@ + value_line(enum_name@, value_rs_name@, value_cpp_name@));
}

/// Appends the name of the macro that defines an enumeration of the given
/// kind to `out`.
pub fn write_macro_name(kind: EnumKind, out: &mut Vec<u8>)
    ensures
        final(out)@ == old(out)@ + macro_name(kind),
{
    match kind {
        EnumKind::Unsigned => append(out, "unsigned_enum!".as_bytes()),
        EnumKind::Signed => append(out, "signed_enum!".as_bytes()),
        EnumKind::UnsignedBitflags => append(out, "unsigned_bits_enum!".as_bytes()),
        EnumKind::SignedBitflags => append(out, "signed_bits_enum!".as_bytes()),
    }
}

/// Generates the definition of an enumeration whose values have the numbers
/// `values`, or says why there is none.
pub fn render_enum(enum_info: &EnumInfo, values: &[i64], prefer_signed: bool) -> (r: Result<
    Vec<u8>,
    GenerateError,
>)
    ensures
        match r {
            Ok(text) => rendered(
                enum_info.name_bytes(),
                enum_info.names(),
                values@,
                prefer_signed,
            ) == Ok::<Seq<u8>, GenerateError>(text@),
            Err(e) => rendered(enum_info.name_bytes(), enum_info.names(), values@, prefer_signed)
                == Err::<Seq<u8>, GenerateError>(e),
        },
{
    let ghost names = enum_info.names();
    let kind = classify(values, prefer_signed);
    let common_len = match find_common_prefix_len(enum_info) {
        Some(common_len) => common_len,
        None => {
            if enum_info.values.len() == 0 {
                return Err(GenerateError::NoValues);
            } else {
                return Err(GenerateError::NoCommonPrefix);
            }
        },
    };
    let enum_name = unqualified_name(enum_info.name());
    let mut out: Vec<u8> = Vec::new();
    write_macro_name(kind, &mut out);
    append(&mut out, " {\n".as_bytes());
    append(&mut out, "    ".as_bytes());
    let ident = enum_type_name(enum_info.name());
    append(&mut out, ident.as_slice());
    append(&mut out, ";\n".as_bytes());
    let ghost head = out@;
    let mut i: usize = 0;
    while i < enum_info.values.len()
        invariant
            i <= enum_info.values@.len(),
            names == enum_info.names(),
            names.len() == enum_info.values@.len(),
            common_cut(names) == Some(common_len as int),
            enum_name@ == unqualified(enum_info.name_bytes()),
            out@ == head + value_lines(enum_name@, names, common_len as int, i as int),
            forall|k: int|
                0 <= k < i && !is_max(#[trigger] names[k]) ==> value_ident(
                    common_len as int,
                    names[k],
                ).is_some(),
        decreases enum_info.values@.len() - i,
    {
        let value_cpp_name = enum_info.value_name(i);
        if !is_max_entry(value_cpp_name) {
            match value_name_rs(common_len, value_cpp_name) {
                Some(value_name) => {
                    write_value(enum_name, value_name.as_slice(), value_cpp_name, &mut out);
                },
                None => {
                    assert(!is_max(names[i as int]) && value_ident(
                        common_len as int,
                        names[i as int],
                    ).is_none());
                    return Err(GenerateError::EmptyValueName);
                },
            }
        }
        assert(out@ =~= head + value_lines(enum_name@, names, common_len as int, i + 1));
        i += 1;
    }
    append(&mut out, "}\n".as_bytes());
    assert(out@ =~= enum_text(kind, enum_info.name_bytes(), names, common_len as int));
    Ok(out)
}

/// Generates the definition of an enumeration, or says why there is none.
pub fn generate_enum(enum_info: &EnumInfo, prefer_signed: bool) -> (r: Result<
    Vec<u8>,
    GenerateError,
>)
    ensures
        match r {
            Ok(text) => generated(*enum_info, prefer_signed) == Ok::<Seq<u8>, GenerateError>(
                text@,
            ),
            Err(e) => generated(*enum_info, prefer_signed) == Err::<Seq<u8>, GenerateError>(e),
        },
{
    match parse_values(enum_info) {
        Some(values) => render_enum(enum_info, values.as_slice(), prefer_signed),
        None => Err(GenerateError::BadValue),
    }
}

} // verus!
