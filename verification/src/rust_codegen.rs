//! The Rust source code generator plugin's type mapping: which Rust type a
//! component field gets.

use vstd::prelude::*;

use crate::text::{decimal, push_decimal, string_push};
use crate::types::FieldType;

verus! {

/// The Rust type of a field of `length` elements of the type named
/// `type_str`: the type itself for one element, an array otherwise.
pub open spec fn array_type(length: int, type_str: Seq<char>) -> Seq<char> {
    if length == 1 {
        type_str
    } else {
        "["@ + type_str + "; "@ + decimal(length as nat) + "]"@
    }
}

/// Writes the Rust type of `length` elements of `type_str` (`bool`, or
/// `[bool; 4]`). A field has at least one element; the generator refuses
/// other lengths.
pub fn rust_array_maybe(length: i32, type_str: &str) -> (r: String)
    requires
        length >= 1,
    ensures
        r@ == array_type(length as int, type_str@),
{
    proof {
        reveal_strlit("[");
        reveal_strlit("; ");
        reveal_strlit("]");
    }
    if length == 1 {
        String::from_str(type_str)
    } else {
        let mut r = String::from_str("[");
        r.append(type_str);
        r.append("; ");
        push_decimal(&mut r, length as u32);
        string_push(&mut r, ']');
        assert(r@ =~= array_type(length as int, type_str@));
        r
    }
}

/// The name of the Rust type that stores a single element of a field type,
/// for the field types the generator supports (entities and enums it does
/// not).
pub open spec fn element_type_name(t: FieldType) -> Option<Seq<char>> {
    match t {
        FieldType::Bool { .. } => Some("bool"@),
        FieldType::I8 { .. } => Some("i8"@),
        FieldType::U8 { .. } => Some("u8"@),
        FieldType::I16 { .. } => Some("i16"@),
        FieldType::U16 { .. } => Some("u16"@),
        FieldType::I32 { .. } => Some("i32"@),
        FieldType::U32 { .. } => Some("u32"@),
        FieldType::F32 { .. } => Some("f32"@),
        FieldType::Entity { .. } => None,
        FieldType::Enum { .. } => None,
    }
}

/// Whether the generator can write a Rust type for fields of type `t`: an
/// element type it supports and at least one element.
pub open spec fn has_rust_type_spec(t: FieldType) -> bool {
    element_type_name(t) is Some && t.spec_length() >= 1
}

/// Whether the generator can write a Rust type for fields of type `t`.
pub fn has_rust_type(t: &FieldType) -> (r: bool)
    ensures
        r == has_rust_type_spec(*t),
{
    match t {
        FieldType::Entity { .. } => false,
        FieldType::Enum { .. } => false,
        _ => t.length() >= 1,
    }
}

/// Writes the Rust type of a component field of type `t`.
pub fn to_rust_type(t: FieldType) -> (r: String)
    requires
        has_rust_type_spec(t),
    ensures
        r@ == array_type(t.spec_length() as int, element_type_name(t).unwrap()),
{
    proof {
        reveal_strlit("bool");
        reveal_strlit("i8");
        reveal_strlit("u8");
        reveal_strlit("i16");
        reveal_strlit("u16");
        reveal_strlit("i32");
        reveal_strlit("u32");
        reveal_strlit("f32");
    }
    match t {
        FieldType::Bool { length } => rust_array_maybe(length, "bool"),
        FieldType::I8 { length } => rust_array_maybe(length, "i8"),
        FieldType::U8 { length } => rust_array_maybe(length, "u8"),
        FieldType::I16 { length } => rust_array_maybe(length, "i16"),
        FieldType::U16 { length } => rust_array_maybe(length, "u16"),
        FieldType::I32 { length } => rust_array_maybe(length, "i32"),
        FieldType::U32 { length } => rust_array_maybe(length, "u32"),
        FieldType::F32 { length } => rust_array_maybe(length, "f32"),
        FieldType::Entity { .. } => String::new(),
        FieldType::Enum { .. } => String::new(),
    }
}

/// Why the generator writes no Rust type for a field.
#[derive(Clone, Copy, PartialEq, Eq, Structural, Debug)]
pub enum RustTypeError {
    /// Entity and enum fields are not supported yet.
    Unsupported,
    /// A field of no elements.
    EmptyArray,
    /// A negative number of elements.
    NegativeLength,
}

/// What the generator writes for a field of type `t`: its Rust type, or the
/// reason it writes none.
pub open spec fn rust_type_of(t: FieldType) -> Result<Seq<char>, RustTypeError> {
    match element_type_name(t) {
        None => Err(RustTypeError::Unsupported),
        Some(name) => if t.spec_length() == 0 {
            Err(RustTypeError::EmptyArray)
        } else if t.spec_length() < 0 {
            Err(RustTypeError::NegativeLength)
        } else {
            Ok(array_type(t.spec_length() as int, name))
        },
    }
}

/// Writes the Rust type of a field of type `t`, or says why it cannot.
pub fn try_to_rust_type(t: FieldType) -> (r: Result<String, RustTypeError>)
    ensures
        match r {
            Ok(s) => rust_type_of(t) == Ok::<Seq<char>, RustTypeError>(s@),
            Err(e) => rust_type_of(t) == Err::<Seq<char>, RustTypeError>(e),
        },
{
    match t {
        FieldType::Entity { .. } => Err(RustTypeError::Unsupported),
        FieldType::Enum { .. } => Err(RustTypeError::Unsupported),
        _ => {
            let length = t.length();
            if length == 0 {
                Err(RustTypeError::EmptyArray)
            } else if length < 0 {
                Err(RustTypeError::NegativeLength)
            } else {
                Ok(to_rust_type(t))
            }
        },
    }
}

/// The Rust type of each field, for fields of supported types.
pub fn rust_field_types(types: &Vec<FieldType>) -> (r: Vec<String>)
    requires
        forall|i: int| 0 <= i < types@.len() ==> has_rust_type_spec(#[trigger] types@[i]),
    ensures
        r@.len() == types@.len(),
        forall|i: int|
            0 <= i < types@.len() ==> #[trigger] r@[i]@ == array_type(
                types@[i].spec_length() as int,
                element_type_name(types@[i]).unwrap(),
            ),
{
    let mut r: Vec<String> = Vec::new();
    let mut i: usize = 0;
    while i < types.len()
        invariant
            i <= types.len(),
            forall|j: int| 0 <= j < types@.len() ==> has_rust_type_spec(#[trigger] types@[j]),
            r@.len() == i,
            forall|j: int|
                0 <= j < i ==> #[trigger] r@[j]@ == array_type(
                    types@[j].spec_length() as int,
                    element_type_name(types@[j]).unwrap(),
                ),
        decreases types.len() - i,
    {
        r.push(to_rust_type(types[i]));
        i = i + 1;
    }
    r
}

/// The first line of every file the plugin writes.
pub fn file_header() -> (r: String)
    ensures
        r@ == "/// Generated file - DO NOT EDIT"@,
{
    String::from_str("/// Generated file - DO NOT EDIT")
}

} // verus!
