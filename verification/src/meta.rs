//! Decoding of what the Ecsact meta API reports: the builtin type codes of
//! enum storage and field types, and the buffers of raw identifiers that the
//! `get_*_ids` calls fill.

use vstd::prelude::*;
use vstd::std_specs::convert::FromSpec;

use crate::ids::{ComponentId, EnumId, EnumValueId, FieldId, PackageId, SystemLikeId};
use crate::types::{field_type_of_int, FieldType, IntType};

verus! {

/// The builtin types of the Ecsact language (`ecsact_builtin_type`).
#[derive(Clone, Copy, PartialEq, Eq, Structural, Debug)]
pub enum BuiltinType {
    Bool,
    I8,
    U8,
    I16,
    U16,
    I32,
    U32,
    F32,
    Entity,
}

/// The builtin type with the C code `code` (`ecsact_builtin_type`:
/// `ECSACT_BOOL` is 0, then `I8`, `U8`, `I16`, `U16`, `I32`, `U32`, `F32`,
/// and `ECSACT_ENTITY_TYPE` is 8); `None` for any other code.
pub open spec fn builtin_of_code(code: u32) -> Option<BuiltinType> {
    if code == 0 {
        Some(BuiltinType::Bool)
    } else if code == 1 {
        Some(BuiltinType::I8)
    } else if code == 2 {
        Some(BuiltinType::U8)
    } else if code == 3 {
        Some(BuiltinType::I16)
    } else if code == 4 {
        Some(BuiltinType::U16)
    } else if code == 5 {
        Some(BuiltinType::I32)
    } else if code == 6 {
        Some(BuiltinType::U32)
    } else if code == 7 {
        Some(BuiltinType::F32)
    } else if code == 8 {
        Some(BuiltinType::Entity)
    } else {
        None
    }
}

/// Decodes an `ecsact_builtin_type` code; `None` for a code that names no
/// builtin type.
pub fn builtin_type_of_code(code: u32) -> (r: Option<BuiltinType>)
    ensures
        r == builtin_of_code(code),
{
    if code == 0 {
        Some(BuiltinType::Bool)
    } else if code == 1 {
        Some(BuiltinType::I8)
    } else if code == 2 {
        Some(BuiltinType::U8)
    } else if code == 3 {
        Some(BuiltinType::I16)
    } else if code == 4 {
        Some(BuiltinType::U16)
    } else if code == 5 {
        Some(BuiltinType::I32)
    } else if code == 6 {
        Some(BuiltinType::U32)
    } else if code == 7 {
        Some(BuiltinType::F32)
    } else if code == 8 {
        Some(BuiltinType::Entity)
    } else {
        None
    }
}

/// The integer type that stores an enum whose storage is the builtin type
/// `b`; only the integer builtins qualify.
pub open spec fn int_type_of(b: BuiltinType) -> Option<IntType> {
    match b {
        BuiltinType::I8 => Some(IntType::I8),
        BuiltinType::U8 => Some(IntType::U8),
        BuiltinType::I16 => Some(IntType::I16),
        BuiltinType::U16 => Some(IntType::U16),
        BuiltinType::I32 => Some(IntType::I32),
        BuiltinType::U32 => Some(IntType::U32),
        _ => None,
    }
}

/// The integer type that stores an enum whose storage type has the code
/// `code`; `None` where the code names no integer builtin.
pub open spec fn storage_type_of_code(code: u32) -> Option<IntType> {
    match builtin_of_code(code) {
        Some(b) => int_type_of(b),
        None => None,
    }
}

/// The storage type of an enum whose meta storage type has the code `code`,
/// or `None` where it is not an integer type (`bool`, `f32`, entity, or no
/// builtin at all).
pub fn try_enum_storage_type(code: u32) -> (r: Option<IntType>)
    ensures
        r == storage_type_of_code(code),
{
    match builtin_type_of_code(code) {
        Some(BuiltinType::I8) => Some(IntType::I8),
        Some(BuiltinType::U8) => Some(IntType::U8),
        Some(BuiltinType::I16) => Some(IntType::I16),
        Some(BuiltinType::U16) => Some(IntType::U16),
        Some(BuiltinType::U32) => Some(IntType::U32),
        Some(BuiltinType::I32) => Some(IntType::I32),
        _ => None,
    }
}

/// The storage type of an enum whose meta storage type, with the code
/// `code`, is an integer builtin.
pub fn enum_storage_type(code: u32) -> (r: IntType)
    requires
        storage_type_of_code(code) is Some,
    ensures
        storage_type_of_code(code) == Some(r),
{
    try_enum_storage_type(code).unwrap()
}

/// A field type as the meta API reports it (`ecsact_field_type`): the kind
/// code (0 for a builtin, 1 for an enum), the type union read both as a
/// builtin code and as an enum id, and the number of elements.
#[derive(Clone, Copy, PartialEq, Eq, Structural, Debug)]
pub struct MetaFieldType {
    pub kind: u32,
    pub builtin: u32,
    pub enum_id: i32,
    pub length: i32,
}

/// The field type of the builtin `b` with `length` elements.
pub open spec fn builtin_field_type(b: BuiltinType, length: i32) -> FieldType {
    match b {
        BuiltinType::Bool => FieldType::Bool { length },
        BuiltinType::I8 => FieldType::I8 { length },
        BuiltinType::U8 => FieldType::U8 { length },
        BuiltinType::I16 => FieldType::I16 { length },
        BuiltinType::U16 => FieldType::U16 { length },
        BuiltinType::I32 => FieldType::I32 { length },
        BuiltinType::U32 => FieldType::U32 { length },
        BuiltinType::F32 => FieldType::F32 { length },
        BuiltinType::Entity => FieldType::Entity { length },
    }
}

/// The field type that a meta field type describes: a builtin (kind 0)
/// with a known code, or an enum (kind 1); `None` for any other kind or an
/// unknown builtin code.
pub open spec fn field_type_of(m: MetaFieldType) -> Option<FieldType> {
    if m.kind == 0 {
        match builtin_of_code(m.builtin) {
            Some(b) => Some(builtin_field_type(b, m.length)),
            None => None,
        }
    } else if m.kind == 1 {
        Some(FieldType::Enum { id: EnumId(m.enum_id), length: m.length })
    } else {
        None
    }
}

/// Converts the meta API's description of a field's type; `None` where it
/// names an unknown kind or builtin.
pub fn try_field_type(m: MetaFieldType) -> (r: Option<FieldType>)
    ensures
        r == field_type_of(m),
{
    let length = m.length;
    if m.kind == 0 {
        match builtin_type_of_code(m.builtin) {
            Some(BuiltinType::Bool) => Some(FieldType::Bool { length }),
            Some(BuiltinType::I8) => Some(FieldType::I8 { length }),
            Some(BuiltinType::U8) => Some(FieldType::U8 { length }),
            Some(BuiltinType::I16) => Some(FieldType::I16 { length }),
            Some(BuiltinType::U16) => Some(FieldType::U16 { length }),
            Some(BuiltinType::I32) => Some(FieldType::I32 { length }),
            Some(BuiltinType::U32) => Some(FieldType::U32 { length }),
            Some(BuiltinType::F32) => Some(FieldType::F32 { length }),
            Some(BuiltinType::Entity) => Some(FieldType::Entity { length }),
            None => None,
        }
    } else if m.kind == 1 {
        Some(FieldType::Enum { id: EnumId(m.enum_id), length })
    } else {
        None
    }
}

/// Converts the meta API's description of a field's type, of a known kind
/// and builtin.
pub fn field_type(m: MetaFieldType) -> (r: FieldType)
    requires
        field_type_of(m) is Some,
    ensures
        field_type_of(m) == Some(r),
{
    try_field_type(m).unwrap()
}

/// The builtin type a field type holds its elements in; `None` for an enum
/// field.
pub open spec fn element_builtin(t: FieldType) -> Option<BuiltinType> {
    match t {
        FieldType::Bool { .. } => Some(BuiltinType::Bool),
        FieldType::I8 { .. } => Some(BuiltinType::I8),
        FieldType::U8 { .. } => Some(BuiltinType::U8),
        FieldType::I16 { .. } => Some(BuiltinType::I16),
        FieldType::U16 { .. } => Some(BuiltinType::U16),
        FieldType::I32 { .. } => Some(BuiltinType::I32),
        FieldType::U32 { .. } => Some(BuiltinType::U32),
        FieldType::F32 { .. } => Some(BuiltinType::F32),
        FieldType::Entity { .. } => Some(BuiltinType::Entity),
        FieldType::Enum { .. } => None,
    }
}

/// Decoding a field type keeps what the meta API reported: a builtin field
/// holds its elements in the builtin its code names, with the reported
/// length; an enum field names the reported enum, with the reported length;
/// builtin fields decoded from different codes (of the same length) differ;
/// and a scalar field of an integer builtin is the field type of the
/// integer type that an enum with that storage code has.
pub proof fn lemma_field_type_keeps_builtin(m: MetaFieldType, n: MetaFieldType)
    ensures
        m.kind == 0 && builtin_of_code(m.builtin) is Some ==> field_type_of(m) is Some
            && element_builtin(field_type_of(m).unwrap()) == builtin_of_code(m.builtin)
            && field_type_of(m).unwrap().spec_length() == m.length,
        m.kind == 1 ==> (field_type_of(m) matches Some(FieldType::Enum { id, length }) && id.0
            == m.enum_id && length == m.length),
        m.kind == 0 && n.kind == 0 && m.length == n.length && field_type_of(m) is Some
            && field_type_of(n) is Some && m.builtin != n.builtin ==> field_type_of(m)
            != field_type_of(n),
        m.kind == 0 && m.length == 1 && storage_type_of_code(m.builtin) is Some ==> field_type_of(m)
            == Some(field_type_of_int(storage_type_of_code(m.builtin).unwrap())),
{
}

/// A buffer of `count` raw identifiers, each `-1` until the meta API fills
/// it. A negative count is refused.
pub fn id_buffer(count: i32) -> (r: Vec<i32>)
    requires
        count >= 0,
    ensures
        r@ == Seq::new(count as nat, |_i: int| -1i32),
{
    let mut ids: Vec<i32> = Vec::new();
    let n = count as usize;
    let mut i: usize = 0;
    while i < n
        invariant
            n == count as nat,
            i <= n,
            ids@ == Seq::new(i as nat, |_i: int| -1i32),
        decreases n - i,
    {
        ids.push(-1);
        i = i + 1;
        assert(ids@ =~= Seq::new(i as nat, |_i: int| -1i32));
    }
    ids
}

/// The typed identifiers of the raw identifiers a buffer holds, in order.
fn typed_ids<T: From<i32>>(raw: Vec<i32>) -> (r: Vec<T>)
    requires
        <T as FromSpec<i32>>::obeys_from_spec(),
    ensures
        r@ == raw@.map_values(|id: i32| <T as FromSpec<i32>>::from_spec(id)),
{
    let mut r: Vec<T> = Vec::new();
    let mut i: usize = 0;
    while i < raw.len()
        invariant
            i <= raw.len(),
            <T as FromSpec<i32>>::obeys_from_spec(),
            r@ == raw@.take(i as int).map_values(|id: i32| <T as FromSpec<i32>>::from_spec(id)),
        decreases raw.len() - i,
    {
        r.push(T::from(raw[i]));
        i = i + 1;
        assert(r@ =~= raw@.take(i as int).map_values(
            |id: i32| <T as FromSpec<i32>>::from_spec(id),
        ));
    }
    assert(raw@.take(raw.len() as int) =~= raw@);
    r
}

/// The enum value identifiers a buffer holds.
pub fn enum_value_ids(raw: Vec<i32>) -> (r: Vec<EnumValueId>)
    ensures
        r@ == raw@.map_values(|id: i32| EnumValueId(id)),
{
    let r = typed_ids::<EnumValueId>(raw);
    assert(r@ =~= raw@.map_values(|id: i32| EnumValueId(id)));
    r
}

/// The enum identifiers a buffer holds.
pub fn enum_ids(raw: Vec<i32>) -> (r: Vec<EnumId>)
    ensures
        r@ == raw@.map_values(|id: i32| EnumId(id)),
{
    let r = typed_ids::<EnumId>(raw);
    assert(r@ =~= raw@.map_values(|id: i32| EnumId(id)));
    r
}

/// The field identifiers a buffer holds.
pub fn field_ids(raw: Vec<i32>) -> (r: Vec<FieldId>)
    ensures
        r@ == raw@.map_values(|id: i32| FieldId(id)),
{
    let r = typed_ids::<FieldId>(raw);
    assert(r@ =~= raw@.map_values(|id: i32| FieldId(id)));
    r
}

/// The component identifiers a buffer holds.
pub fn component_ids(raw: Vec<i32>) -> (r: Vec<ComponentId>)
    ensures
        r@ == raw@.map_values(|id: i32| ComponentId(id)),
{
    let r = typed_ids::<ComponentId>(raw);
    assert(r@ =~= raw@.map_values(|id: i32| ComponentId(id)));
    r
}

/// The system-like identifiers a buffer holds.
pub fn system_like_ids(raw: Vec<i32>) -> (r: Vec<SystemLikeId>)
    ensures
        r@ == raw@.map_values(|id: i32| SystemLikeId(id)),
{
    let r = typed_ids::<SystemLikeId>(raw);
    assert(r@ =~= raw@.map_values(|id: i32| SystemLikeId(id)));
    r
}

/// The package identifiers a buffer holds.
pub fn package_ids(raw: Vec<i32>) -> (r: Vec<PackageId>)
    ensures
        r@ == raw@.map_values(|id: i32| PackageId(id)),
{
    let r = typed_ids::<PackageId>(raw);
    assert(r@ =~= raw@.map_values(|id: i32| PackageId(id)));
    r
}

} // verus!
