//! Descriptions of Ecsact declarations: the integer storage types of enums,
//! the types of composite fields, the capabilities a system may hold, and
//! the traits that generated declarations implement.

use vstd::prelude::*;
use vstd::std_specs::convert::FromSpecImpl;

use crate::ids::{
    ActionId, ComponentId, ComponentLikeId, CompositeId, EnumId, SystemId, SystemLikeId,
    TransientId,
};

verus! {

/// Integer types that can store the values of an Ecsact enum.
#[derive(Clone, Copy, PartialEq, Eq, Structural, Debug)]
pub enum IntType {
    I8,
    U8,
    I16,
    U16,
    I32,
    U32,
}

/// The type of a field of a composite. `length` is the number of elements:
/// 1 for a scalar, more for a fixed-size array.
#[derive(Clone, Copy, PartialEq, Eq, Structural, Debug)]
pub enum FieldType {
    Bool { length: i32 },
    I8 { length: i32 },
    U8 { length: i32 },
    I16 { length: i32 },
    U16 { length: i32 },
    I32 { length: i32 },
    U32 { length: i32 },
    F32 { length: i32 },
    Entity { length: i32 },
    Enum { id: EnumId, length: i32 },
}

/// The scalar field type that has the given integer type.
pub open spec fn field_type_of_int(int_type: IntType) -> FieldType {
    match int_type {
        IntType::I8 => FieldType::I8 { length: 1 },
        IntType::U8 => FieldType::U8 { length: 1 },
        IntType::I16 => FieldType::I16 { length: 1 },
        IntType::U16 => FieldType::U16 { length: 1 },
        IntType::I32 => FieldType::I32 { length: 1 },
        IntType::U32 => FieldType::U32 { length: 1 },
    }
}

impl FieldType {
    /// The number of elements a field of this type holds.
    pub open spec fn spec_length(self) -> i32 {
        match self {
            FieldType::Bool { length } => length,
            FieldType::I8 { length } => length,
            FieldType::U8 { length } => length,
            FieldType::I16 { length } => length,
            FieldType::U16 { length } => length,
            FieldType::I32 { length } => length,
            FieldType::U32 { length } => length,
            FieldType::F32 { length } => length,
            FieldType::Entity { length } => length,
            FieldType::Enum { id: _, length } => length,
        }
    }

    /// The number of elements a field of this type holds.
    pub fn length(&self) -> (r: i32)
        ensures
            r == self.spec_length(),
    {
        match self {
            FieldType::Bool { length } => *length,
            FieldType::I8 { length } => *length,
            FieldType::U8 { length } => *length,
            FieldType::I16 { length } => *length,
            FieldType::U16 { length } => *length,
            FieldType::I32 { length } => *length,
            FieldType::U32 { length } => *length,
            FieldType::F32 { length } => *length,
            FieldType::Entity { length } => *length,
            FieldType::Enum { id: _, length } => *length,
        }
    }
}

impl From<IntType> for FieldType {
    fn from(int_type: IntType) -> (r: FieldType) {
        match int_type {
            IntType::I8 => FieldType::I8 { length: 1 },
            IntType::U8 => FieldType::U8 { length: 1 },
            IntType::I16 => FieldType::I16 { length: 1 },
            IntType::U16 => FieldType::U16 { length: 1 },
            IntType::I32 => FieldType::I32 { length: 1 },
            IntType::U32 => FieldType::U32 { length: 1 },
        }
    }
}

impl FromSpecImpl<IntType> for FieldType {
    open spec fn obeys_from_spec() -> bool {
        true
    }

    open spec fn from_spec(v: IntType) -> FieldType {
        field_type_of_int(v)
    }
}

/// What a system may do with a component.
#[derive(Clone, Copy, PartialEq, Eq, Structural, Debug)]
pub enum SystemCapability {
    Readonly { optional: bool },
    Writeonly { optional: bool },
    Readwrite { optional: bool },
    Include,
    Exclude,
    Adds,
    Removes,
}

/// A composite: a declaration with fields (component, transient or action).
/// `ID` is the raw identifier the code generator assigned.
pub trait Composite {
    const ID: i32;
}

/// A component or a transient.
pub trait ComponentLike: Composite {
    const ID: i32;
}

/// A component declaration.
pub trait Component: ComponentLike + Composite {
    const ID: i32;
}

/// A transient declaration.
pub trait Transient: ComponentLike + Composite {
    const ID: i32;
}

/// A system or an action.
pub trait SystemLike {
    const ID: i32;
}

/// An action declaration.
pub trait Action: Composite + SystemLike {
    const ID: i32;
}

/// A system declaration.
pub trait System: SystemLike {
    const ID: i32;
}

/// The typed identifier of a component type.
pub fn component_id<C: Component>() -> (r: ComponentId)
    ensures
        r.0 == <C as Component>::ID,
{
    ComponentId(<C as Component>::ID)
}

/// The typed identifier of a transient type.
pub fn transient_id<T: Transient>() -> (r: TransientId)
    ensures
        r.0 == <T as Transient>::ID,
{
    TransientId(<T as Transient>::ID)
}

/// The typed identifier of a composite type.
pub fn composite_id<C: Composite>() -> (r: CompositeId)
    ensures
        r.0 == <C as Composite>::ID,
{
    CompositeId(<C as Composite>::ID)
}

/// The typed identifier of a component-like type.
pub fn component_like_id<C: ComponentLike>() -> (r: ComponentLikeId)
    ensures
        r.0 == <C as ComponentLike>::ID,
{
    ComponentLikeId(<C as ComponentLike>::ID)
}

/// The typed identifier of an action type.
pub fn action_id<A: Action>() -> (r: ActionId)
    ensures
        r.0 == <A as Action>::ID,
{
    ActionId(<A as Action>::ID)
}

/// The typed identifier of a system type.
pub fn system_id<S: System>() -> (r: SystemId)
    ensures
        r.0 == <S as System>::ID,
{
    SystemId(<S as System>::ID)
}

/// The typed identifier of a system-like type.
pub fn system_like_id<S: SystemLike>() -> (r: SystemLikeId)
    ensures
        r.0 == <S as SystemLike>::ID,
{
    SystemLikeId(<S as SystemLike>::ID)
}

/// Converting an integer type to a field type gives a scalar field
/// (length 1) of the same integer type, and different integer types give
/// different field types.
pub proof fn lemma_int_field_type_is_scalar(a: IntType, b: IntType)
    ensures
        field_type_of_int(a).spec_length() == 1,
        field_type_of_int(a) == field_type_of_int(b) ==> a == b,
{
}

} // verus!
