//! The declarations of the `example` Ecsact package (`example.ecsact`) that
//! hold no floating-point fields: its enum, its components `Player` and
//! `Attacking`, and the identifiers of its systems.

use vstd::prelude::*;

use crate::ids::EntityId;
use crate::types::{Component, ComponentLike, Composite};

verus! {

/// The kinds of damage an attack deals, stored as a `u8`.
#[derive(Clone, Copy, PartialEq, Eq, Structural, Debug)]
pub enum DamageType {
    Normal,
    Piercing,
}

/// The value that stores a damage type.
pub open spec fn damage_value(d: DamageType) -> u8 {
    match d {
        DamageType::Normal => 0u8,
        DamageType::Piercing => 1u8,
    }
}

/// The damage type stored as `v`, if any.
pub open spec fn damage_of(v: u8) -> Option<DamageType> {
    if v == 0 {
        Some(DamageType::Normal)
    } else if v == 1 {
        Some(DamageType::Piercing)
    } else {
        None
    }
}

impl DamageType {
    /// The stored value of the enum: 0 for `Normal`, 1 for `Piercing`.
    pub fn value(&self) -> (r: u8)
        ensures
            r == damage_value(*self),
    {
        match self {
            DamageType::Normal => 0,
            DamageType::Piercing => 1,
        }
    }

    /// The enum value stored as `v`, if any.
    pub fn from_value(v: u8) -> (r: Option<DamageType>)
        ensures
            r == damage_of(v),
    {
        if v == 0 {
            Some(DamageType::Normal)
        } else if v == 1 {
            Some(DamageType::Piercing)
        } else {
            None
        }
    }
}

/// The `Player` component (no fields).
#[derive(Clone, Copy, PartialEq, Eq, Structural, Debug)]
pub struct Player {}

impl Component for Player {
    const ID: i32 = 2;
}

impl ComponentLike for Player {
    const ID: i32 = 2;
}

impl Composite for Player {
    const ID: i32 = 2;
}

/// The `Attacking` component: the entity under attack.
#[derive(Clone, Copy, PartialEq, Eq, Structural, Debug)]
pub struct Attacking {
    pub target: EntityId,
}

impl Component for Attacking {
    const ID: i32 = 5;
}

impl ComponentLike for Attacking {
    const ID: i32 = 5;
}

impl Composite for Attacking {
    const ID: i32 = 5;
}

/// Identifier of the `Attack` action.
pub const ATTACK_ID: i32 = 6;

/// Identifier of the `Gravity` system.
pub const GRAVITY_ID: i32 = 7;

/// Storing a damage type and reading it back gives the same damage type,
/// and only the stored values of damage types read back as one.
pub proof fn lemma_damage_type_round_trip(d: DamageType, v: u8)
    ensures
        damage_of(damage_value(d)) == Some(d),
        damage_of(v) matches Some(e) ==> damage_value(e) == v,
{
}

} // verus!
