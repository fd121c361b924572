use ecsact::example::{Attacking, DamageType, Player, ATTACK_ID, GRAVITY_ID};
use ecsact::meta::{
    builtin_type_of_code, component_ids, enum_ids, enum_storage_type, enum_value_ids, field_ids,
    field_type, id_buffer, package_ids, system_like_ids, try_enum_storage_type, try_field_type,
    BuiltinType, MetaFieldType,
};
use ecsact::types::{component_id, component_like_id, composite_id};
use ecsact::{
    ComponentId, ComponentLikeId, CompositeId, DeclId, EntityId, EnumId, FieldType, IntType,
    PackageId, SystemId, SystemLikeId,
};

#[test]
fn typed_ids_round_trip() {
    let c: ComponentId = 42.into();
    let raw: i32 = c.into();
    assert_eq!(raw, 42);
    assert_eq!(ComponentId::new(-3), ComponentId::from(-3));
    let p = PackageId::new(7);
    assert_eq!(i32::from(p), 7);
}

#[test]
fn widening_conversions_keep_the_value() {
    let c = ComponentId::new(9);
    let composite: CompositeId = c.into();
    let decl: DeclId = composite.into();
    let like: ComponentLikeId = c.into();
    assert_eq!(i32::from(composite), 9);
    assert_eq!(i32::from(decl), 9);
    assert_eq!(i32::from(like), 9);
    let s: SystemLikeId = SystemId::new(11).into();
    assert_eq!(i32::from(s), 11);
}

#[test]
fn int_type_becomes_scalar_field() {
    assert_eq!(FieldType::from(IntType::U16), FieldType::U16 { length: 1 });
    assert_eq!(FieldType::from(IntType::I8), FieldType::I8 { length: 1 });
    assert_eq!(FieldType::from(IntType::U32).length(), 1);
    assert_eq!(FieldType::Enum { id: EnumId::new(1), length: 4 }.length(), 4);
}

#[test]
fn example_component_ids() {
    assert_eq!(component_id::<Player>(), ComponentId::new(2));
    assert_eq!(composite_id::<Attacking>(), CompositeId::new(5));
    assert_eq!(component_like_id::<Attacking>(), ComponentLikeId::new(5));
    assert_eq!(ATTACK_ID, 6);
    assert_eq!(GRAVITY_ID, 7);
    let a = Attacking { target: EntityId::new(3) };
    assert_eq!(i32::from(a.target), 3);
}

#[test]
fn damage_type_values() {
    assert_eq!(DamageType::Normal.value(), 0);
    assert_eq!(DamageType::Piercing.value(), 1);
    assert_eq!(DamageType::from_value(1), Some(DamageType::Piercing));
    assert_eq!(DamageType::from_value(0), Some(DamageType::Normal));
    assert_eq!(DamageType::from_value(2), None);
}

#[test]
fn builtin_codes() {
    assert_eq!(builtin_type_of_code(0), Some(BuiltinType::Bool));
    assert_eq!(builtin_type_of_code(1), Some(BuiltinType::I8));
    assert_eq!(builtin_type_of_code(2), Some(BuiltinType::U8));
    assert_eq!(builtin_type_of_code(3), Some(BuiltinType::I16));
    assert_eq!(builtin_type_of_code(4), Some(BuiltinType::U16));
    assert_eq!(builtin_type_of_code(5), Some(BuiltinType::I32));
    assert_eq!(builtin_type_of_code(6), Some(BuiltinType::U32));
    assert_eq!(builtin_type_of_code(7), Some(BuiltinType::F32));
    assert_eq!(builtin_type_of_code(8), Some(BuiltinType::Entity));
    assert_eq!(builtin_type_of_code(9), None);
}

#[test]
fn enum_storage_types() {
    assert_eq!(enum_storage_type(1), IntType::I8);
    assert_eq!(enum_storage_type(2), IntType::U8);
    assert_eq!(enum_storage_type(3), IntType::I16);
    assert_eq!(enum_storage_type(4), IntType::U16);
    assert_eq!(enum_storage_type(5), IntType::I32);
    assert_eq!(enum_storage_type(6), IntType::U32);
    assert_eq!(try_enum_storage_type(6), Some(IntType::U32));
    assert_eq!(try_enum_storage_type(0), None);
    assert_eq!(try_enum_storage_type(7), None);
    assert_eq!(try_enum_storage_type(8), None);
    assert_eq!(try_enum_storage_type(42), None);
}

#[test]
fn meta_field_types() {
    assert_eq!(
        field_type(MetaFieldType { kind: 0, builtin: 7, enum_id: 7, length: 2 }),
        FieldType::F32 { length: 2 }
    );
    assert_eq!(
        field_type(MetaFieldType { kind: 0, builtin: 8, enum_id: 8, length: 1 }),
        FieldType::Entity { length: 1 }
    );
    assert_eq!(
        field_type(MetaFieldType { kind: 0, builtin: 0, enum_id: 0, length: 3 }),
        FieldType::Bool { length: 3 }
    );
    assert_eq!(
        field_type(MetaFieldType { kind: 1, builtin: 12, enum_id: 12, length: 3 }),
        FieldType::Enum { id: EnumId::new(12), length: 3 }
    );
    assert_eq!(try_field_type(MetaFieldType { kind: 0, builtin: 9, enum_id: 9, length: 1 }), None);
    assert_eq!(try_field_type(MetaFieldType { kind: 2, builtin: 0, enum_id: 0, length: 1 }), None);
}

#[test]
fn id_buffers() {
    assert_eq!(id_buffer(3), vec![-1, -1, -1]);
    assert!(id_buffer(0).is_empty());
    assert_eq!(component_ids(vec![4, 5]), vec![ComponentId::new(4), ComponentId::new(5)]);
    assert_eq!(package_ids(vec![1]), vec![PackageId::new(1)]);
    assert_eq!(enum_ids(vec![8]), vec![EnumId::new(8)]);
    assert_eq!(field_ids(vec![0, 1]).len(), 2);
    assert_eq!(enum_value_ids(vec![2, 3]).len(), 2);
    assert_eq!(system_like_ids(vec![6, 7]), vec![SystemLikeId::new(6), SystemLikeId::new(7)]);
}
