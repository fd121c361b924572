//! Typed identifiers. Every Ecsact identifier is an opaque `i32`; wrapping it
//! in a distinct type keeps identifiers of different kinds apart, while the
//! conversions below allow the widenings that the Ecsact API permits (a
//! component is a composite, a system is system-like, and so on).

use vstd::prelude::*;
use vstd::std_specs::convert::FromSpec;
use vstd::std_specs::convert::FromSpecImpl;

verus! {

/// Identifier of a package.
#[derive(Clone, Copy, PartialEq, Eq, Structural, Hash, Debug)]
pub struct PackageId(pub i32);

impl PackageId {
    /// Wraps a raw identifier handed out by the Ecsact code generator.
    pub fn new(id: i32) -> (r: Self)
        ensures
            r.0 == id,
    {
        PackageId(id)
    }
}

impl From<i32> for PackageId {
    fn from(id: i32) -> (r: Self) {
        PackageId(id)
    }
}

impl FromSpecImpl<i32> for PackageId {
    open spec fn obeys_from_spec() -> bool {
        true
    }

    open spec fn from_spec(v: i32) -> Self {
        PackageId(v)
    }
}

impl From<PackageId> for i32 {
    fn from(id: PackageId) -> (r: i32) {
        id.0
    }
}

impl FromSpecImpl<PackageId> for i32 {
    open spec fn obeys_from_spec() -> bool {
        true
    }

    open spec fn from_spec(v: PackageId) -> i32 {
        v.0
    }
}

/// Identifier of a system.
#[derive(Clone, Copy, PartialEq, Eq, Structural, Hash, Debug)]
pub struct SystemId(pub i32);

impl SystemId {
    /// Wraps a raw identifier handed out by the Ecsact code generator.
    pub fn new(id: i32) -> (r: Self)
        ensures
            r.0 == id,
    {
        SystemId(id)
    }
}

impl From<i32> for SystemId {
    fn from(id: i32) -> (r: Self) {
        SystemId(id)
    }
}

impl FromSpecImpl<i32> for SystemId {
    open spec fn obeys_from_spec() -> bool {
        true
    }

    open spec fn from_spec(v: i32) -> Self {
        SystemId(v)
    }
}

impl From<SystemId> for i32 {
    fn from(id: SystemId) -> (r: i32) {
        id.0
    }
}

impl FromSpecImpl<SystemId> for i32 {
    open spec fn obeys_from_spec() -> bool {
        true
    }

    open spec fn from_spec(v: SystemId) -> i32 {
        v.0
    }
}

/// Identifier of an action.
#[derive(Clone, Copy, PartialEq, Eq, Structural, Hash, Debug)]
pub struct ActionId(pub i32);

impl ActionId {
    /// Wraps a raw identifier handed out by the Ecsact code generator.
    pub fn new(id: i32) -> (r: Self)
        ensures
            r.0 == id,
    {
        ActionId(id)
    }
}

impl From<i32> for ActionId {
    fn from(id: i32) -> (r: Self) {
        ActionId(id)
    }
}

impl FromSpecImpl<i32> for ActionId {
    open spec fn obeys_from_spec() -> bool {
        true
    }

    open spec fn from_spec(v: i32) -> Self {
        ActionId(v)
    }
}

impl From<ActionId> for i32 {
    fn from(id: ActionId) -> (r: i32) {
        id.0
    }
}

impl FromSpecImpl<ActionId> for i32 {
    open spec fn obeys_from_spec() -> bool {
        true
    }

    open spec fn from_spec(v: ActionId) -> i32 {
        v.0
    }
}

/// Identifier of a component.
#[derive(Clone, Copy, PartialEq, Eq, Structural, Hash, Debug)]
pub struct ComponentId(pub i32);

impl ComponentId {
    /// Wraps a raw identifier handed out by the Ecsact code generator.
    pub fn new(id: i32) -> (r: Self)
        ensures
            r.0 == id,
    {
        ComponentId(id)
    }
}

impl From<i32> for ComponentId {
    fn from(id: i32) -> (r: Self) {
        ComponentId(id)
    }
}

impl FromSpecImpl<i32> for ComponentId {
    open spec fn obeys_from_spec() -> bool {
        true
    }

    open spec fn from_spec(v: i32) -> Self {
        ComponentId(v)
    }
}

impl From<ComponentId> for i32 {
    fn from(id: ComponentId) -> (r: i32) {
        id.0
    }
}

impl FromSpecImpl<ComponentId> for i32 {
    open spec fn obeys_from_spec() -> bool {
        true
    }

    open spec fn from_spec(v: ComponentId) -> i32 {
        v.0
    }
}

/// Identifier of a transient.
#[derive(Clone, Copy, PartialEq, Eq, Structural, Hash, Debug)]
pub struct TransientId(pub i32);

impl TransientId {
    /// Wraps a raw identifier handed out by the Ecsact code generator.
    pub fn new(id: i32) -> (r: Self)
        ensures
            r.0 == id,
    {
        TransientId(id)
    }
}

impl From<i32> for TransientId {
    fn from(id: i32) -> (r: Self) {
        TransientId(id)
    }
}

impl FromSpecImpl<i32> for TransientId {
    open spec fn obeys_from_spec() -> bool {
        true
    }

    open spec fn from_spec(v: i32) -> Self {
        TransientId(v)
    }
}

impl From<TransientId> for i32 {
    fn from(id: TransientId) -> (r: i32) {
        id.0
    }
}

impl FromSpecImpl<TransientId> for i32 {
    open spec fn obeys_from_spec() -> bool {
        true
    }

    open spec fn from_spec(v: TransientId) -> i32 {
        v.0
    }
}

/// Identifier of an enum.
#[derive(Clone, Copy, PartialEq, Eq, Structural, Hash, Debug)]
pub struct EnumId(pub i32);

impl EnumId {
    /// Wraps a raw identifier handed out by the Ecsact code generator.
    pub fn new(id: i32) -> (r: Self)
        ensures
            r.0 == id,
    {
        EnumId(id)
    }
}

impl From<i32> for EnumId {
    fn from(id: i32) -> (r: Self) {
        EnumId(id)
    }
}

impl FromSpecImpl<i32> for EnumId {
    open spec fn obeys_from_spec() -> bool {
        true
    }

    open spec fn from_spec(v: i32) -> Self {
        EnumId(v)
    }
}

impl From<EnumId> for i32 {
    fn from(id: EnumId) -> (r: i32) {
        id.0
    }
}

impl FromSpecImpl<EnumId> for i32 {
    open spec fn obeys_from_spec() -> bool {
        true
    }

    open spec fn from_spec(v: EnumId) -> i32 {
        v.0
    }
}

/// Identifier of a value of an enum.
#[derive(Clone, Copy, PartialEq, Eq, Structural, Hash, Debug)]
pub struct EnumValueId(pub i32);

impl EnumValueId {
    /// Wraps a raw identifier handed out by the Ecsact code generator.
    pub fn new(id: i32) -> (r: Self)
        ensures
            r.0 == id,
    {
        EnumValueId(id)
    }
}

impl From<i32> for EnumValueId {
    fn from(id: i32) -> (r: Self) {
        EnumValueId(id)
    }
}

impl FromSpecImpl<i32> for EnumValueId {
    open spec fn obeys_from_spec() -> bool {
        true
    }

    open spec fn from_spec(v: i32) -> Self {
        EnumValueId(v)
    }
}

impl From<EnumValueId> for i32 {
    fn from(id: EnumValueId) -> (r: i32) {
        id.0
    }
}

impl FromSpecImpl<EnumValueId> for i32 {
    open spec fn obeys_from_spec() -> bool {
        true
    }

    open spec fn from_spec(v: EnumValueId) -> i32 {
        v.0
    }
}

/// Identifier of a field of a composite.
#[derive(Clone, Copy, PartialEq, Eq, Structural, Hash, Debug)]
pub struct FieldId(pub i32);

impl FieldId {
    /// Wraps a raw identifier handed out by the Ecsact code generator.
    pub fn new(id: i32) -> (r: Self)
        ensures
            r.0 == id,
    {
        FieldId(id)
    }
}

impl From<i32> for FieldId {
    fn from(id: i32) -> (r: Self) {
        FieldId(id)
    }
}

impl FromSpecImpl<i32> for FieldId {
    open spec fn obeys_from_spec() -> bool {
        true
    }

    open spec fn from_spec(v: i32) -> Self {
        FieldId(v)
    }
}

impl From<FieldId> for i32 {
    fn from(id: FieldId) -> (r: i32) {
        id.0
    }
}

impl FromSpecImpl<FieldId> for i32 {
    open spec fn obeys_from_spec() -> bool {
        true
    }

    open spec fn from_spec(v: FieldId) -> i32 {
        v.0
    }
}

/// Identifier of a variant.
#[derive(Clone, Copy, PartialEq, Eq, Structural, Hash, Debug)]
pub struct VariantId(pub i32);

impl VariantId {
    /// Wraps a raw identifier handed out by the Ecsact code generator.
    pub fn new(id: i32) -> (r: Self)
        ensures
            r.0 == id,
    {
        VariantId(id)
    }
}

impl From<i32> for VariantId {
    fn from(id: i32) -> (r: Self) {
        VariantId(id)
    }
}

impl FromSpecImpl<i32> for VariantId {
    open spec fn obeys_from_spec() -> bool {
        true
    }

    open spec fn from_spec(v: i32) -> Self {
        VariantId(v)
    }
}

impl From<VariantId> for i32 {
    fn from(id: VariantId) -> (r: i32) {
        id.0
    }
}

impl FromSpecImpl<VariantId> for i32 {
    open spec fn obeys_from_spec() -> bool {
        true
    }

    open spec fn from_spec(v: VariantId) -> i32 {
        v.0
    }
}

/// Identifier of a registry.
#[derive(Clone, Copy, PartialEq, Eq, Structural, Hash, Debug)]
pub struct RegistryId(pub i32);

impl RegistryId {
    /// Wraps a raw identifier handed out by the Ecsact code generator.
    pub fn new(id: i32) -> (r: Self)
        ensures
            r.0 == id,
    {
        RegistryId(id)
    }
}

impl From<i32> for RegistryId {
    fn from(id: i32) -> (r: Self) {
        RegistryId(id)
    }
}

impl FromSpecImpl<i32> for RegistryId {
    open spec fn obeys_from_spec() -> bool {
        true
    }

    open spec fn from_spec(v: i32) -> Self {
        RegistryId(v)
    }
}

impl From<RegistryId> for i32 {
    fn from(id: RegistryId) -> (r: i32) {
        id.0
    }
}

impl FromSpecImpl<RegistryId> for i32 {
    open spec fn obeys_from_spec() -> bool {
        true
    }

    open spec fn from_spec(v: RegistryId) -> i32 {
        v.0
    }
}

/// Identifier of an entity.
#[derive(Clone, Copy, PartialEq, Eq, Structural, Hash, Debug)]
pub struct EntityId(pub i32);

impl EntityId {
    /// Wraps a raw identifier handed out by the Ecsact code generator.
    pub fn new(id: i32) -> (r: Self)
        ensures
            r.0 == id,
    {
        EntityId(id)
    }
}

impl From<i32> for EntityId {
    fn from(id: i32) -> (r: Self) {
        EntityId(id)
    }
}

impl FromSpecImpl<i32> for EntityId {
    open spec fn obeys_from_spec() -> bool {
        true
    }

    open spec fn from_spec(v: i32) -> Self {
        EntityId(v)
    }
}

impl From<EntityId> for i32 {
    fn from(id: EntityId) -> (r: i32) {
        id.0
    }
}

impl FromSpecImpl<EntityId> for i32 {
    open spec fn obeys_from_spec() -> bool {
        true
    }

    open spec fn from_spec(v: EntityId) -> i32 {
        v.0
    }
}

/// Identifier of a placeholder entity.
#[derive(Clone, Copy, PartialEq, Eq, Structural, Hash, Debug)]
pub struct PlaceholderEntityId(pub i32);

impl PlaceholderEntityId {
    /// Wraps a raw identifier handed out by the Ecsact code generator.
    pub fn new(id: i32) -> (r: Self)
        ensures
            r.0 == id,
    {
        PlaceholderEntityId(id)
    }
}

impl From<i32> for PlaceholderEntityId {
    fn from(id: i32) -> (r: Self) {
        PlaceholderEntityId(id)
    }
}

impl FromSpecImpl<i32> for PlaceholderEntityId {
    open spec fn obeys_from_spec() -> bool {
        true
    }

    open spec fn from_spec(v: i32) -> Self {
        PlaceholderEntityId(v)
    }
}

impl From<PlaceholderEntityId> for i32 {
    fn from(id: PlaceholderEntityId) -> (r: i32) {
        id.0
    }
}

impl FromSpecImpl<PlaceholderEntityId> for i32 {
    open spec fn obeys_from_spec() -> bool {
        true
    }

    open spec fn from_spec(v: PlaceholderEntityId) -> i32 {
        v.0
    }
}

/// Identifier of a generates block of a system.
#[derive(Clone, Copy, PartialEq, Eq, Structural, Hash, Debug)]
pub struct SystemGeneratesId(pub i32);

impl SystemGeneratesId {
    /// Wraps a raw identifier handed out by the Ecsact code generator.
    pub fn new(id: i32) -> (r: Self)
        ensures
            r.0 == id,
    {
        SystemGeneratesId(id)
    }
}

impl From<i32> for SystemGeneratesId {
    fn from(id: i32) -> (r: Self) {
        SystemGeneratesId(id)
    }
}

impl FromSpecImpl<i32> for SystemGeneratesId {
    open spec fn obeys_from_spec() -> bool {
        true
    }

    open spec fn from_spec(v: i32) -> Self {
        SystemGeneratesId(v)
    }
}

impl From<SystemGeneratesId> for i32 {
    fn from(id: SystemGeneratesId) -> (r: i32) {
        id.0
    }
}

impl FromSpecImpl<SystemGeneratesId> for i32 {
    open spec fn obeys_from_spec() -> bool {
        true
    }

    open spec fn from_spec(v: SystemGeneratesId) -> i32 {
        v.0
    }
}

/// Identifier of an asynchronous request.
#[derive(Clone, Copy, PartialEq, Eq, Structural, Hash, Debug)]
pub struct AsyncRequestId(pub i32);

impl AsyncRequestId {
    /// Wraps a raw identifier handed out by the Ecsact code generator.
    pub fn new(id: i32) -> (r: Self)
        ensures
            r.0 == id,
    {
        AsyncRequestId(id)
    }
}

impl From<i32> for AsyncRequestId {
    fn from(id: i32) -> (r: Self) {
        AsyncRequestId(id)
    }
}

impl FromSpecImpl<i32> for AsyncRequestId {
    open spec fn obeys_from_spec() -> bool {
        true
    }

    open spec fn from_spec(v: i32) -> Self {
        AsyncRequestId(v)
    }
}

impl From<AsyncRequestId> for i32 {
    fn from(id: AsyncRequestId) -> (r: i32) {
        id.0
    }
}

impl FromSpecImpl<AsyncRequestId> for i32 {
    open spec fn obeys_from_spec() -> bool {
        true
    }

    open spec fn from_spec(v: AsyncRequestId) -> i32 {
        v.0
    }
}

/// Identifier of any declaration.
#[derive(Clone, Copy, PartialEq, Eq, Structural, Hash, Debug)]
pub struct DeclId(pub i32);

impl DeclId {
    /// Wraps a raw identifier handed out by the Ecsact code generator.
    pub fn new(id: i32) -> (r: Self)
        ensures
            r.0 == id,
    {
        DeclId(id)
    }
}

impl From<i32> for DeclId {
    fn from(id: i32) -> (r: Self) {
        DeclId(id)
    }
}

impl FromSpecImpl<i32> for DeclId {
    open spec fn obeys_from_spec() -> bool {
        true
    }

    open spec fn from_spec(v: i32) -> Self {
        DeclId(v)
    }
}

impl From<DeclId> for i32 {
    fn from(id: DeclId) -> (r: i32) {
        id.0
    }
}

impl FromSpecImpl<DeclId> for i32 {
    open spec fn obeys_from_spec() -> bool {
        true
    }

    open spec fn from_spec(v: DeclId) -> i32 {
        v.0
    }
}

/// Identifier of a composite (component, transient or action).
#[derive(Clone, Copy, PartialEq, Eq, Structural, Hash, Debug)]
pub struct CompositeId(pub i32);

impl CompositeId {
    /// Wraps a raw identifier handed out by the Ecsact code generator.
    pub fn new(id: i32) -> (r: Self)
        ensures
            r.0 == id,
    {
        CompositeId(id)
    }
}

impl From<i32> for CompositeId {
    fn from(id: i32) -> (r: Self) {
        CompositeId(id)
    }
}

impl FromSpecImpl<i32> for CompositeId {
    open spec fn obeys_from_spec() -> bool {
        true
    }

    open spec fn from_spec(v: i32) -> Self {
        CompositeId(v)
    }
}

impl From<CompositeId> for i32 {
    fn from(id: CompositeId) -> (r: i32) {
        id.0
    }
}

impl FromSpecImpl<CompositeId> for i32 {
    open spec fn obeys_from_spec() -> bool {
        true
    }

    open spec fn from_spec(v: CompositeId) -> i32 {
        v.0
    }
}

/// Identifier of a system or an action.
#[derive(Clone, Copy, PartialEq, Eq, Structural, Hash, Debug)]
pub struct SystemLikeId(pub i32);

impl SystemLikeId {
    /// Wraps a raw identifier handed out by the Ecsact code generator.
    pub fn new(id: i32) -> (r: Self)
        ensures
            r.0 == id,
    {
        SystemLikeId(id)
    }
}

impl From<i32> for SystemLikeId {
    fn from(id: i32) -> (r: Self) {
        SystemLikeId(id)
    }
}

impl FromSpecImpl<i32> for SystemLikeId {
    open spec fn obeys_from_spec() -> bool {
        true
    }

    open spec fn from_spec(v: i32) -> Self {
        SystemLikeId(v)
    }
}

impl From<SystemLikeId> for i32 {
    fn from(id: SystemLikeId) -> (r: i32) {
        id.0
    }
}

impl FromSpecImpl<SystemLikeId> for i32 {
    open spec fn obeys_from_spec() -> bool {
        true
    }

    open spec fn from_spec(v: SystemLikeId) -> i32 {
        v.0
    }
}

/// Identifier of a component or a transient.
#[derive(Clone, Copy, PartialEq, Eq, Structural, Hash, Debug)]
pub struct ComponentLikeId(pub i32);

impl ComponentLikeId {
    /// Wraps a raw identifier handed out by the Ecsact code generator.
    pub fn new(id: i32) -> (r: Self)
        ensures
            r.0 == id,
    {
        ComponentLikeId(id)
    }
}

impl From<i32> for ComponentLikeId {
    fn from(id: i32) -> (r: Self) {
        ComponentLikeId(id)
    }
}

impl FromSpecImpl<i32> for ComponentLikeId {
    open spec fn obeys_from_spec() -> bool {
        true
    }

    open spec fn from_spec(v: i32) -> Self {
        ComponentLikeId(v)
    }
}

impl From<ComponentLikeId> for i32 {
    fn from(id: ComponentLikeId) -> (r: i32) {
        id.0
    }
}

impl FromSpecImpl<ComponentLikeId> for i32 {
    open spec fn obeys_from_spec() -> bool {
        true
    }

    open spec fn from_spec(v: ComponentLikeId) -> i32 {
        v.0
    }
}

// Widening conversions between identifier kinds. Each keeps the raw value.

impl From<SystemId> for SystemLikeId {
    fn from(id: SystemId) -> (r: Self) {
        SystemLikeId(id.0)
    }
}

impl FromSpecImpl<SystemId> for SystemLikeId {
    open spec fn obeys_from_spec() -> bool {
        true
    }

    open spec fn from_spec(v: SystemId) -> Self {
        SystemLikeId(v.0)
    }
}

impl From<ActionId> for SystemLikeId {
    fn from(id: ActionId) -> (r: Self) {
        SystemLikeId(id.0)
    }
}

impl FromSpecImpl<ActionId> for SystemLikeId {
    open spec fn obeys_from_spec() -> bool {
        true
    }

    open spec fn from_spec(v: ActionId) -> Self {
        SystemLikeId(v.0)
    }
}

impl From<ActionId> for CompositeId {
    fn from(id: ActionId) -> (r: Self) {
        CompositeId(id.0)
    }
}

impl FromSpecImpl<ActionId> for CompositeId {
    open spec fn obeys_from_spec() -> bool {
        true
    }

    open spec fn from_spec(v: ActionId) -> Self {
        CompositeId(v.0)
    }
}

impl From<ComponentId> for CompositeId {
    fn from(id: ComponentId) -> (r: Self) {
        CompositeId(id.0)
    }
}

impl FromSpecImpl<ComponentId> for CompositeId {
    open spec fn obeys_from_spec() -> bool {
        true
    }

    open spec fn from_spec(v: ComponentId) -> Self {
        CompositeId(v.0)
    }
}

impl From<TransientId> for CompositeId {
    fn from(id: TransientId) -> (r: Self) {
        CompositeId(id.0)
    }
}

impl FromSpecImpl<TransientId> for CompositeId {
    open spec fn obeys_from_spec() -> bool {
        true
    }

    open spec fn from_spec(v: TransientId) -> Self {
        CompositeId(v.0)
    }
}

impl From<ComponentLikeId> for CompositeId {
    fn from(id: ComponentLikeId) -> (r: Self) {
        CompositeId(id.0)
    }
}

impl FromSpecImpl<ComponentLikeId> for CompositeId {
    open spec fn obeys_from_spec() -> bool {
        true
    }

    open spec fn from_spec(v: ComponentLikeId) -> Self {
        CompositeId(v.0)
    }
}

impl From<ComponentId> for DeclId {
    fn from(id: ComponentId) -> (r: Self) {
        DeclId(id.0)
    }
}

impl FromSpecImpl<ComponentId> for DeclId {
    open spec fn obeys_from_spec() -> bool {
        true
    }

    open spec fn from_spec(v: ComponentId) -> Self {
        DeclId(v.0)
    }
}

impl From<TransientId> for DeclId {
    fn from(id: TransientId) -> (r: Self) {
        DeclId(id.0)
    }
}

impl FromSpecImpl<TransientId> for DeclId {
    open spec fn obeys_from_spec() -> bool {
        true
    }

    open spec fn from_spec(v: TransientId) -> Self {
        DeclId(v.0)
    }
}

impl From<SystemId> for DeclId {
    fn from(id: SystemId) -> (r: Self) {
        DeclId(id.0)
    }
}

impl FromSpecImpl<SystemId> for DeclId {
    open spec fn obeys_from_spec() -> bool {
        true
    }

    open spec fn from_spec(v: SystemId) -> Self {
        DeclId(v.0)
    }
}

impl From<ActionId> for DeclId {
    fn from(id: ActionId) -> (r: Self) {
        DeclId(id.0)
    }
}

impl FromSpecImpl<ActionId> for DeclId {
    open spec fn obeys_from_spec() -> bool {
        true
    }

    open spec fn from_spec(v: ActionId) -> Self {
        DeclId(v.0)
    }
}

impl From<VariantId> for DeclId {
    fn from(id: VariantId) -> (r: Self) {
        DeclId(id.0)
    }
}

impl FromSpecImpl<VariantId> for DeclId {
    open spec fn obeys_from_spec() -> bool {
        true
    }

    open spec fn from_spec(v: VariantId) -> Self {
        DeclId(v.0)
    }
}

impl From<SystemLikeId> for DeclId {
    fn from(id: SystemLikeId) -> (r: Self) {
        DeclId(id.0)
    }
}

impl FromSpecImpl<SystemLikeId> for DeclId {
    open spec fn obeys_from_spec() -> bool {
        true
    }

    open spec fn from_spec(v: SystemLikeId) -> Self {
        DeclId(v.0)
    }
}

impl From<CompositeId> for DeclId {
    fn from(id: CompositeId) -> (r: Self) {
        DeclId(id.0)
    }
}

impl FromSpecImpl<CompositeId> for DeclId {
    open spec fn obeys_from_spec() -> bool {
        true
    }

    open spec fn from_spec(v: CompositeId) -> Self {
        DeclId(v.0)
    }
}

impl From<ComponentLikeId> for DeclId {
    fn from(id: ComponentLikeId) -> (r: Self) {
        DeclId(id.0)
    }
}

impl FromSpecImpl<ComponentLikeId> for DeclId {
    open spec fn obeys_from_spec() -> bool {
        true
    }

    open spec fn from_spec(v: ComponentLikeId) -> Self {
        DeclId(v.0)
    }
}

impl From<ComponentId> for ComponentLikeId {
    fn from(id: ComponentId) -> (r: Self) {
        ComponentLikeId(id.0)
    }
}

impl FromSpecImpl<ComponentId> for ComponentLikeId {
    open spec fn obeys_from_spec() -> bool {
        true
    }

    open spec fn from_spec(v: ComponentId) -> Self {
        ComponentLikeId(v.0)
    }
}

impl From<TransientId> for ComponentLikeId {
    fn from(id: TransientId) -> (r: Self) {
        ComponentLikeId(id.0)
    }
}

impl FromSpecImpl<TransientId> for ComponentLikeId {
    open spec fn obeys_from_spec() -> bool {
        true
    }

    open spec fn from_spec(v: TransientId) -> Self {
        ComponentLikeId(v.0)
    }
}

/// Converting a raw identifier to a typed one and back gives the raw
/// identifier again, and the widenings keep the raw value: converting a
/// component identifier to a composite identifier, or to a declaration
/// identifier, names the same `i32`.
pub proof fn lemma_id_round_trip(raw: i32, c: ComponentId)
    ensures
        <i32 as FromSpec<ComponentId>>::from_spec(
            <ComponentId as FromSpec<i32>>::from_spec(raw),
        ) == raw,
        <CompositeId as FromSpec<ComponentId>>::from_spec(c).0 == c.0,
        <DeclId as FromSpec<CompositeId>>::from_spec(
            <CompositeId as FromSpec<ComponentId>>::from_spec(c),
        ) == <DeclId as FromSpec<ComponentId>>::from_spec(c),
{
}


/// Every widening between identifier kinds keeps the raw identifier: a
/// component identifier seen as a composite, a declaration or a
/// component-like identifier, an action seen as system-like, and so on,
/// all name the same `i32` as the identifier they come from.
pub proof fn lemma_widenings_keep_the_raw_id(system_id: SystemId, action_id: ActionId, component_id: ComponentId, transient_id: TransientId, variant_id: VariantId, composite_id: CompositeId, system_like_id: SystemLikeId, component_like_id: ComponentLikeId)
    ensures
        <SystemLikeId as FromSpec<SystemId>>::from_spec(system_id).0 == system_id.0,
        <SystemLikeId as FromSpec<ActionId>>::from_spec(action_id).0 == action_id.0,
        <CompositeId as FromSpec<ActionId>>::from_spec(action_id).0 == action_id.0,
        <CompositeId as FromSpec<ComponentId>>::from_spec(component_id).0 == component_id.0,
        <CompositeId as FromSpec<TransientId>>::from_spec(transient_id).0 == transient_id.0,
        <CompositeId as FromSpec<ComponentLikeId>>::from_spec(component_like_id).0 == component_like_id.0,
        <DeclId as FromSpec<ComponentId>>::from_spec(component_id).0 == component_id.0,
        <DeclId as FromSpec<TransientId>>::from_spec(transient_id).0 == transient_id.0,
        <DeclId as FromSpec<SystemId>>::from_spec(system_id).0 == system_id.0,
        <DeclId as FromSpec<ActionId>>::from_spec(action_id).0 == action_id.0,
        <DeclId as FromSpec<VariantId>>::from_spec(variant_id).0 == variant_id.0,
        <DeclId as FromSpec<SystemLikeId>>::from_spec(system_like_id).0 == system_like_id.0,
        <DeclId as FromSpec<CompositeId>>::from_spec(composite_id).0 == composite_id.0,
        <DeclId as FromSpec<ComponentLikeId>>::from_spec(component_like_id).0 == component_like_id.0,
        <ComponentLikeId as FromSpec<ComponentId>>::from_spec(component_id).0 == component_id.0,
        <ComponentLikeId as FromSpec<TransientId>>::from_spec(transient_id).0 == transient_id.0,
{
}

/// Every identifier kind wraps a raw identifier as it is, and unwraps it
/// again unchanged.
pub proof fn lemma_raw_ids_round_trip(raw: i32)
    ensures
        <PackageId as FromSpec<i32>>::from_spec(raw).0 == raw,
        <i32 as FromSpec<PackageId>>::from_spec(<PackageId as FromSpec<i32>>::from_spec(raw)) == raw,
        <SystemId as FromSpec<i32>>::from_spec(raw).0 == raw,
        <i32 as FromSpec<SystemId>>::from_spec(<SystemId as FromSpec<i32>>::from_spec(raw)) == raw,
        <ActionId as FromSpec<i32>>::from_spec(raw).0 == raw,
        <i32 as FromSpec<ActionId>>::from_spec(<ActionId as FromSpec<i32>>::from_spec(raw)) == raw,
        <ComponentId as FromSpec<i32>>::from_spec(raw).0 == raw,
        <i32 as FromSpec<ComponentId>>::from_spec(<ComponentId as FromSpec<i32>>::from_spec(raw)) == raw,
        <TransientId as FromSpec<i32>>::from_spec(raw).0 == raw,
        <i32 as FromSpec<TransientId>>::from_spec(<TransientId as FromSpec<i32>>::from_spec(raw)) == raw,
        <EnumId as FromSpec<i32>>::from_spec(raw).0 == raw,
        <i32 as FromSpec<EnumId>>::from_spec(<EnumId as FromSpec<i32>>::from_spec(raw)) == raw,
        <EnumValueId as FromSpec<i32>>::from_spec(raw).0 == raw,
        <i32 as FromSpec<EnumValueId>>::from_spec(<EnumValueId as FromSpec<i32>>::from_spec(raw)) == raw,
        <FieldId as FromSpec<i32>>::from_spec(raw).0 == raw,
        <i32 as FromSpec<FieldId>>::from_spec(<FieldId as FromSpec<i32>>::from_spec(raw)) == raw,
        <VariantId as FromSpec<i32>>::from_spec(raw).0 == raw,
        <i32 as FromSpec<VariantId>>::from_spec(<VariantId as FromSpec<i32>>::from_spec(raw)) == raw,
        <RegistryId as FromSpec<i32>>::from_spec(raw).0 == raw,
        <i32 as FromSpec<RegistryId>>::from_spec(<RegistryId as FromSpec<i32>>::from_spec(raw)) == raw,
        <EntityId as FromSpec<i32>>::from_spec(raw).0 == raw,
        <i32 as FromSpec<EntityId>>::from_spec(<EntityId as FromSpec<i32>>::from_spec(raw)) == raw,
        <PlaceholderEntityId as FromSpec<i32>>::from_spec(raw).0 == raw,
        <i32 as FromSpec<PlaceholderEntityId>>::from_spec(<PlaceholderEntityId as FromSpec<i32>>::from_spec(raw)) == raw,
        <SystemGeneratesId as FromSpec<i32>>::from_spec(raw).0 == raw,
        <i32 as FromSpec<SystemGeneratesId>>::from_spec(<SystemGeneratesId as FromSpec<i32>>::from_spec(raw)) == raw,
        <AsyncRequestId as FromSpec<i32>>::from_spec(raw).0 == raw,
        <i32 as FromSpec<AsyncRequestId>>::from_spec(<AsyncRequestId as FromSpec<i32>>::from_spec(raw)) == raw,
        <DeclId as FromSpec<i32>>::from_spec(raw).0 == raw,
        <i32 as FromSpec<DeclId>>::from_spec(<DeclId as FromSpec<i32>>::from_spec(raw)) == raw,
        <CompositeId as FromSpec<i32>>::from_spec(raw).0 == raw,
        <i32 as FromSpec<CompositeId>>::from_spec(<CompositeId as FromSpec<i32>>::from_spec(raw)) == raw,
        <SystemLikeId as FromSpec<i32>>::from_spec(raw).0 == raw,
        <i32 as FromSpec<SystemLikeId>>::from_spec(<SystemLikeId as FromSpec<i32>>::from_spec(raw)) == raw,
        <ComponentLikeId as FromSpec<i32>>::from_spec(raw).0 == raw,
        <i32 as FromSpec<ComponentLikeId>>::from_spec(<ComponentLikeId as FromSpec<i32>>::from_spec(raw)) == raw,
{
}

} // verus!
