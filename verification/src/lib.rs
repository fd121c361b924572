//! Verified core of the Ecsact Rust bindings: typed identifiers, field and
//! system descriptions, and the decisions made by the code generators and
//! the runtime builder.

pub mod events;
pub mod example;
pub mod ids;
pub mod json_input;
pub mod macros;
pub mod meta;
pub mod paths;
pub mod plugin_context;
pub mod rtb;
pub mod runtime;
pub mod rust_codegen;
pub mod sdk;
pub mod support;
pub mod text;
pub mod types;

pub use events::ExecutionEventsCollector;
pub use ids::{
    ActionId, AsyncRequestId, ComponentId, ComponentLikeId, CompositeId, DeclId, EntityId, EnumId,
    EnumValueId, FieldId, PackageId, PlaceholderEntityId, RegistryId, SystemGeneratesId, SystemId,
    SystemLikeId, TransientId, VariantId,
};
pub use plugin_context::CodegenPluginContext;
pub use rtb::{EcsactRuntime, EcsactRuntimeBuilder};
pub use sdk::EcsactSdkConfig;
pub use types::{
    Action, Component, ComponentLike, Composite, FieldType, IntType, System, SystemCapability,
    SystemLike, Transient,
};
