//! ABI-stable resource description and subresource addressing model for a
//! GPU render-graph execution system.
//!
//! The crate defines the plain value types that a render-graph compiler and
//! an execution backend exchange: resource kinds and format codes, creation
//! and aspect flag sets, clear values, buffer and image shape descriptors,
//! subresource ranges, and the bound-render-target summary. All of them are
//! copyable data with explicit 32-bit field layout and no behavior beyond
//! construction, validation, and field access.

pub mod clear;
pub mod desc;
pub mod error;
pub mod flags;
pub mod kind;
pub mod render_target;
pub mod subresource;

pub use clear::ClearColorValue;
pub use clear::ClearDepthStencilValue;
pub use clear::ClearInfo;
pub use clear::ClearValue;
pub use desc::ResourceBufferDesc;
pub use desc::ResourceBufferImageDesc;
pub use desc::ResourceDesc;
pub use desc::ResourceImageDesc;
pub use desc::RESOURCE_MAX_TEMPORAL_LAYERS;
pub use error::ValidationError;
pub use flags::ClearFlags;
pub use flags::ImageAspectUsageFlags;
pub use flags::ResourceFlags;
pub use kind::Format;
pub use kind::ResourceId;
pub use kind::ResourceType;
pub use kind::RESOURCE_ID_INVALID;
pub use render_target::CmdRenderTargetInfo;
pub use render_target::MAX_SIMULTANEOUS_RENDER_TARGET_COUNT;
pub use subresource::SubresourceRange;
