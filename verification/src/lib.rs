//! Resource and context multiplexing core of a GPU virtualization layer.
//!
//! The library owns the authoritative tables of GPU resources and rendering
//! contexts, routes guest requests to a fixed set of rendering components,
//! negotiates capability sets, and governs the export semantics of shared
//! handles. Transport parsing, device configuration and interrupt delivery
//! live outside it; the embedder calls the orchestrator with plain values
//! and carries completed fences and exported handles back to the guest.

pub mod capset;
pub mod rutabaga_core;
pub mod cross_domain;
pub mod resource;
pub mod rutabaga_2d;
pub mod registry;
pub mod rutabaga_utils;

pub use capset::calculate_context_mask;
pub use capset::calculate_context_types;
pub use capset::RutabagaCapsetInfo;
pub use cross_domain::CrossDomain;
pub use cross_domain::CrossDomainContext;
pub use registry::Registry;
pub use rutabaga_core::Rutabaga;
pub use rutabaga_core::RutabagaBuilder;
pub use rutabaga_core::RutabagaComponent;
pub use rutabaga_core::RutabagaContext;
pub use resource::Rutabaga2DInfo;
pub use resource::RutabagaResource;
pub use rutabaga_2d::Rutabaga2D;
pub use rutabaga_utils::GfxstreamFlags;
pub use rutabaga_utils::Resource3DInfo;
pub use rutabaga_utils::ResourceCreate3D;
pub use rutabaga_utils::ResourceCreateBlob;
pub use rutabaga_utils::RutabagaChannel;
pub use rutabaga_utils::RutabagaComponentType;
pub use rutabaga_utils::RutabagaError;
pub use rutabaga_utils::RutabagaFence;
pub use rutabaga_utils::RutabagaHandle;
pub use rutabaga_utils::RutabagaHandleOwnership;
pub use rutabaga_utils::RutabagaIovec;
pub use rutabaga_utils::RutabagaMapping;
pub use rutabaga_utils::RutabagaResult;
pub use rutabaga_utils::RutabagaWsi;
pub use rutabaga_utils::Transfer3D;
pub use rutabaga_utils::VirglRendererFlags;
pub use rutabaga_utils::VulkanInfo;
