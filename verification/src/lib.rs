//! Asset registry and frame renderer core.
//!
//! The crate owns the bookkeeping of a small real-time renderer: a registry
//! that maps asset names to dense index-based identifiers, an asset store
//! describing GPU-resident meshes, textures and materials, a pipeline cache,
//! a uniform bridge that packs per-frame camera/light/model data into byte
//! buffers, and a frame planner that turns world state into an explicit plan
//! of render passes and draw calls.  A thin host layer executes the plans
//! against the actual GPU and windowing stack.

pub mod handles;
pub mod registry;
pub mod gpu_types;
pub mod strings;
pub mod lights;
pub mod pipeline;
pub mod geometry;
pub mod asset_manager;
pub mod renderer;
pub mod frame;

pub use handles::{MaterialHandle, MaterialId, MeshHandle, MeshId, MeshRenderer, PipelineHandle, TextureHandle, TextureId};
pub use asset_manager::{AssetError, AssetManager, AssetManifest, MaterialConfig, MaterialData};
pub use frame::{FrameInputs, FramePlan, RenderError, SurfaceAcquire, SurfaceErrorKind, SurfaceState};
pub use pipeline::{PipelineBuilder, PipelineCache, PipelineDesc};
pub use renderer::{DrawCommand, Renderer, MODEL_MATRIX_CAPACITY};
