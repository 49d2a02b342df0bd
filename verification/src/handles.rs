use vstd::prelude::*;

verus! {

/// Identifier of a mesh: an index into the asset store's dense mesh array.
/// Valid only for the store generation that issued it; a full
/// re-initialization of the store invalidates all previously issued ids.
#[derive(Debug, Clone, Copy, PartialEq, Eq, Hash, Structural)]
pub struct MeshId(pub usize);

/// Identifier of a material: an index into the asset store's dense material
/// array, scoped to one store generation like `MeshId`.
#[derive(Debug, Clone, Copy, PartialEq, Eq, Hash, Structural)]
pub struct MaterialId(pub usize);

/// Identifier of a texture: an index into the asset store's dense texture
/// array, scoped to one store generation like `MeshId`.
#[derive(Debug, Clone, Copy, PartialEq, Eq, Hash, Structural)]
pub struct TextureId(pub usize);

/// Component carried by a drawable entity: which mesh it renders.
#[derive(Debug, Clone, Copy, PartialEq, Eq, Hash, Structural)]
pub struct MeshHandle(pub MeshId);

/// Component carried by an entity that references a texture.
#[derive(Debug, Clone, Copy, PartialEq, Eq, Hash, Structural)]
pub struct TextureHandle(pub TextureId);

/// Component carried by a drawable entity: which material it renders with.
#[derive(Debug, Clone, Copy, PartialEq, Eq, Hash, Structural)]
pub struct MaterialHandle(pub MaterialId);

/// Component referencing a compiled pipeline by its slot in the cache.
#[derive(Debug, Clone, Copy, PartialEq, Eq, Hash, Structural)]
pub struct PipelineHandle(pub u32);

/// The pair of handles that makes an entity drawable: one indexed draw call
/// is issued per `MeshRenderer` each frame.
#[derive(Debug, Clone, Copy, PartialEq, Eq, Structural)]
pub struct MeshRenderer {
    pub mesh: MeshHandle,
    pub material: MaterialHandle,
}

} // verus!
