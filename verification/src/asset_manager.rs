use vstd::prelude::*;
use crate::gpu_types::MaterialUniform;
use crate::handles::{MaterialId, MeshId, TextureId};
use crate::pipeline::PipelineCache;
use crate::registry::NameRegistry;
use crate::geometry::{CUBE_INDEX_COUNT, CUBE_VERTEX_COUNT};
use crate::gpu_types::F32_HALF_BITS;
use crate::pipeline::{layouts_match, MATERIAL_BIND_GROUP_INDEX};
use crate::strings::{contains_seq, file_name_of, file_name_of_spec, str_contains};
use vstd::string::StringExecFns;

verus! {

/// The pixel format a texture is uploaded with.
#[derive(Debug, Clone, Copy, PartialEq, Eq, Structural)]
pub enum TextureFormat {
    /// Linear, non-color-managed: for normal maps and data textures.
    Rgba8Unorm,
    /// sRGB-encoded: for regular color textures.
    Rgba8UnormSrgb,
}

/// Where a texture's pixels come from: an image file on disk, or a single
/// generated pixel (built-in fallbacks).
#[derive(Debug, Clone, PartialEq)]
pub enum TextureSource {
    File(String),
    Solid([u8; 4]),
}

/// A GPU-resident 2D texture as the store describes it: format, extent and
/// pixel source.  The host uploads the pixels and keeps the actual texture
/// view in the slot with the same index.
#[derive(Debug, Clone, PartialEq)]
pub struct TextureRecord {
    pub format: TextureFormat,
    pub width: u32,
    pub height: u32,
    pub source: TextureSource,
}

/// A GPU-resident mesh as the store describes it: how many vertices its
/// vertex buffer holds and how many indices each draw call covers.  The
/// host keeps the actual vertex/index buffers in the slot with the same
/// index.
#[derive(Debug, Clone, Copy, PartialEq, Eq, Structural)]
pub struct MeshBuffers {
    pub num_vertices: u32,
    pub num_indices: u32,
}

/// What a material's bind group binds at the normal-texture slot: a
/// declared texture, or the built-in flat 1x1 "pointing up" normal texture.
#[derive(Debug, Clone, Copy, PartialEq, Eq, Structural)]
pub enum NormalBinding {
    Texture(TextureId),
    DefaultNormal,
}

/// The per-material bind group: diffuse texture at binding 0, the shared
/// default sampler at binding 1, the material uniform at binding 2, and the
/// normal texture at binding 3, matching the material bind group layout.
#[derive(Debug, Clone, Copy, PartialEq)]
pub struct MaterialBindGroup {
    pub diffuse: TextureId,
    pub uniform: MaterialUniform,
    pub normal: NormalBinding,
}

/// A built material: which pipeline its bind group was built against, and
/// the bind group itself.  The bind group is only valid when drawn with the
/// pipeline named here.
#[derive(Debug, Clone, PartialEq)]
pub struct MaterialData {
    pub pipeline_name: String,
    pub bind_group: MaterialBindGroup,
}

/// A material declaration from the manifest.  `roughness` and `metallic`
/// are IEEE-754 bit patterns.
#[derive(Debug, Clone, PartialEq)]
pub struct MaterialConfig {
    pub pipeline: String,
    pub diffuse: String,
    pub normal: Option<String>,
    pub roughness: u32,
    pub metallic: u32,
}

/// One name-to-path texture declaration of the manifest.
#[derive(Debug, Clone, PartialEq)]
pub struct TextureEntry {
    pub name: String,
    pub path: String,
}

/// One name-to-path mesh declaration of the manifest.
#[derive(Debug, Clone, PartialEq)]
pub struct MeshEntry {
    pub name: String,
    pub path: String,
}

/// One named material declaration of the manifest.
#[derive(Debug, Clone, PartialEq)]
pub struct MaterialEntry {
    pub name: String,
    pub config: MaterialConfig,
}

/// The asset manifest: the declarative description of every texture, mesh
/// and material to load, read once at initialization.
#[derive(Debug, Clone, PartialEq)]
pub struct AssetManifest {
    pub textures: Vec<TextureEntry>,
    pub meshes: Vec<MeshEntry>,
    pub materials: Vec<MaterialEntry>,
}

/// What the host's loaders produced for one declared texture: the decoded
/// image's extent.
#[derive(Debug, Clone, Copy, PartialEq, Eq, Structural)]
pub struct LoadedTexture {
    pub width: u32,
    pub height: u32,
}

/// What the host's loaders produced for one declared mesh: its vertex and
/// index counts.
#[derive(Debug, Clone, Copy, PartialEq, Eq, Structural)]
pub struct LoadedMesh {
    pub num_vertices: u32,
    pub num_indices: u32,
}

/// The decoded raw data for every manifest entry, in manifest order.
#[derive(Debug, Clone, PartialEq)]
pub struct LoadedAssets {
    pub textures: Vec<LoadedTexture>,
    pub meshes: Vec<LoadedMesh>,
}

/// A fatal configuration error: initialization aborts on the first one.
#[derive(Debug, Clone, Copy, PartialEq, Eq, Structural)]
pub enum AssetError {
    /// A name was resolved that no register call (since the last clear)
    /// established.
    NotFound,
    /// A material declared a pipeline that the pipeline cache does not hold.
    PipelineNotFound,
    /// A material declared a pipeline whose material-slot layout does not
    /// match the layout material bind groups are built against.
    LayoutMismatch,
    /// A material declared a diffuse texture that is not registered.
    TextureNotFound,
    /// A material declared a normal texture that is not registered.
    NormalTextureNotFound,
}

/// The texture format chosen for a path: file names carrying the normal-map
/// or data marker use the linear format, every other texture the
/// sRGB-encoded one.
pub open spec fn texture_format_spec(path: Seq<char>) -> TextureFormat {
    if contains_seq(file_name_of_spec(path), "_n."@) || contains_seq(
        file_name_of_spec(path),
        "_data."@,
    ) {
        TextureFormat::Rgba8Unorm
    } else {
        TextureFormat::Rgba8UnormSrgb
    }
}

/// Apply the format selection rule to a texture path.
pub fn texture_format_for(path: &str) -> (r: TextureFormat)
    ensures
        r == texture_format_spec(path@),
{
    let file_name = file_name_of(path);
    if str_contains(file_name, "_n.") || str_contains(file_name, "_data.") {
        TextureFormat::Rgba8Unorm
    } else {
        TextureFormat::Rgba8UnormSrgb
    }
}

/// The asset store: owns the dense arrays of mesh, texture and material
/// descriptions, the name registries that issue identifiers into them, and
/// the pipeline cache.  The host mirrors each dense array with the actual
/// GPU objects at the same indices, so identifiers are shared between the
/// two and stay valid for one store generation (until the next clear).
pub struct AssetManager {
    meshes: Vec<MeshBuffers>,
    materials: Vec<MaterialData>,
    texture_views: Vec<TextureRecord>,
    mesh_registry: NameRegistry,
    material_registry: NameRegistry,
    texture_registry: NameRegistry,
    pub pipeline_cache: PipelineCache,
}

impl AssetManager {
    /// Registries line up with their dense arrays: every issued identifier
    /// is a valid index.
    pub closed spec fn wf(self) -> bool {
        &&& self.mesh_registry.wf()
        &&& self.material_registry.wf()
        &&& self.texture_registry.wf()
        &&& self.mesh_registry.ids_below(self.meshes@.len())
        &&& self.material_registry.ids_below(self.materials@.len())
        &&& self.texture_registry.ids_below(self.texture_views@.len())
        &&& self.pipeline_cache.wf()
    }

    /// The pipeline cache, for specifications.
    pub closed spec fn cache(self) -> PipelineCache {
        self.pipeline_cache
    }

    /// The name-to-identifier map of the mesh category.
    pub closed spec fn mesh_names(self) -> Map<Seq<char>, usize> {
        self.mesh_registry@
    }

    /// The name-to-identifier map of the material category.
    pub closed spec fn material_names(self) -> Map<Seq<char>, usize> {
        self.material_registry@
    }

    /// The name-to-identifier map of the texture category.
    pub closed spec fn texture_names(self) -> Map<Seq<char>, usize> {
        self.texture_registry@
    }

    /// The dense array of mesh descriptions.
    pub closed spec fn mesh_seq(self) -> Seq<MeshBuffers> {
        self.meshes@
    }

    /// The dense array of built materials.
    pub closed spec fn material_seq(self) -> Seq<MaterialData> {
        self.materials@
    }

    /// The dense array of texture descriptions.
    pub closed spec fn texture_seq(self) -> Seq<TextureRecord> {
        self.texture_views@
    }

    /// How many meshes are live in this store generation.
    pub open spec fn spec_mesh_count(self) -> nat {
        self.mesh_seq().len()
    }

    /// How many materials are live in this store generation.
    pub open spec fn spec_material_count(self) -> nat {
        self.material_seq().len()
    }

    /// How many textures are live in this store generation.
    pub open spec fn spec_texture_count(self) -> nat {
        self.texture_seq().len()
    }

    /// An empty store with an empty pipeline cache.
    pub fn new() -> (r: Self)
        ensures
            r.wf(),
            r.mesh_names() == Map::<Seq<char>, usize>::empty(),
            r.material_names() == Map::<Seq<char>, usize>::empty(),
            r.texture_names() == Map::<Seq<char>, usize>::empty(),
            r.spec_mesh_count() == 0,
            r.spec_material_count() == 0,
            r.spec_texture_count() == 0,
            r.cache().names() == Map::<Seq<char>, usize>::empty(),
            r.cache().count() == 0,
    {
        AssetManager {
            meshes: Vec::new(),
            materials: Vec::new(),
            texture_views: Vec::new(),
            mesh_registry: NameRegistry::new(),
            material_registry: NameRegistry::new(),
            texture_registry: NameRegistry::new(),
            pipeline_cache: PipelineCache::new(),
        }
    }

    /// Empty all three asset categories and their name maps in one mutation
    /// unit; the pipeline cache survives.  Used before a full
    /// re-initialization; every identifier issued before the clear becomes
    /// stale.
    pub fn clear_assets(&mut self)
        requires
            old(self).wf(),
        ensures
            final(self).wf(),
            final(self).mesh_names() == Map::<Seq<char>, usize>::empty(),
            final(self).material_names() == Map::<Seq<char>, usize>::empty(),
            final(self).texture_names() == Map::<Seq<char>, usize>::empty(),
            final(self).spec_mesh_count() == 0,
            final(self).spec_material_count() == 0,
            final(self).spec_texture_count() == 0,
            final(self).cache() == old(self).cache(),
    {
        self.meshes.clear();
        self.materials.clear();
        self.texture_views.clear();
        self.mesh_registry.clear();
        self.material_registry.clear();
        self.texture_registry.clear();
    }

    /// How many meshes are live in this store generation.
    pub fn mesh_count(&self) -> (r: usize)
        ensures
            r == self.spec_mesh_count(),
    {
        self.meshes.len()
    }

    /// How many materials are live in this store generation.
    pub fn material_count(&self) -> (r: usize)
        ensures
            r == self.spec_material_count(),
    {
        self.materials.len()
    }

    /// How many textures are live in this store generation.
    pub fn texture_count(&self) -> (r: usize)
        ensures
            r == self.spec_texture_count(),
    {
        self.texture_views.len()
    }

    /// Register: append a mesh to the dense array and map `name` to its
    /// identifier.
    pub fn register_mesh(&mut self, name: &str, mesh: MeshBuffers) -> (r: MeshId)
        requires
            old(self).wf(),
        ensures
            final(self).wf(),
            r.0 == old(self).spec_mesh_count(),
            final(self).mesh_names() == old(self).mesh_names().insert(name@, r.0),
            final(self).mesh_seq() == old(self).mesh_seq().push(mesh),
            final(self).material_names() == old(self).material_names(),
            final(self).texture_names() == old(self).texture_names(),
            final(self).material_seq() == old(self).material_seq(),
            final(self).texture_seq() == old(self).texture_seq(),
            final(self).cache() == old(self).cache(),
    {
        let id = MeshId(self.meshes.len());
        self.meshes.push(mesh);
        self.mesh_registry.register(name, id.0);
        proof {
            assert forall|n: Seq<char>| #[trigger] self.mesh_registry@.contains_key(n) implies (
            self.mesh_registry@[n] as nat) < self.meshes@.len() by {
                if n != name@ {
                    assert(old(self).mesh_registry@.contains_key(n));
                }
            }
        }
        id
    }

    /// Register: append a texture to the dense array and map `name` to its
    /// identifier.
    pub fn register_texture(&mut self, name: &str, texture: TextureRecord) -> (r: TextureId)
        requires
            old(self).wf(),
        ensures
            final(self).wf(),
            r.0 == old(self).spec_texture_count(),
            final(self).texture_names() == old(self).texture_names().insert(name@, r.0),
            final(self).texture_seq() == old(self).texture_seq().push(texture),
            final(self).mesh_names() == old(self).mesh_names(),
            final(self).material_names() == old(self).material_names(),
            final(self).mesh_seq() == old(self).mesh_seq(),
            final(self).material_seq() == old(self).material_seq(),
            final(self).cache() == old(self).cache(),
    {
        let id = TextureId(self.texture_views.len());
        self.texture_views.push(texture);
        self.texture_registry.register(name, id.0);
        proof {
            assert forall|n: Seq<char>| #[trigger] self.texture_registry@.contains_key(n) implies (
            self.texture_registry@[n] as nat) < self.texture_views@.len() by {
                if n != name@ {
                    assert(old(self).texture_registry@.contains_key(n));
                }
            }
        }
        id
    }

    /// Resolve a mesh name; `NotFound` is a fatal configuration error at
    /// load time.
    pub fn resolve_mesh(&self, name: &str) -> (r: Result<MeshId, AssetError>)
        requires
            self.wf(),
        ensures
            self.mesh_names().contains_key(name@) ==> r == Ok::<MeshId, AssetError>(
                MeshId(self.mesh_names()[name@]),
            ),
            !self.mesh_names().contains_key(name@) ==> r == Err::<MeshId, AssetError>(
                AssetError::NotFound,
            ),
            r matches Ok(id) ==> id.0 < self.spec_mesh_count(),
    {
        match self.mesh_registry.resolve(name) {
            Some(i) => {
                proof {
                    assert(self.mesh_registry@.contains_key(name@));
                }
                Ok(MeshId(i))
            },
            None => Err(AssetError::NotFound),
        }
    }

    /// Resolve a material name; `NotFound` is a fatal configuration error
    /// at load time.
    pub fn resolve_material(&self, name: &str) -> (r: Result<MaterialId, AssetError>)
        requires
            self.wf(),
        ensures
            self.material_names().contains_key(name@) ==> r == Ok::<MaterialId, AssetError>(
                MaterialId(self.material_names()[name@]),
            ),
            !self.material_names().contains_key(name@) ==> r == Err::<MaterialId, AssetError>(
                AssetError::NotFound,
            ),
            r matches Ok(id) ==> id.0 < self.spec_material_count(),
    {
        match self.material_registry.resolve(name) {
            Some(i) => {
                proof {
                    assert(self.material_registry@.contains_key(name@));
                }
                Ok(MaterialId(i))
            },
            None => Err(AssetError::NotFound),
        }
    }

    /// Resolve a texture name; `NotFound` is a fatal configuration error at
    /// load time.
    pub fn resolve_texture(&self, name: &str) -> (r: Result<TextureId, AssetError>)
        requires
            self.wf(),
        ensures
            self.texture_names().contains_key(name@) ==> r == Ok::<TextureId, AssetError>(
                TextureId(self.texture_names()[name@]),
            ),
            !self.texture_names().contains_key(name@) ==> r == Err::<TextureId, AssetError>(
                AssetError::NotFound,
            ),
            r matches Ok(id) ==> id.0 < self.spec_texture_count(),
    {
        match self.texture_registry.resolve(name) {
            Some(i) => {
                proof {
                    assert(self.texture_registry@.contains_key(name@));
                }
                Ok(TextureId(i))
            },
            None => Err(AssetError::NotFound),
        }
    }

    /// The identifier of a registered mesh; callers must know the name is
    /// registered (a miss is a fatal configuration error, so resolve first
    /// where that is not established).
    pub fn get_mesh_id(&self, name: &str) -> (r: MeshId)
        requires
            self.wf(),
            self.mesh_names().contains_key(name@),
        ensures
            r.0 == self.mesh_names()[name@],
            r.0 < self.spec_mesh_count(),
    {
        match self.mesh_registry.resolve(name) {
            Some(i) => {
                proof {
                    assert(self.mesh_registry@.contains_key(name@));
                }
                MeshId(i)
            },
            None => MeshId(0),
        }
    }

    /// The identifier of a registered material; see `get_mesh_id`.
    pub fn get_material_id(&self, name: &str) -> (r: MaterialId)
        requires
            self.wf(),
            self.material_names().contains_key(name@),
        ensures
            r.0 == self.material_names()[name@],
            r.0 < self.spec_material_count(),
    {
        match self.material_registry.resolve(name) {
            Some(i) => {
                proof {
                    assert(self.material_registry@.contains_key(name@));
                }
                MaterialId(i)
            },
            None => MaterialId(0),
        }
    }

    /// Dereference a mesh identifier.  Callers must never retain an
    /// identifier across a re-initialization: only identifiers of the
    /// current generation are valid indices.
    pub fn get_mesh(&self, id: MeshId) -> (r: &MeshBuffers)
        requires
            id.0 < self.spec_mesh_count(),
        ensures
            *r == self.mesh_seq()[id.0 as int],
    {
        &self.meshes[id.0]
    }

    /// Dereference a material identifier; see `get_mesh`.
    pub fn get_material(&self, id: MaterialId) -> (r: &MaterialData)
        requires
            id.0 < self.spec_material_count(),
        ensures
            *r == self.material_seq()[id.0 as int],
    {
        &self.materials[id.0]
    }

    /// Borrow the pipeline cache, for callers that resolve pipelines while
    /// planning a frame.
    pub fn cache_ref(&self) -> (r: &PipelineCache)
        requires
            self.wf(),
        ensures
            *r == self.cache(),
            r.wf(),
    {
        &self.pipeline_cache
    }

    /// Dereference a texture identifier; see `get_mesh`.
    pub fn get_texture(&self, id: TextureId) -> (r: &TextureRecord)
        requires
            id.0 < self.spec_texture_count(),
        ensures
            *r == self.texture_seq()[id.0 as int],
    {
        &self.texture_views[id.0]
    }
}

/// The error that building a material with `config` runs into, checked in
/// order: unresolvable pipeline, material-slot layout mismatch,
/// unresolvable diffuse texture, unresolvable normal texture; `None` when
/// the material can be built.
pub open spec fn config_error_for(
    cache: crate::pipeline::PipelineCache,
    textures: Map<Seq<char>, usize>,
    config: MaterialConfig,
) -> Option<AssetError> {
    if !cache.contains_name(config.pipeline@) {
        Some(AssetError::PipelineNotFound)
    } else if !cache.pipeline_named(config.pipeline@).has_material_slot() {
        Some(AssetError::LayoutMismatch)
    } else if !textures.contains_key(config.diffuse@) {
        Some(AssetError::TextureNotFound)
    } else if (match config.normal {
        Some(n) => !textures.contains_key(n@),
        None => false,
    }) {
        Some(AssetError::NormalTextureNotFound)
    } else {
        None
    }
}

/// The error that building the built-in flat material runs into: it uses
/// the pipeline named `standard` and only its own just-registered diffuse
/// texture, so only the pipeline lookup and layout check can fail.
pub open spec fn standard_error(cache: crate::pipeline::PipelineCache) -> Option<AssetError> {
    if !cache.contains_name("standard"@) {
        Some(AssetError::PipelineNotFound)
    } else if !cache.pipeline_named("standard"@).has_material_slot() {
        Some(AssetError::LayoutMismatch)
    } else {
        None
    }
}

/// The built material `m` realizes `config` against the texture map
/// `textures`: same pipeline name, diffuse resolved through the map,
/// parameters copied with zero padding, and the normal slot bound to the
/// declared texture or to the built-in default normal when none was
/// declared.
pub open spec fn material_matches_config(
    m: MaterialData,
    config: MaterialConfig,
    textures: Map<Seq<char>, usize>,
) -> bool {
    &&& m.pipeline_name@ == config.pipeline@
    &&& textures.contains_key(config.diffuse@)
    &&& m.bind_group.diffuse == TextureId(textures[config.diffuse@])
    &&& m.bind_group.uniform.roughness == config.roughness
    &&& m.bind_group.uniform.metallic == config.metallic
    &&& m.bind_group.uniform._padding@ == seq![0u32, 0u32]
    &&& (match config.normal {
        Some(n) => textures.contains_key(n@) && m.bind_group.normal == NormalBinding::Texture(
            TextureId(textures[n@]),
        ),
        None => m.bind_group.normal == NormalBinding::DefaultNormal,
    })
}

impl AssetManager {
    /// Build a material from its declaration: resolve the declared
    /// pipeline, check that its material-slot layout matches the layout
    /// bind groups are built against, resolve the diffuse (and optional
    /// normal) texture, build the uniform and bind group, and register the
    /// material under `name`.  Any unresolvable reference is a fatal
    /// configuration error and leaves the store unchanged.
    pub fn create_material(&mut self, name: &str, config: &MaterialConfig) -> (r: Result<
        MaterialId,
        AssetError,
    >)
        requires
            old(self).wf(),
        ensures
            final(self).wf(),
            (match config_error_for(old(self).cache(), old(self).texture_names(), *config) {
                Some(e) => r == Err::<MaterialId, AssetError>(e) && *final(self) == *old(self),
                None => {
                    &&& r == Ok::<MaterialId, AssetError>(
                        MaterialId(old(self).spec_material_count() as usize),
                    )
                    &&& final(self).material_names() == old(self).material_names().insert(
                        name@,
                        old(self).spec_material_count() as usize,
                    )
                    &&& final(self).material_seq().len() == old(self).spec_material_count() + 1
                    &&& final(self).material_seq().take(old(self).spec_material_count() as int)
                        == old(self).material_seq()
                    &&& material_matches_config(
                        final(self).material_seq().last(),
                        *config,
                        old(self).texture_names(),
                    )
                    &&& final(self).mesh_names() == old(self).mesh_names()
                    &&& final(self).texture_names() == old(self).texture_names()
                    &&& final(self).mesh_seq() == old(self).mesh_seq()
                    &&& final(self).texture_seq() == old(self).texture_seq()
                    &&& final(self).cache() == old(self).cache()
                },
            }),
    {
        let expected = crate::gpu_types::MaterialUniform::bind_group_layout();
        match self.pipeline_cache.get(config.pipeline.as_str()) {
            None => {
                return Err(AssetError::PipelineNotFound);
            },
            Some(p) => {
                if p.bind_group_layouts.len() <= MATERIAL_BIND_GROUP_INDEX {
                    return Err(AssetError::LayoutMismatch);
                }
                if !layouts_match(&p.bind_group_layouts[MATERIAL_BIND_GROUP_INDEX], &expected) {
                    return Err(AssetError::LayoutMismatch);
                }
            },
        }
        let diffuse = match self.texture_registry.resolve(config.diffuse.as_str()) {
            Some(i) => TextureId(i),
            None => {
                return Err(AssetError::TextureNotFound);
            },
        };
        let normal = match &config.normal {
            Some(n) => {
                match self.texture_registry.resolve(n.as_str()) {
                    Some(i) => NormalBinding::Texture(TextureId(i)),
                    None => {
                        return Err(AssetError::NormalTextureNotFound);
                    },
                }
            },
            None => NormalBinding::DefaultNormal,
        };
        let uniform = MaterialUniform::new(config.roughness, config.metallic);
        let id = MaterialId(self.materials.len());
        self.materials.push(
            MaterialData {
                pipeline_name: config.pipeline.clone(),
                bind_group: MaterialBindGroup { diffuse, uniform, normal },
            },
        );
        self.material_registry.register(name, id.0);
        proof {
            assert forall|n: Seq<char>| #[trigger] self.material_registry@.contains_key(n) implies (
            self.material_registry@[n] as nat) < self.materials@.len() by {
                if n != name@ {
                    assert(old(self).material_registry@.contains_key(n));
                }
            }
            assert(self.materials@.take(old(self).materials@.len() as int) =~= old(
                self,
            ).materials@);
        }
        Ok(id)
    }

    /// Register a generated 1x1 sRGB texture named `<material_name>_diffuse`
    /// holding the given color, then build a material over it with the
    /// `standard` pipeline, no normal map, and the given parameters.
    pub fn create_single_color_material(
        &mut self,
        material_name: &str,
        rgba: [u8; 4],
        roughness: u32,
        metallic: u32,
    ) -> (r: Result<MaterialId, AssetError>)
        requires
            old(self).wf(),
        ensures
            final(self).wf(),
            final(self).texture_names() == old(self).texture_names().insert(
                material_name@ + "_diffuse"@,
                old(self).spec_texture_count() as usize,
            ),
            final(self).texture_seq().len() == old(self).spec_texture_count() + 1,
            final(self).texture_seq().take(old(self).spec_texture_count() as int) == old(
                self,
            ).texture_seq(),
            final(self).texture_seq().last().format == TextureFormat::Rgba8UnormSrgb,
            final(self).texture_seq().last().width == 1,
            final(self).texture_seq().last().height == 1,
            final(self).texture_seq().last().source == TextureSource::Solid(rgba),
            final(self).mesh_names() == old(self).mesh_names(),
            final(self).mesh_seq() == old(self).mesh_seq(),
            final(self).cache() == old(self).cache(),
            (match standard_error(old(self).cache()) {
                Some(e) => {
                    &&& r == Err::<MaterialId, AssetError>(e)
                    &&& final(self).material_names() == old(self).material_names()
                    &&& final(self).material_seq() == old(self).material_seq()
                },
                None => {
                    &&& r == Ok::<MaterialId, AssetError>(
                        MaterialId(old(self).spec_material_count() as usize),
                    )
                    &&& final(self).material_names() == old(self).material_names().insert(
                        material_name@,
                        old(self).spec_material_count() as usize,
                    )
                    &&& final(self).material_seq().len() == old(self).spec_material_count() + 1
                    &&& final(self).material_seq().take(old(self).spec_material_count() as int)
                        == old(self).material_seq()
                    &&& final(self).material_seq().last().pipeline_name@ == "standard"@
                    &&& final(self).material_seq().last().bind_group.diffuse == TextureId(
                        old(self).spec_texture_count() as usize,
                    )
                    &&& final(self).material_seq().last().bind_group.uniform.roughness
                        == roughness
                    &&& final(self).material_seq().last().bind_group.uniform.metallic == metallic
                    &&& final(self).material_seq().last().bind_group.normal
                        == NormalBinding::DefaultNormal
                },
            }),
    {
        let mut tex_name: String = material_name.to_owned();
        tex_name.append("_diffuse");
        let record = TextureRecord {
            format: TextureFormat::Rgba8UnormSrgb,
            width: 1,
            height: 1,
            source: TextureSource::Solid(rgba),
        };
        self.register_texture(tex_name.as_str(), record);
        let config = MaterialConfig {
            pipeline: "standard".to_owned(),
            diffuse: tex_name,
            normal: None,
            roughness,
            metallic,
        };
        self.create_material(material_name, &config)
    }

    /// Register the built-in cube mesh under `mesh_name`: 24 vertices (four
    /// per face) drawn with 36 indices; see `geometry::cube_indices` for
    /// the index pattern the host uploads.
    pub fn create_cube_mesh(&mut self, mesh_name: &str) -> (r: MeshId)
        requires
            old(self).wf(),
        ensures
            final(self).wf(),
            r.0 == old(self).spec_mesh_count(),
            final(self).mesh_names() == old(self).mesh_names().insert(
                mesh_name@,
                old(self).spec_mesh_count() as usize,
            ),
            final(self).mesh_seq() == old(self).mesh_seq().push(
                (MeshBuffers { num_vertices: 24, num_indices: 36 }),
            ),
            final(self).material_names() == old(self).material_names(),
            final(self).texture_names() == old(self).texture_names(),
            final(self).material_seq() == old(self).material_seq(),
            final(self).texture_seq() == old(self).texture_seq(),
            final(self).cache() == old(self).cache(),
    {
        self.register_mesh(
            mesh_name,
            MeshBuffers { num_vertices: CUBE_VERTEX_COUNT, num_indices: CUBE_INDEX_COUNT },
        )
    }

    /// Register a built-in UV sphere mesh under `mesh_name` with the given
    /// band counts: `(lat_bands + 1) * (lon_bands + 1)` vertices drawn with
    /// `6 * lat_bands * lon_bands` indices; see `geometry::sphere_indices`
    /// for the index pattern the host uploads.
    pub fn create_sphere_mesh(&mut self, mesh_name: &str, lat_bands: u32, lon_bands: u32) -> (r:
        MeshId)
        requires
            old(self).wf(),
            1 <= lat_bands,
            1 <= lon_bands,
            (lat_bands as int + 1) * (lon_bands as int + 1) <= u32::MAX as int,
            6 * ((lat_bands as int) * (lon_bands as int)) <= u32::MAX as int,
        ensures
            final(self).wf(),
            r.0 == old(self).spec_mesh_count(),
            final(self).mesh_names() == old(self).mesh_names().insert(
                mesh_name@,
                old(self).spec_mesh_count() as usize,
            ),
            final(self).mesh_seq().len() == old(self).spec_mesh_count() + 1,
            final(self).mesh_seq().take(old(self).spec_mesh_count() as int) == old(
                self,
            ).mesh_seq(),
            final(self).mesh_seq().last().num_vertices as int == (lat_bands as int + 1) * (
            lon_bands as int + 1),
            final(self).mesh_seq().last().num_indices as int == 6 * ((lat_bands as int) * (
            lon_bands as int)),
            final(self).material_names() == old(self).material_names(),
            final(self).texture_names() == old(self).texture_names(),
            final(self).material_seq() == old(self).material_seq(),
            final(self).texture_seq() == old(self).texture_seq(),
            final(self).cache() == old(self).cache(),
    {
        proof {
            assert(lat_bands as int + 1 <= u32::MAX as int) by (nonlinear_arith)
                requires
                    0 <= lat_bands as int,
                    1 <= lon_bands as int,
                    (lat_bands as int + 1) * (lon_bands as int + 1) <= u32::MAX as int,
            ;
            assert(lon_bands as int + 1 <= u32::MAX as int) by (nonlinear_arith)
                requires
                    0 <= lon_bands as int,
                    1 <= lat_bands as int,
                    (lat_bands as int + 1) * (lon_bands as int + 1) <= u32::MAX as int,
            ;
            assert((lat_bands as int) * (lon_bands as int) <= u32::MAX as int) by (nonlinear_arith)
                requires
                    0 <= lat_bands as int,
                    0 <= lon_bands as int,
                    6 * ((lat_bands as int) * (lon_bands as int)) <= u32::MAX as int,
            ;
        }
        let num_vertices = (lat_bands + 1) * (lon_bands + 1);
        let num_indices = 6 * (lat_bands * lon_bands);
        let r = self.register_mesh(mesh_name, MeshBuffers { num_vertices, num_indices });
        proof {
            assert(self.mesh_seq().take(old(self).mesh_seq().len() as int) =~= old(
                self,
            ).mesh_seq());
        }
        r
    }
}

/// Names within each manifest category are distinct, and none collides
/// with a name that the built-in assets register.  A manifest read from
/// its key-value file form has distinct names by construction.
pub open spec fn manifest_well_formed(manifest: AssetManifest) -> bool {
    &&& (forall|j: int, k: int|
        0 <= j < k < manifest.textures@.len() ==> manifest.textures@[j].name@
            != manifest.textures@[k].name@)
    &&& (forall|j: int, k: int|
        0 <= j < k < manifest.meshes@.len() ==> manifest.meshes@[j].name@
            != manifest.meshes@[k].name@)
    &&& (forall|j: int, k: int|
        0 <= j < k < manifest.materials@.len() ==> manifest.materials@[j].name@
            != manifest.materials@[k].name@)
    &&& (forall|j: int|
        0 <= j < manifest.textures@.len() ==> manifest.textures@[j].name@
            != "internal:white_diffuse"@)
    &&& (forall|j: int|
        0 <= j < manifest.meshes@.len() ==> manifest.meshes@[j].name@ != "internal:cube"@
            && manifest.meshes@[j].name@ != "internal:sphere"@)
    &&& (forall|j: int|
        0 <= j < manifest.materials@.len() ==> manifest.materials@[j].name@
            != "internal:white"@)
}

/// The host's loaders produced one record per manifest entry.
pub open spec fn loaded_matches(manifest: AssetManifest, loaded: LoadedAssets) -> bool {
    &&& loaded.textures@.len() == manifest.textures@.len()
    &&& loaded.meshes@.len() == manifest.meshes@.len()
}

/// The texture name map after the built-in white diffuse (identifier 0) and
/// the first `upto` declared textures (identifiers 1, 2, ...) have been
/// registered.
pub open spec fn declared_texture_map(entries: Seq<TextureEntry>, upto: int) -> Map<
    Seq<char>,
    usize,
>
    decreases upto,
{
    if upto <= 0 {
        Map::<Seq<char>, usize>::empty().insert("internal:white_diffuse"@, 0usize)
    } else {
        declared_texture_map(entries, upto - 1).insert(entries[upto - 1].name@, upto as usize)
    }
}

/// The mesh name map after the built-in cube (identifier 0), the built-in
/// sphere (identifier 1) and the first `upto` declared meshes (identifiers
/// 2, 3, ...) have been registered.
pub open spec fn declared_mesh_map(entries: Seq<MeshEntry>, upto: int) -> Map<Seq<char>, usize>
    decreases upto,
{
    if upto <= 0 {
        Map::<Seq<char>, usize>::empty().insert("internal:cube"@, 0usize).insert(
            "internal:sphere"@,
            1usize,
        )
    } else {
        declared_mesh_map(entries, upto - 1).insert(entries[upto - 1].name@, (upto + 1) as usize)
    }
}

/// The material name map after the built-in white material (identifier 0)
/// and the first `upto` declared materials (identifiers 1, 2, ...) have
/// been registered.
pub open spec fn declared_material_map(entries: Seq<MaterialEntry>, upto: int) -> Map<
    Seq<char>,
    usize,
>
    decreases upto,
{
    if upto <= 0 {
        Map::<Seq<char>, usize>::empty().insert("internal:white"@, 0usize)
    } else {
        declared_material_map(entries, upto - 1).insert(entries[upto - 1].name@, upto as usize)
    }
}

/// The texture name map of a fully initialized store.
pub open spec fn initial_texture_map(manifest: AssetManifest) -> Map<Seq<char>, usize> {
    declared_texture_map(manifest.textures@, manifest.textures@.len() as int)
}

/// The first fatal error among the declared materials from slot `j` on,
/// each checked against `cache` and the texture map `textures`; `None`
/// when they can all be built.
pub open spec fn first_material_error_from(
    cache: PipelineCache,
    textures: Map<Seq<char>, usize>,
    materials: Seq<MaterialEntry>,
    j: int,
) -> Option<AssetError>
    decreases materials.len() - j,
{
    if j < 0 || j >= materials.len() {
        None
    } else {
        match config_error_for(cache, textures, materials[j].config) {
            Some(e) => Some(e),
            None => first_material_error_from(cache, textures, materials, j + 1),
        }
    }
}

/// What initialization returns for this cache and manifest: the error of
/// the built-in material if any, else the first error among the declared
/// materials, else success.
pub open spec fn initialize_outcome(cache: PipelineCache, manifest: AssetManifest) -> Option<
    AssetError,
> {
    match standard_error(cache) {
        Some(e) => Some(e),
        None => first_material_error_from(
            cache,
            initial_texture_map(manifest),
            manifest.materials@,
            0,
        ),
    }
}

/// The store a successful initialization leaves behind, as a function of
/// the manifest and the loaded data alone: the number of live identifiers
/// in each category is the built-in count plus the declared count, the
/// name maps are pinned, and so is every mesh, texture and material
/// record.
pub open spec fn initialized_from(
    s: AssetManager,
    manifest: AssetManifest,
    loaded: LoadedAssets,
) -> bool {
    &&& s.mesh_names() == declared_mesh_map(manifest.meshes@, manifest.meshes@.len() as int)
    &&& s.texture_names() == initial_texture_map(manifest)
    &&& s.material_names() == declared_material_map(
        manifest.materials@,
        manifest.materials@.len() as int,
    )
    &&& s.spec_mesh_count() == 2 + manifest.meshes@.len()
    &&& s.spec_texture_count() == 1 + manifest.textures@.len()
    &&& s.spec_material_count() == 1 + manifest.materials@.len()
    &&& s.mesh_seq()[0] == (MeshBuffers { num_vertices: 24, num_indices: 36 })
    &&& s.mesh_seq()[1] == (MeshBuffers { num_vertices: 561, num_indices: 3072 })
    &&& (forall|j: int|
        0 <= j < manifest.meshes@.len() ==> s.mesh_seq()[2 + j] == (MeshBuffers {
            num_vertices: loaded.meshes@[j].num_vertices,
            num_indices: loaded.meshes@[j].num_indices,
        }))
    &&& s.texture_seq()[0].format == TextureFormat::Rgba8UnormSrgb
    &&& s.texture_seq()[0].width == 1
    &&& s.texture_seq()[0].height == 1
    &&& (s.texture_seq()[0].source matches TextureSource::Solid(c) && c@ == seq![
        255u8,
        255u8,
        255u8,
        255u8,
    ])
    &&& (forall|j: int|
        0 <= j < manifest.textures@.len() ==> {
            &&& (#[trigger] s.texture_seq()[1 + j]).format == texture_format_spec(
                manifest.textures@[j].path@,
            )
            &&& s.texture_seq()[1 + j].width == loaded.textures@[j].width
            &&& s.texture_seq()[1 + j].height == loaded.textures@[j].height
            &&& s.texture_seq()[1 + j].source == TextureSource::File(manifest.textures@[j].path)
        })
    &&& s.material_seq()[0].pipeline_name@ == "standard"@
    &&& s.material_seq()[0].bind_group.diffuse == TextureId(0usize)
    &&& s.material_seq()[0].bind_group.uniform.roughness == F32_HALF_BITS
    &&& s.material_seq()[0].bind_group.uniform.metallic == 0
    &&& s.material_seq()[0].bind_group.normal == NormalBinding::DefaultNormal
    &&& (forall|j: int|
        0 <= j < manifest.materials@.len() ==> material_matches_config(
            #[trigger] s.material_seq()[1 + j],
            manifest.materials@[j].config,
            initial_texture_map(manifest),
        ))
}

/// Law: initializing twice with the same manifest and loaded data yields
/// stores with the same registered names in every category and the same
/// number of live identifiers (the identifier values themselves are only
/// meaningful within one store generation).
pub proof fn lemma_initialize_idempotent(
    s1: AssetManager,
    s2: AssetManager,
    manifest: AssetManifest,
    loaded: LoadedAssets,
)
    requires
        initialized_from(s1, manifest, loaded),
        initialized_from(s2, manifest, loaded),
    ensures
        s1.mesh_names() == s2.mesh_names(),
        s1.texture_names() == s2.texture_names(),
        s1.material_names() == s2.material_names(),
        s1.spec_mesh_count() == s2.spec_mesh_count(),
        s1.spec_texture_count() == s2.spec_texture_count(),
        s1.spec_material_count() == s2.spec_material_count(),
{
}

impl AssetManager {
    /// Register the built-in assets into a freshly cleared store: the cube
    /// mesh, the UV sphere mesh, and the flat white material with its
    /// generated 1x1 diffuse texture.  Fails only when the `standard`
    /// pipeline is missing or incompatible.
    fn load_internal_assets(&mut self) -> (r: Result<(), AssetError>)
        requires
            old(self).wf(),
            old(self).mesh_names() == Map::<Seq<char>, usize>::empty(),
            old(self).texture_names() == Map::<Seq<char>, usize>::empty(),
            old(self).material_names() == Map::<Seq<char>, usize>::empty(),
            old(self).spec_mesh_count() == 0,
            old(self).spec_texture_count() == 0,
            old(self).spec_material_count() == 0,
        ensures
            final(self).wf(),
            final(self).cache() == old(self).cache(),
            final(self).mesh_names() == Map::<Seq<char>, usize>::empty().insert(
                "internal:cube"@,
                0usize,
            ).insert("internal:sphere"@, 1usize),
            final(self).spec_mesh_count() == 2,
            final(self).mesh_seq()[0] == (MeshBuffers { num_vertices: 24, num_indices: 36 }),
            final(self).mesh_seq()[1] == (MeshBuffers { num_vertices: 561, num_indices: 3072 }),
            final(self).texture_names() == Map::<Seq<char>, usize>::empty().insert(
                "internal:white_diffuse"@,
                0usize,
            ),
            final(self).spec_texture_count() == 1,
            final(self).texture_seq()[0].format == TextureFormat::Rgba8UnormSrgb,
            final(self).texture_seq()[0].width == 1,
            final(self).texture_seq()[0].height == 1,
            (final(self).texture_seq()[0].source matches TextureSource::Solid(c) && c@ == seq![
                255u8,
                255u8,
                255u8,
                255u8,
            ]),
            (match standard_error(old(self).cache()) {
                Some(e) => {
                    &&& r == Err::<(), AssetError>(e)
                    &&& final(self).material_names() == Map::<Seq<char>, usize>::empty()
                    &&& final(self).spec_material_count() == 0
                },
                None => {
                    &&& r == Ok::<(), AssetError>(())
                    &&& final(self).material_names() == Map::<Seq<char>, usize>::empty().insert(
                        "internal:white"@,
                        0usize,
                    )
                    &&& final(self).spec_material_count() == 1
                    &&& final(self).material_seq()[0].pipeline_name@ == "standard"@
                    &&& final(self).material_seq()[0].bind_group.diffuse == TextureId(0usize)
                    &&& final(self).material_seq()[0].bind_group.uniform.roughness
                        == F32_HALF_BITS
                    &&& final(self).material_seq()[0].bind_group.uniform.metallic == 0
                    &&& final(self).material_seq()[0].bind_group.normal
                        == NormalBinding::DefaultNormal
                },
            }),
    {
        self.create_cube_mesh("internal:cube");
        let ghost after_cube = *self;
        self.create_sphere_mesh("internal:sphere", 16, 32);
        proof {
            assert(after_cube.mesh_seq()[0] == (MeshBuffers { num_vertices: 24, num_indices: 36 }));
            assert(self.mesh_seq().take(after_cube.mesh_seq().len() as int)[0] == self.mesh_seq()[0]);
            assert(self.mesh_seq()[0] == (MeshBuffers { num_vertices: 24, num_indices: 36 }));
            assert(self.mesh_seq()[1] == self.mesh_seq().last());
        }
        let white: [u8; 4] = [255u8, 255u8, 255u8, 255u8];
        proof {
            reveal_strlit("internal:white");
            reveal_strlit("_diffuse");
            reveal_strlit("internal:white_diffuse");
            assert("internal:white"@ + "_diffuse"@ =~= "internal:white_diffuse"@);
            assert(white@ =~= seq![255u8, 255u8, 255u8, 255u8]);
        }
        match self.create_single_color_material("internal:white", white, F32_HALF_BITS, 0) {
            Ok(_) => Ok(()),
            Err(e) => Err(e),
        }
    }

    /// Full (re)initialization from a manifest and the raw data the host's
    /// loaders decoded for it: clear the store, register the built-in
    /// primitives and fallback material, then register every declared
    /// texture (applying the format selection rule to its path), every
    /// declared mesh, and finally build every declared material.  The
    /// first unresolvable reference aborts initialization with that error
    /// and leaves the store cleared: no partial store remains usable.
    pub fn initialize_assets(&mut self, manifest: &AssetManifest, loaded: &LoadedAssets) -> (r:
        Result<(), AssetError>)
        requires
            old(self).wf(),
            manifest_well_formed(*manifest),
            loaded_matches(*manifest, *loaded),
        ensures
            final(self).wf(),
            final(self).cache() == old(self).cache(),
            (match initialize_outcome(old(self).cache(), *manifest) {
                None => r == Ok::<(), AssetError>(()) && initialized_from(
                    *final(self),
                    *manifest,
                    *loaded,
                ),
                Some(e) => {
                    &&& r == Err::<(), AssetError>(e)
                    &&& final(self).mesh_names() == Map::<Seq<char>, usize>::empty()
                    &&& final(self).texture_names() == Map::<Seq<char>, usize>::empty()
                    &&& final(self).material_names() == Map::<Seq<char>, usize>::empty()
                    &&& final(self).spec_mesh_count() == 0
                    &&& final(self).spec_texture_count() == 0
                    &&& final(self).spec_material_count() == 0
                },
            }),
    {
        match self.initialize_inner(manifest, loaded) {
            Ok(()) => Ok(()),
            Err(e) => {
                self.clear_assets();
                Err(e)
            },
        }
    }

    /// The body of `initialize_assets`, without the clear-on-error wrapper.
    #[verifier::loop_isolation(false)]
    fn initialize_inner(&mut self, manifest: &AssetManifest, loaded: &LoadedAssets) -> (r: Result<
        (),
        AssetError,
    >)
        requires
            old(self).wf(),
            manifest_well_formed(*manifest),
            loaded_matches(*manifest, *loaded),
        ensures
            final(self).wf(),
            final(self).cache() == old(self).cache(),
            (match initialize_outcome(old(self).cache(), *manifest) {
                None => r == Ok::<(), AssetError>(()) && initialized_from(
                    *final(self),
                    *manifest,
                    *loaded,
                ),
                Some(e) => r == Err::<(), AssetError>(e),
            }),
    {
        self.clear_assets();
        match self.load_internal_assets() {
            Ok(_) => {},
            Err(e) => {
                return Err(e);
            },
        }
        let ghost base = *self;
        proof {
            assert(base.texture_names() =~= declared_texture_map(manifest.textures@, 0));
            assert(base.mesh_names() =~= declared_mesh_map(manifest.meshes@, 0));
            assert(base.material_names() =~= declared_material_map(manifest.materials@, 0));
        }
        let mut j: usize = 0;
        while j < manifest.textures.len()
            invariant
                self.wf(),
                manifest_well_formed(*manifest),
                loaded_matches(*manifest, *loaded),
                j <= manifest.textures@.len(),
                self.cache() == base.cache(),
                self.mesh_names() == base.mesh_names(),
                self.mesh_seq() == base.mesh_seq(),
                self.material_names() == base.material_names(),
                self.material_seq() == base.material_seq(),
                self.texture_names() == declared_texture_map(manifest.textures@, j as int),
                self.spec_texture_count() == 1 + j,
                self.texture_seq()[0] == base.texture_seq()[0],
                forall|k: int|
                    0 <= k < j ==> {
                        &&& (#[trigger] self.texture_seq()[1 + k]).format == texture_format_spec(
                            manifest.textures@[k].path@,
                        )
                        &&& self.texture_seq()[1 + k].width == loaded.textures@[k].width
                        &&& self.texture_seq()[1 + k].height == loaded.textures@[k].height
                        &&& self.texture_seq()[1 + k].source == TextureSource::File(
                            manifest.textures@[k].path,
                        )
                    },
            decreases manifest.textures@.len() - j,
        {
            let entry = &manifest.textures[j];
            let fmt = texture_format_for(entry.path.as_str());
            let rec = TextureRecord {
                format: fmt,
                width: loaded.textures[j].width,
                height: loaded.textures[j].height,
                source: TextureSource::File(entry.path.clone()),
            };
            self.register_texture(entry.name.as_str(), rec);
            j = j + 1;
        }
        let ghost after_textures = *self;
        let mut j: usize = 0;
        while j < manifest.meshes.len()
            invariant
                self.wf(),
                manifest_well_formed(*manifest),
                loaded_matches(*manifest, *loaded),
                j <= manifest.meshes@.len(),
                self.cache() == base.cache(),
                self.material_names() == base.material_names(),
                self.material_seq() == base.material_seq(),
                self.texture_names() == after_textures.texture_names(),
                self.texture_seq() == after_textures.texture_seq(),
                self.mesh_names() == declared_mesh_map(manifest.meshes@, j as int),
                self.spec_mesh_count() == 2 + j,
                self.mesh_seq()[0] == base.mesh_seq()[0],
                self.mesh_seq()[1] == base.mesh_seq()[1],
                forall|k: int|
                    0 <= k < j ==> #[trigger] self.mesh_seq()[2 + k] == (MeshBuffers {
                        num_vertices: loaded.meshes@[k].num_vertices,
                        num_indices: loaded.meshes@[k].num_indices,
                    }),
            decreases manifest.meshes@.len() - j,
        {
            let entry = &manifest.meshes[j];
            let rec = MeshBuffers {
                num_vertices: loaded.meshes[j].num_vertices,
                num_indices: loaded.meshes[j].num_indices,
            };
            self.register_mesh(entry.name.as_str(), rec);
            j = j + 1;
        }
        let ghost after_meshes = *self;
        let ghost texmap = self.texture_names();
        proof {
            assert(texmap == initial_texture_map(*manifest));
        }
        let mut j: usize = 0;
        while j < manifest.materials.len()
            invariant
                self.wf(),
                manifest_well_formed(*manifest),
                loaded_matches(*manifest, *loaded),
                j <= manifest.materials@.len(),
                self.cache() == base.cache(),
                self.mesh_names() == after_meshes.mesh_names(),
                self.mesh_seq() == after_meshes.mesh_seq(),
                self.texture_names() == texmap,
                self.texture_seq() == after_meshes.texture_seq(),
                self.material_names() == declared_material_map(manifest.materials@, j as int),
                self.spec_material_count() == 1 + j,
                self.material_seq()[0] == base.material_seq()[0],
                base.spec_material_count() == 1,
                forall|k: int|
                    0 <= k < j ==> material_matches_config(
                        #[trigger] self.material_seq()[1 + k],
                        manifest.materials@[k].config,
                        texmap,
                    ),
                first_material_error_from(base.cache(), texmap, manifest.materials@, 0)
                    == first_material_error_from(base.cache(), texmap, manifest.materials@, j as int),
            decreases manifest.materials@.len() - j,
        {
            let entry = &manifest.materials[j];
            let ghost before = *self;
            match self.create_material(entry.name.as_str(), &entry.config) {
                Ok(_) => {},
                Err(e) => {
                    proof {
                        assert(config_error_for(base.cache(), texmap, entry.config) == Some(e));
                        assert(first_material_error_from(
                            base.cache(),
                            texmap,
                            manifest.materials@,
                            j as int,
                        ) == Some(e));
                    }
                    return Err(e);
                },
            }
            proof {
                assert(config_error_for(base.cache(), texmap, entry.config) is None);
                assert(first_material_error_from(
                    base.cache(),
                    texmap,
                    manifest.materials@,
                    j as int,
                ) == first_material_error_from(
                    base.cache(),
                    texmap,
                    manifest.materials@,
                    j as int + 1,
                ));
                assert(before.material_seq() =~= self.material_seq().take(
                    before.material_seq().len() as int,
                ));
                assert forall|k: int| 0 <= k < j + 1 implies material_matches_config(
                    #[trigger] self.material_seq()[1 + k],
                    manifest.materials@[k].config,
                    texmap,
                ) by {
                    if k < j {
                        assert(before.material_seq()[1 + k] == self.material_seq().take(
                            before.material_seq().len() as int,
                        )[1 + k]);
                        assert(self.material_seq()[1 + k] == before.material_seq()[1 + k]);
                    } else {
                        assert(self.material_seq()[1 + k] == self.material_seq().last());
                    }
                }
            }
            j = j + 1;
        }
        proof {
            assert(first_material_error_from(
                base.cache(),
                texmap,
                manifest.materials@,
                manifest.materials@.len() as int,
            ) is None);
        }
        Ok(())
    }
}

} // verus!
