use vstd::prelude::*;
use crate::gpu_types::{CameraUniform, GlobalLightDataUniform, MaterialUniform, ModelMatrixUniform};
use crate::registry::NameRegistry;

verus! {

/// The bind group slot reserved for per-material resources.
pub const MATERIAL_BIND_GROUP_INDEX: usize = 2;

/// The bind group slot reserved for the per-drawable model matrix storage.
pub const MODEL_BIND_GROUP_INDEX: usize = 3;

/// One resource binding of a bind group layout.
#[derive(Debug, Clone, Copy, PartialEq, Eq, Structural)]
pub enum BindingKind {
    UniformBuffer,
    StorageBufferReadOnly,
    Texture2d,
    Sampler,
}

/// A bind group layout: the kinds of resource bound at bindings 0, 1, ...
#[derive(Debug, Clone, PartialEq)]
pub struct BindGroupLayoutDesc {
    pub entries: Vec<BindingKind>,
}

/// Whether two layouts bind the same kinds of resource at the same slots.
/// Materials are only compatible with a pipeline whose material-slot layout
/// matches the one they were built against.
pub fn layouts_match(a: &BindGroupLayoutDesc, b: &BindGroupLayoutDesc) -> (r: bool)
    ensures
        r == (a.entries@ == b.entries@),
{
    if a.entries.len() != b.entries.len() {
        return false;
    }
    let n = a.entries.len();
    let mut i: usize = 0;
    while i < n
        invariant
            n == a.entries@.len(),
            n == b.entries@.len(),
            i <= n,
            forall|k: int| 0 <= k < i ==> a.entries@[k] == b.entries@[k],
        decreases n - i,
    {
        if a.entries[i] != b.entries[i] {
            return false;
        }
        i = i + 1;
    }
    proof {
        assert(a.entries@ =~= b.entries@);
    }
    true
}

/// The layout of the per-material bind group slot: diffuse texture, shared
/// sampler, material uniform buffer, normal texture.
pub open spec fn material_layout_entries() -> Seq<BindingKind> {
    seq![
        BindingKind::Texture2d,
        BindingKind::Sampler,
        BindingKind::UniformBuffer,
        BindingKind::Texture2d,
    ]
}

impl CameraUniform {
    /// The camera bind group layout: one uniform buffer at binding 0.
    pub fn bind_group_layout() -> (r: BindGroupLayoutDesc)
        ensures
            r.entries@ == seq![BindingKind::UniformBuffer],
    {
        let mut entries: Vec<BindingKind> = Vec::new();
        entries.push(BindingKind::UniformBuffer);
        proof {
            assert(entries@ =~= seq![BindingKind::UniformBuffer]);
        }
        BindGroupLayoutDesc { entries }
    }
}

impl GlobalLightDataUniform {
    /// The light bind group layout: one uniform buffer at binding 0.
    pub fn bind_group_layout() -> (r: BindGroupLayoutDesc)
        ensures
            r.entries@ == seq![BindingKind::UniformBuffer],
    {
        let mut entries: Vec<BindingKind> = Vec::new();
        entries.push(BindingKind::UniformBuffer);
        proof {
            assert(entries@ =~= seq![BindingKind::UniformBuffer]);
        }
        BindGroupLayoutDesc { entries }
    }
}

impl ModelMatrixUniform {
    /// The model matrix bind group layout: one read-only storage buffer at
    /// binding 0.
    pub fn bind_group_layout() -> (r: BindGroupLayoutDesc)
        ensures
            r.entries@ == seq![BindingKind::StorageBufferReadOnly],
    {
        let mut entries: Vec<BindingKind> = Vec::new();
        entries.push(BindingKind::StorageBufferReadOnly);
        proof {
            assert(entries@ =~= seq![BindingKind::StorageBufferReadOnly]);
        }
        BindGroupLayoutDesc { entries }
    }
}

impl MaterialUniform {
    /// The per-material bind group layout (`material_layout_entries`).
    pub fn bind_group_layout() -> (r: BindGroupLayoutDesc)
        ensures
            r.entries@ == material_layout_entries(),
    {
        let mut entries: Vec<BindingKind> = Vec::new();
        entries.push(BindingKind::Texture2d);
        entries.push(BindingKind::Sampler);
        entries.push(BindingKind::UniformBuffer);
        entries.push(BindingKind::Texture2d);
        proof {
            assert(entries@ =~= material_layout_entries());
        }
        BindGroupLayoutDesc { entries }
    }
}

/// The format of one vertex attribute.
#[derive(Debug, Clone, Copy, PartialEq, Eq, Structural)]
pub enum VertexFormat {
    Float32x2,
    Float32x3,
}

/// One vertex attribute: where the shader reads it and where it sits in the
/// vertex record.
#[derive(Debug, Clone, Copy, PartialEq, Eq, Structural)]
pub struct VertexAttributeDesc {
    pub shader_location: u32,
    pub offset: u32,
    pub format: VertexFormat,
}

/// The layout of one vertex buffer: record stride and attribute placement.
#[derive(Debug, Clone, PartialEq)]
pub struct VertexBufferLayoutDesc {
    pub array_stride: u32,
    pub attributes: Vec<VertexAttributeDesc>,
}

/// The attributes of the shared position/texcoord/normal vertex record:
/// position at offset 0, texture coordinates right after the position's
/// three floats, normal right after the texture coordinates' two floats.
pub open spec fn vertex_ptn_attributes() -> Seq<VertexAttributeDesc> {
    seq![
        (VertexAttributeDesc { shader_location: 0, offset: 0, format: VertexFormat::Float32x3 }),
        (VertexAttributeDesc { shader_location: 1, offset: 12, format: VertexFormat::Float32x2 }),
        (VertexAttributeDesc { shader_location: 2, offset: 20, format: VertexFormat::Float32x3 }),
    ]
}

/// The layout of the shared vertex record: eight 4-byte floats, 32 bytes.
pub fn vertex_ptn_layout() -> (r: VertexBufferLayoutDesc)
    ensures
        r.array_stride == 32,
        r.attributes@ == vertex_ptn_attributes(),
{
    let mut attributes: Vec<VertexAttributeDesc> = Vec::new();
    attributes.push(VertexAttributeDesc { shader_location: 0, offset: 0, format: VertexFormat::Float32x3 });
    attributes.push(VertexAttributeDesc { shader_location: 1, offset: 12, format: VertexFormat::Float32x2 });
    attributes.push(VertexAttributeDesc { shader_location: 2, offset: 20, format: VertexFormat::Float32x3 });
    proof {
        assert(attributes@ =~= vertex_ptn_attributes());
    }
    VertexBufferLayoutDesc { array_stride: 32, attributes }
}

/// Everything the host needs to compile one pipeline, and everything a
/// material needs to check compatibility: the bind group layouts slot by
/// slot, the vertex layout, and the fixed-function state.
#[derive(Debug, Clone, PartialEq)]
pub struct PipelineDesc {
    pub bind_group_layouts: Vec<BindGroupLayoutDesc>,
    pub vertex_layout: VertexBufferLayoutDesc,
    pub front_face_ccw: bool,
    pub cull_back_faces: bool,
    pub depth_test: bool,
}

impl PipelineDesc {
    /// The layout of this pipeline's material bind group slot, when it has
    /// one.
    pub open spec fn material_slot_entries(self) -> Seq<BindingKind> {
        self.bind_group_layouts@[MATERIAL_BIND_GROUP_INDEX as int].entries@
    }

    /// The pipeline has a material slot whose layout matches the one that
    /// materials are built against.
    pub open spec fn has_material_slot(self) -> bool {
        &&& self.bind_group_layouts@.len() > MATERIAL_BIND_GROUP_INDEX
        &&& self.material_slot_entries() == material_layout_entries()
    }
}

/// `p` is the standard pipeline: camera, light, material and model bind
/// groups in slots 0 to 3, the shared vertex layout, counter-clockwise
/// front faces with back-face culling, and depth testing on.
pub open spec fn is_standard_pipeline(p: PipelineDesc) -> bool {
    &&& p.bind_group_layouts@.len() == 4
    &&& p.bind_group_layouts@[0].entries@ == seq![BindingKind::UniformBuffer]
    &&& p.bind_group_layouts@[1].entries@ == seq![BindingKind::UniformBuffer]
    &&& p.bind_group_layouts@[2].entries@ == material_layout_entries()
    &&& p.bind_group_layouts@[3].entries@ == seq![BindingKind::StorageBufferReadOnly]
    &&& p.vertex_layout.array_stride == 32
    &&& p.vertex_layout.attributes@ == vertex_ptn_attributes()
    &&& p.front_face_ccw
    &&& p.cull_back_faces
    &&& p.depth_test
}

/// Builds pipeline descriptions for the host to compile.
pub struct PipelineBuilder;

impl PipelineBuilder {
    /// The standard world pipeline.  Its material-slot layout is what every
    /// material bind group is built against.
    pub fn build_standard_pipeline() -> (r: PipelineDesc)
        ensures
            is_standard_pipeline(r),
            r.has_material_slot(),
    {
        let mut bind_group_layouts: Vec<BindGroupLayoutDesc> = Vec::new();
        bind_group_layouts.push(CameraUniform::bind_group_layout());
        bind_group_layouts.push(GlobalLightDataUniform::bind_group_layout());
        bind_group_layouts.push(MaterialUniform::bind_group_layout());
        bind_group_layouts.push(ModelMatrixUniform::bind_group_layout());
        let r = PipelineDesc {
            bind_group_layouts,
            vertex_layout: vertex_ptn_layout(),
            front_face_ccw: true,
            cull_back_faces: true,
            depth_test: true,
        };
        r
    }
}

/// The pipeline cache: maps a pipeline name to a compiled-pipeline
/// description.  Populated once at startup, before any material creation,
/// since material bind group layouts are checked against it.
pub struct PipelineCache {
    registry: NameRegistry,
    pipelines: Vec<PipelineDesc>,
}

impl PipelineCache {
    /// Registry columns line up and every registered slot index is in
    /// bounds.
    pub closed spec fn wf(self) -> bool {
        &&& self.registry.wf()
        &&& self.registry.ids_below(self.pipelines@.len())
    }

    /// The name-to-slot map of the cache.
    pub closed spec fn names(self) -> Map<Seq<char>, usize> {
        self.registry@
    }

    /// Whether a pipeline of this name is cached.
    pub open spec fn contains_name(self, n: Seq<char>) -> bool {
        self.names().contains_key(n)
    }

    /// The pipeline in slot `i`.
    pub closed spec fn pipeline_at(self, i: int) -> PipelineDesc {
        self.pipelines@[i]
    }

    /// The pipeline registered under name `n`.
    pub open spec fn pipeline_named(self, n: Seq<char>) -> PipelineDesc {
        self.pipeline_at(self.names()[n] as int)
    }

    /// How many pipelines the cache holds.
    pub closed spec fn count(self) -> nat {
        self.pipelines@.len()
    }

    pub fn new() -> (r: Self)
        ensures
            r.wf(),
            r.names() == Map::<Seq<char>, usize>::empty(),
            r.count() == 0,
    {
        PipelineCache { registry: NameRegistry::new(), pipelines: Vec::new() }
    }

    /// Add a compiled pipeline under `name`; it occupies the next slot.
    pub fn insert(&mut self, name: &str, desc: PipelineDesc)
        requires
            old(self).wf(),
        ensures
            final(self).wf(),
            final(self).names() == old(self).names().insert(name@, old(self).count() as usize),
            final(self).count() == old(self).count() + 1,
            forall|i: int|
                0 <= i < old(self).count() ==> final(self).pipeline_at(i) == old(self).pipeline_at(
                    i,
                ),
            final(self).pipeline_at(old(self).count() as int) == desc,
    {
        let id = self.pipelines.len();
        self.pipelines.push(desc);
        self.registry.register(name, id);
        proof {
            assert forall|n: Seq<char>| #[trigger] self.registry@.contains_key(n) implies (
            self.registry@[n] as nat) < self.pipelines@.len() by {
                if n != name@ {
                    assert(old(self).registry@.contains_key(n));
                }
            }
        }
    }

    /// The slot index of the pipeline named `name`, if cached.
    pub fn resolve(&self, name: &str) -> (r: Option<usize>)
        requires
            self.wf(),
        ensures
            self.contains_name(name@) ==> r == Some(self.names()[name@]),
            !self.contains_name(name@) ==> r is None,
    {
        self.registry.resolve(name)
    }

    /// Whether a pipeline of this name is cached.
    pub fn contains(&self, name: &str) -> (r: bool)
        requires
            self.wf(),
        ensures
            r == self.contains_name(name@),
    {
        self.registry.contains(name)
    }

    /// The pipeline named `name`, or nothing: a missing pipeline is a fatal
    /// startup wiring error for the caller to surface.
    pub fn get(&self, name: &str) -> (r: Option<&PipelineDesc>)
        requires
            self.wf(),
        ensures
            self.contains_name(name@) ==> (match r {
                Some(p) => *p == self.pipeline_named(name@),
                None => false,
            }),
            !self.contains_name(name@) ==> r is None,
    {
        match self.registry.resolve(name) {
            Some(id) => {
                proof {
                    assert(self.registry@.contains_key(name@));
                }
                Some(&self.pipelines[id])
            },
            None => None,
        }
    }

    /// The pipeline in slot `id`, for draw commands that carry slot
    /// indices.
    pub fn get_by_index(&self, id: usize) -> (r: &PipelineDesc)
        requires
            self.wf(),
            id < self.count(),
        ensures
            *r == self.pipeline_at(id as int),
    {
        &self.pipelines[id]
    }
}

} // verus!
