use vstd::prelude::*;
use crate::asset_manager::AssetManager;
use crate::frame::RenderError;
use crate::gpu_types::{
    camera_uniform_bytes, min_int, camera_uniform_words, le_bytes_of, lights_uniform_bytes,
    global_light_words, model_matrices_bytes, model_matrix_words, CameraUniform,
    GlobalLightDataUniform, ModelMatrixUniform,
};
use crate::handles::{MaterialId, MeshId, MeshRenderer};

verus! {

/// How many per-drawable model matrices the model storage buffer holds.
/// Drawables beyond this capacity are not written and not drawn: the frame
/// plan reports them as dropped instead of overrunning the buffer.
pub const MODEL_MATRIX_CAPACITY: usize = 10000;

/// One indexed draw call of the world pass: which pipeline to set (by cache
/// slot), which material bind group to bind at the material slot, which
/// mesh buffers to bind, how many indices to draw, and the instance index
/// that selects the drawable's model matrix.
#[derive(Debug, Clone, Copy, PartialEq, Eq, Structural)]
pub struct DrawCommand {
    pub pipeline: usize,
    pub mesh: MeshId,
    pub material: MaterialId,
    pub num_indices: u32,
    pub instance_index: u32,
}

/// The draw calls of one world pass, and how many drawables were dropped
/// for exceeding the model matrix capacity.
#[derive(Debug, Clone, PartialEq)]
pub struct WorldDrawPlan {
    pub draws: Vec<DrawCommand>,
    pub dropped: usize,
}

/// The byte images to queue into the camera, light and model buffers before
/// the render passes of the same frame are recorded.
#[derive(Debug, Clone, PartialEq)]
pub struct UniformWrites {
    pub camera: Option<Vec<u8>>,
    pub lights: Option<Vec<u8>>,
    pub models: Option<Vec<u8>>,
}

/// The drawable's handles index into the current store generation.
pub open spec fn drawable_in_range(d: MeshRenderer, assets: AssetManager) -> bool {
    &&& d.mesh.0.0 < assets.spec_mesh_count()
    &&& d.material.0.0 < assets.spec_material_count()
}

/// The pipeline that the drawable's material declares is in the cache.
pub open spec fn drawable_pipeline_ok(d: MeshRenderer, assets: AssetManager) -> bool {
    assets.cache().contains_name(assets.material_seq()[d.material.0.0 as int].pipeline_name@)
}

/// The draw command issued for drawable `d` at draw order `i`: its
/// material's declared pipeline resolved through the cache (so the material
/// bind group is only ever drawn with the pipeline it was built against),
/// the mesh's index count, and `i` as the instance index selecting the
/// model matrix written for the same position.
pub open spec fn draw_cmd_matches(
    cmd: DrawCommand,
    d: MeshRenderer,
    assets: AssetManager,
    i: int,
) -> bool {
    &&& cmd.mesh == d.mesh.0
    &&& cmd.material == d.material.0
    &&& assets.cache().contains_name(assets.material_seq()[d.material.0.0 as int].pipeline_name@)
    &&& cmd.pipeline == assets.cache().names()[assets.material_seq()[
        d.material.0.0 as int
    ].pipeline_name@]
    &&& cmd.num_indices == assets.mesh_seq()[d.mesh.0.0 as int].num_indices
    &&& cmd.instance_index as int == i
}

/// Per-frame orchestration helpers: uniform upload images and world-pass
/// draw planning.  The host owns the actual buffers and bind groups; it
/// queues the returned bytes and replays the returned draw commands.
pub struct Renderer;

impl Renderer {
    pub fn new() -> (r: Self) {
        Renderer
    }

    /// One uniform-sync pass: the camera and light uniforms that are
    /// present are serialized for upload, and the model matrices are
    /// serialized up to the storage buffer capacity; nothing is written for
    /// an empty drawable set (a zero-length buffer write is skipped
    /// entirely).
    pub fn update_global_uniforms(
        &self,
        camera: Option<&CameraUniform>,
        lights: Option<&GlobalLightDataUniform>,
        models: &Vec<ModelMatrixUniform>,
    ) -> (r: UniformWrites)
        ensures
            (match camera {
                Some(c) => r.camera matches Some(b) && b@ == le_bytes_of(
                    camera_uniform_words(*c),
                ),
                None => r.camera is None,
            }),
            (match lights {
                Some(l) => r.lights matches Some(b) && b@ == le_bytes_of(global_light_words(*l)),
                None => r.lights is None,
            }),
            models@.len() == 0 ==> r.models is None,
            models@.len() > 0 ==> (r.models matches Some(b) && b@ == le_bytes_of(
                model_matrix_words(
                    models@.take(min_int(models@.len() as int, MODEL_MATRIX_CAPACITY as int)),
                ),
            )),
    {
        let camera_bytes = match camera {
            Some(c) => Some(camera_uniform_bytes(c)),
            None => None,
        };
        let light_bytes = match lights {
            Some(l) => Some(lights_uniform_bytes(l)),
            None => None,
        };
        let model_bytes = if models.len() == 0 {
            None
        } else {
            let count = if models.len() < MODEL_MATRIX_CAPACITY {
                models.len()
            } else {
                MODEL_MATRIX_CAPACITY
            };
            Some(model_matrices_bytes(models, count))
        };
        UniformWrites { camera: camera_bytes, lights: light_bytes, models: model_bytes }
    }

    /// Plan the world pass: one indexed draw per drawable, in iteration
    /// order, up to the model matrix capacity.  A drawable whose material
    /// references a missing pipeline is a fatal lookup error (a
    /// misconfigured manifest), not a silently skipped draw.
    pub fn draw_world(&self, drawables: &Vec<MeshRenderer>, assets: &AssetManager) -> (r: Result<
        WorldDrawPlan,
        RenderError,
    >)
        requires
            assets.wf(),
            forall|i: int|
                0 <= i < drawables@.len() ==> drawable_in_range(#[trigger] drawables@[i], *assets),
        ensures
            (r is Ok) <==> (forall|i: int|
                0 <= i < min_int(drawables@.len() as int, MODEL_MATRIX_CAPACITY as int)
                    ==> drawable_pipeline_ok(#[trigger] drawables@[i], *assets)),
            (match r {
                Ok(plan) => {
                    &&& plan.draws@.len() == min_int(
                        drawables@.len() as int,
                        MODEL_MATRIX_CAPACITY as int,
                    )
                    &&& plan.dropped == drawables@.len() - plan.draws@.len()
                    &&& (forall|i: int|
                        0 <= i < plan.draws@.len() ==> draw_cmd_matches(
                            #[trigger] plan.draws@[i],
                            drawables@[i],
                            *assets,
                            i,
                        ))
                },
                Err(e) => e == RenderError::MissingPipeline,
            }),
    {
        let count = if drawables.len() < MODEL_MATRIX_CAPACITY {
            drawables.len()
        } else {
            MODEL_MATRIX_CAPACITY
        };
        let mut draws: Vec<DrawCommand> = Vec::new();
        let mut i: usize = 0;
        while i < count
            invariant
                assets.wf(),
                count == min_int(drawables@.len() as int, MODEL_MATRIX_CAPACITY as int),
                count <= drawables@.len(),
                i <= count,
                forall|k: int|
                    0 <= k < drawables@.len() ==> drawable_in_range(
                        #[trigger] drawables@[k],
                        *assets,
                    ),
                draws@.len() == i,
                forall|k: int|
                    0 <= k < i ==> drawable_pipeline_ok(#[trigger] drawables@[k], *assets),
                forall|k: int|
                    0 <= k < i ==> draw_cmd_matches(#[trigger] draws@[k], drawables@[k], *assets, k),
            decreases count - i,
        {
            let d = drawables[i];
            let mesh = assets.get_mesh(d.mesh.0);
            let num_indices = mesh.num_indices;
            let material = assets.get_material(d.material.0);
            let pipeline = match assets.cache_ref().resolve(material.pipeline_name.as_str()) {
                Some(p) => p,
                None => {
                    return Err(RenderError::MissingPipeline);
                },
            };
            draws.push(
                DrawCommand {
                    pipeline,
                    mesh: d.mesh.0,
                    material: d.material.0,
                    num_indices,
                    instance_index: i as u32,
                },
            );
            i = i + 1;
        }
        Ok(WorldDrawPlan { draws, dropped: drawables.len() - count })
    }
}

} // verus!
