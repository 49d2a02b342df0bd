use vstd::prelude::*;
use crate::asset_manager::AssetManager;
use crate::gpu_types::{
    min_int,
    camera_uniform_words, global_light_words, le_bytes_of, model_matrix_words, CameraUniform,
    GlobalLightDataUniform, ModelMatrixUniform, F32_ONE_BITS,
};
use crate::handles::MeshRenderer;
use crate::renderer::{
    draw_cmd_matches, drawable_in_range, drawable_pipeline_ok, DrawCommand, Renderer,
    UniformWrites, MODEL_MATRIX_CAPACITY,
};

verus! {

broadcast use vstd::array::group_array_axioms;

/// Bit pattern of the fixed background red channel (0.3).
pub const BACKGROUND_R_BITS: u32 = 0x3E99_999A;

/// Bit pattern of the fixed background green channel (0.2).
pub const BACKGROUND_G_BITS: u32 = 0x3E4C_CCCD;

/// Bit pattern of the fixed background blue channel (0.1).
pub const BACKGROUND_B_BITS: u32 = 0x3DCC_CCCD;

/// Why acquiring the presentation surface's next image failed.
#[derive(Debug, Clone, Copy, PartialEq, Eq, Structural)]
pub enum SurfaceErrorKind {
    Timeout,
    Outdated,
    Lost,
    OutOfMemory,
    Other,
}

/// The host's report of one surface-acquire attempt.
#[derive(Debug, Clone, Copy, PartialEq, Eq, Structural)]
pub enum SurfaceAcquire {
    Acquired,
    Failed(SurfaceErrorKind),
}

/// A fatal per-frame error, surfaced to the caller to log and drop the
/// frame (repeated occurrence is the host's signal to terminate).
#[derive(Debug, Clone, Copy, PartialEq, Eq, Structural)]
pub enum RenderError {
    /// A drawable's material references a pipeline missing from the cache.
    MissingPipeline,
    /// Surface acquisition failed for a reason other than `Lost` or
    /// `Outdated`.
    Surface(SurfaceErrorKind),
}

/// The presentation surface's configured extent.
#[derive(Debug, Clone, Copy, PartialEq, Eq, Structural)]
pub struct SurfaceConfig {
    pub width: u32,
    pub height: u32,
}

/// The depth buffer's extent; it must always match the surface extent.
#[derive(Debug, Clone, Copy, PartialEq, Eq, Structural)]
pub struct DepthTexture {
    pub width: u32,
    pub height: u32,
}

/// The surface lifecycle state the frame loop drives: the configured
/// extent, the matching depth buffer, whether the surface has been
/// configured at all, and whether a reconfigure (resize with the current
/// window size) is expected before the next frame can render.
#[derive(Debug, Clone, Copy, PartialEq, Eq, Structural)]
pub struct SurfaceState {
    pub config: SurfaceConfig,
    pub depth: DepthTexture,
    pub is_surface_configured: bool,
    pub needs_reconfigure: bool,
}

/// The world render pass: clears color to the fixed background and depth
/// to far, then replays the draw commands in order.
#[derive(Debug, Clone, PartialEq)]
pub struct WorldPassDesc {
    pub clear_color: [u32; 4],
    pub clear_depth: u32,
    pub draws: Vec<DrawCommand>,
    pub dropped: usize,
}

/// The UI render pass: loads the existing color contents (so the world
/// render stays visible underneath) and paints the tessellated UI geometry
/// that the UI collaborator produced.
#[derive(Debug, Clone, Copy, PartialEq, Eq, Structural)]
pub struct UiPassDesc {
    pub load_existing: bool,
}

/// Everything one frame records against the acquired surface image, in
/// order: queue the uniform writes, run the world pass, then the UI pass
/// over the same color target, then submit and present.
#[derive(Debug, Clone, PartialEq)]
pub struct FramePlan {
    pub uniforms: UniformWrites,
    pub world_pass: WorldPassDesc,
    pub ui_pass: UiPassDesc,
}

/// The per-frame world state the frame consumes, read-only: the camera
/// and light resources (when present), and the drawable tuples with their
/// model matrices in the same fixed iteration order.
#[derive(Debug, Clone, PartialEq)]
pub struct FrameInputs {
    pub camera: Option<CameraUniform>,
    pub lights: Option<GlobalLightDataUniform>,
    pub drawables: Vec<MeshRenderer>,
    pub models: Vec<ModelMatrixUniform>,
}

/// Every drawable of the frame addresses the current store generation.
pub open spec fn inputs_in_range(inputs: FrameInputs, assets: AssetManager) -> bool {
    forall|i: int|
        0 <= i < inputs.drawables@.len() ==> drawable_in_range(
            #[trigger] inputs.drawables@[i],
            assets,
        )
}

/// Every drawn drawable's material resolves its pipeline.
pub open spec fn world_pipelines_ok(inputs: FrameInputs, assets: AssetManager) -> bool {
    forall|i: int|
        0 <= i < min_int(inputs.drawables@.len() as int, MODEL_MATRIX_CAPACITY as int)
            ==> drawable_pipeline_ok(#[trigger] inputs.drawables@[i], assets)
}

/// The plan a successful frame produces from these inputs: the uniform
/// writes of the same frame's data, the world pass clearing to the fixed
/// background and far depth with one draw per drawable (instance index
/// equal to the position its model matrix was written at), and a UI pass
/// that loads instead of clearing.
pub open spec fn frame_plan_ok(plan: FramePlan, inputs: FrameInputs, assets: AssetManager) -> bool {
    &&& (match inputs.camera {
        Some(c) => plan.uniforms.camera matches Some(b) && b@ == le_bytes_of(
            camera_uniform_words(c),
        ),
        None => plan.uniforms.camera is None,
    })
    &&& (match inputs.lights {
        Some(l) => plan.uniforms.lights matches Some(b) && b@ == le_bytes_of(
            global_light_words(l),
        ),
        None => plan.uniforms.lights is None,
    })
    &&& (inputs.models@.len() == 0 ==> plan.uniforms.models is None)
    &&& (inputs.models@.len() > 0 ==> (plan.uniforms.models matches Some(b) && b@ == le_bytes_of(
        model_matrix_words(
            inputs.models@.take(
                min_int(inputs.models@.len() as int, MODEL_MATRIX_CAPACITY as int),
            ),
        ),
    )))
    &&& plan.world_pass.clear_color@ == seq![
        BACKGROUND_R_BITS,
        BACKGROUND_G_BITS,
        BACKGROUND_B_BITS,
        F32_ONE_BITS,
    ]
    &&& plan.world_pass.clear_depth == F32_ONE_BITS
    &&& plan.world_pass.draws@.len() == min_int(
        inputs.drawables@.len() as int,
        MODEL_MATRIX_CAPACITY as int,
    )
    &&& plan.world_pass.dropped == inputs.drawables@.len() - plan.world_pass.draws@.len()
    &&& (forall|i: int|
        0 <= i < plan.world_pass.draws@.len() ==> draw_cmd_matches(
            #[trigger] plan.world_pass.draws@[i],
            inputs.drawables@[i],
            assets,
            i,
        ))
    &&& plan.ui_pass.load_existing
}

impl SurfaceState {
    /// The depth buffer's extent always equals the surface's.
    pub open spec fn depth_matches(self) -> bool {
        &&& self.depth.width == self.config.width
        &&& self.depth.height == self.config.height
    }

    /// The state at startup: configured-to-be extent from the window, but
    /// the surface not yet configured (the first resize configures it).
    pub fn new(width: u32, height: u32) -> (r: Self)
        ensures
            r.config.width == width,
            r.config.height == height,
            r.depth_matches(),
            !r.is_surface_configured,
            !r.needs_reconfigure,
    {
        SurfaceState {
            config: SurfaceConfig { width, height },
            depth: DepthTexture { width, height },
            is_surface_configured: false,
            needs_reconfigure: false,
        }
    }

    /// Reconfigure the surface and recreate the depth buffer for a new
    /// window extent.  A degenerate extent (zero width or height, a
    /// minimized window) is explicitly not an error: the call changes
    /// nothing.
    pub fn resize(&mut self, width: u32, height: u32) -> (changed: bool)
        ensures
            width > 0 && height > 0 ==> {
                &&& changed
                &&& final(self).config == (SurfaceConfig { width, height })
                &&& final(self).depth == (DepthTexture { width, height })
                &&& final(self).is_surface_configured
                &&& !final(self).needs_reconfigure
            },
            !(width > 0 && height > 0) ==> !changed && *final(self) == *old(self),
            old(self).depth_matches() ==> final(self).depth_matches(),
    {
        if width > 0 && height > 0 {
            self.config.width = width;
            self.config.height = height;
            self.depth.width = width;
            self.depth.height = height;
            self.is_surface_configured = true;
            self.needs_reconfigure = false;
            true
        } else {
            false
        }
    }

    /// Drive one frame.  The host reports the result of its
    /// surface-acquire attempt; the frame either produces a full plan to
    /// record and present, skips (surface not yet configured, or lost or
    /// outdated: the host must resize with the current window size and
    /// retry next frame), or fails fatally for the caller to log and drop.
    pub fn render(
        &mut self,
        acquire: SurfaceAcquire,
        inputs: &FrameInputs,
        renderer: &Renderer,
        assets: &AssetManager,
    ) -> (r: Result<Option<FramePlan>, RenderError>)
        requires
            assets.wf(),
            inputs_in_range(*inputs, *assets),
            inputs.models@.len() == inputs.drawables@.len(),
        ensures
            final(self).config == old(self).config,
            final(self).depth == old(self).depth,
            final(self).is_surface_configured == old(self).is_surface_configured,
            !old(self).is_surface_configured ==> r == Ok::<Option<FramePlan>, RenderError>(None)
                && *final(self) == *old(self),
            old(self).is_surface_configured ==> (match acquire {
                SurfaceAcquire::Acquired => {
                    &&& final(self).needs_reconfigure == old(self).needs_reconfigure
                    &&& (r is Ok) <==> world_pipelines_ok(*inputs, *assets)
                    &&& (match r {
                        Ok(plan_opt) => plan_opt matches Some(plan) && frame_plan_ok(
                            plan,
                            *inputs,
                            *assets,
                        ),
                        Err(e) => e == RenderError::MissingPipeline,
                    })
                },
                SurfaceAcquire::Failed(kind) => {
                    if kind == SurfaceErrorKind::Lost || kind == SurfaceErrorKind::Outdated {
                        &&& r == Ok::<Option<FramePlan>, RenderError>(None)
                        &&& final(self).needs_reconfigure
                    } else {
                        &&& r == Err::<Option<FramePlan>, RenderError>(RenderError::Surface(kind))
                        &&& *final(self) == *old(self)
                    }
                },
            }),
    {
        if !self.is_surface_configured {
            return Ok(None);
        }
        match acquire {
            SurfaceAcquire::Failed(kind) => {
                if kind == SurfaceErrorKind::Lost || kind == SurfaceErrorKind::Outdated {
                    self.needs_reconfigure = true;
                    Ok(None)
                } else {
                    Err(RenderError::Surface(kind))
                }
            },
            SurfaceAcquire::Acquired => {
                let camera = match &inputs.camera {
                    Some(c) => Some(c),
                    None => None,
                };
                let lights = match &inputs.lights {
                    Some(l) => Some(l),
                    None => None,
                };
                let uniforms = renderer.update_global_uniforms(camera, lights, &inputs.models);
                let world = match renderer.draw_world(&inputs.drawables, assets) {
                    Ok(w) => w,
                    Err(_) => {
                        return Err(RenderError::MissingPipeline);
                    },
                };
                let clear_color: [u32; 4] = [
                    BACKGROUND_R_BITS,
                    BACKGROUND_G_BITS,
                    BACKGROUND_B_BITS,
                    F32_ONE_BITS,
                ];
                proof {
                    assert(clear_color@ =~= seq![
                        BACKGROUND_R_BITS,
                        BACKGROUND_G_BITS,
                        BACKGROUND_B_BITS,
                        F32_ONE_BITS,
                    ]);
                }
                let plan = FramePlan {
                    uniforms,
                    world_pass: WorldPassDesc {
                        clear_color,
                        clear_depth: F32_ONE_BITS,
                        draws: world.draws,
                        dropped: world.dropped,
                    },
                    ui_pass: UiPassDesc { load_existing: true },
                };
                Ok(Some(plan))
            },
        }
    }
}

} // verus!
