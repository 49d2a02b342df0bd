use render_core::asset_manager::{
    AssetManager, AssetManifest, LoadedAssets, LoadedMesh, LoadedTexture, MaterialConfig,
    MaterialEntry, MeshEntry, TextureEntry,
};
use render_core::frame::{
    FrameInputs, RenderError, SurfaceAcquire, SurfaceErrorKind, SurfaceState,
};
use render_core::gpu_types::{CameraUniform, GlobalLightDataUniform, ModelMatrixUniform};
use render_core::handles::{MaterialHandle, MeshHandle, MeshRenderer};
use render_core::pipeline::PipelineBuilder;
use render_core::renderer::{Renderer, MODEL_MATRIX_CAPACITY};

fn initialized_store() -> AssetManager {
    let mut store = AssetManager::new();
    store.pipeline_cache.insert("standard", PipelineBuilder::build_standard_pipeline());
    let manifest = AssetManifest {
        textures: vec![TextureEntry { name: "t1".to_string(), path: "tex/a.png".to_string() }],
        meshes: vec![MeshEntry { name: "m1".to_string(), path: "mesh/a.obj".to_string() }],
        materials: vec![MaterialEntry {
            name: "mat1".to_string(),
            config: MaterialConfig {
                pipeline: "standard".to_string(),
                diffuse: "t1".to_string(),
                normal: None,
                roughness: 0.5f32.to_bits(),
                metallic: 0.0f32.to_bits(),
            },
        }],
    };
    let loaded = LoadedAssets {
        textures: vec![LoadedTexture { width: 16, height: 16 }],
        meshes: vec![LoadedMesh { num_vertices: 8, num_indices: 30 }],
    };
    store.initialize_assets(&manifest, &loaded).unwrap();
    store
}

fn identity_matrix() -> ModelMatrixUniform {
    let one = 1.0f32.to_bits();
    ModelMatrixUniform {
        model: [[one, 0, 0, 0], [0, one, 0, 0], [0, 0, one, 0], [0, 0, 0, one]],
    }
}

fn one_drawable_inputs(store: &AssetManager) -> FrameInputs {
    let mesh = store.get_mesh_id("m1");
    let material = store.get_material_id("mat1");
    FrameInputs {
        camera: Some(CameraUniform::new()),
        lights: Some(GlobalLightDataUniform::new()),
        drawables: vec![MeshRenderer { mesh: MeshHandle(mesh), material: MaterialHandle(material) }],
        models: vec![identity_matrix()],
    }
}

#[test]
fn resize_with_zero_dimension_changes_nothing() {
    let mut state = SurfaceState::new(1024, 768);
    let before = state;
    assert!(!state.resize(0, 600));
    assert_eq!(state, before);
    assert_eq!(state.config.width, 1024);
    assert_eq!(state.depth.width, 1024);
    // a proper resize afterwards updates surface and depth buffer together
    assert!(state.resize(800, 600));
    assert_eq!((state.config.width, state.config.height), (800, 600));
    assert_eq!((state.depth.width, state.depth.height), (800, 600));
    assert!(state.is_surface_configured);
}

#[test]
fn render_before_surface_is_configured_skips_the_frame() {
    let store = initialized_store();
    let renderer = Renderer::new();
    let mut state = SurfaceState::new(800, 600);
    let inputs = one_drawable_inputs(&store);
    let r = state.render(SurfaceAcquire::Acquired, &inputs, &renderer, &store);
    assert!(matches!(r, Ok(None)));
}

#[test]
fn outdated_surface_skips_the_frame_and_expects_a_resize() {
    let store = initialized_store();
    let renderer = Renderer::new();
    let mut state = SurfaceState::new(800, 600);
    state.resize(800, 600);
    let inputs = one_drawable_inputs(&store);
    let r = state.render(
        SurfaceAcquire::Failed(SurfaceErrorKind::Outdated),
        &inputs,
        &renderer,
        &store,
    );
    assert!(matches!(r, Ok(None)));
    assert!(state.needs_reconfigure);
    // the expected resize with the current window size
    state.resize(800, 600);
    assert!(!state.needs_reconfigure);
    let r = state.render(SurfaceAcquire::Acquired, &inputs, &renderer, &store);
    assert!(matches!(r, Ok(Some(_))));
}

#[test]
fn fatal_surface_errors_drop_the_frame_with_an_error() {
    let store = initialized_store();
    let renderer = Renderer::new();
    let mut state = SurfaceState::new(800, 600);
    state.resize(800, 600);
    let inputs = one_drawable_inputs(&store);
    for kind in [SurfaceErrorKind::Timeout, SurfaceErrorKind::OutOfMemory, SurfaceErrorKind::Other]
    {
        let r = state.render(SurfaceAcquire::Failed(kind), &inputs, &renderer, &store);
        assert_eq!(r, Err(RenderError::Surface(kind)));
        assert!(!state.needs_reconfigure);
    }
}

#[test]
fn one_drawable_issues_exactly_one_indexed_draw_with_its_material() {
    let store = initialized_store();
    let renderer = Renderer::new();
    let mut state = SurfaceState::new(800, 600);
    state.resize(800, 600);
    let inputs = one_drawable_inputs(&store);
    let plan = state
        .render(SurfaceAcquire::Acquired, &inputs, &renderer, &store)
        .unwrap()
        .unwrap();
    assert_eq!(plan.world_pass.draws.len(), 1);
    assert_eq!(plan.world_pass.dropped, 0);
    let cmd = plan.world_pass.draws[0];
    assert_eq!(cmd.material, store.get_material_id("mat1"));
    assert_eq!(cmd.mesh, store.get_mesh_id("m1"));
    assert_eq!(cmd.num_indices, 30);
    assert_eq!(cmd.instance_index, 0);
    // the pipeline slot is the one "standard" occupies in the cache
    assert_eq!(store.pipeline_cache.resolve("standard"), Some(cmd.pipeline));
    // world pass clears, UI pass loads and comes second
    assert_eq!(plan.world_pass.clear_color[3], 1.0f32.to_bits());
    assert_eq!(plan.world_pass.clear_depth, 1.0f32.to_bits());
    assert!(plan.ui_pass.load_existing);
    // uniform writes carry the same frame's data
    assert_eq!(plan.uniforms.camera.as_ref().unwrap().len(), 64);
    assert_eq!(plan.uniforms.lights.as_ref().unwrap().len(), 1088);
    assert_eq!(plan.uniforms.models.as_ref().unwrap().len(), 64);
}

#[test]
fn draw_order_assigns_positional_instance_indices() {
    let store = initialized_store();
    let renderer = Renderer::new();
    let mut state = SurfaceState::new(800, 600);
    state.resize(800, 600);
    let mesh = store.get_mesh_id("m1");
    let cube = store.get_mesh_id("internal:cube");
    let mat = store.get_material_id("mat1");
    let white = store.get_material_id("internal:white");
    let inputs = FrameInputs {
        camera: None,
        lights: None,
        drawables: vec![
            MeshRenderer { mesh: MeshHandle(cube), material: MaterialHandle(white) },
            MeshRenderer { mesh: MeshHandle(mesh), material: MaterialHandle(mat) },
            MeshRenderer { mesh: MeshHandle(cube), material: MaterialHandle(mat) },
        ],
        models: vec![identity_matrix(); 3],
    };
    let plan = state
        .render(SurfaceAcquire::Acquired, &inputs, &renderer, &store)
        .unwrap()
        .unwrap();
    assert_eq!(plan.world_pass.draws.len(), 3);
    for (i, cmd) in plan.world_pass.draws.iter().enumerate() {
        // the instance index is positional: it selects the model matrix
        // written for the same draw order this frame
        assert_eq!(cmd.instance_index as usize, i);
    }
    assert_eq!(plan.world_pass.draws[0].num_indices, 36);
    assert_eq!(plan.world_pass.draws[1].num_indices, 30);
    assert_eq!(plan.world_pass.draws[0].material, white);
    assert_eq!(plan.world_pass.draws[1].material, mat);
}

#[test]
fn empty_drawable_set_skips_the_model_write() {
    let store = initialized_store();
    let renderer = Renderer::new();
    let mut state = SurfaceState::new(800, 600);
    state.resize(800, 600);
    let inputs = FrameInputs {
        camera: None,
        lights: None,
        drawables: Vec::new(),
        models: Vec::new(),
    };
    let plan = state
        .render(SurfaceAcquire::Acquired, &inputs, &renderer, &store)
        .unwrap()
        .unwrap();
    assert!(plan.uniforms.camera.is_none());
    assert!(plan.uniforms.lights.is_none());
    assert!(plan.uniforms.models.is_none());
    assert_eq!(plan.world_pass.draws.len(), 0);
}

#[test]
fn drawables_beyond_model_capacity_are_dropped_not_overrun() {
    let store = initialized_store();
    let renderer = Renderer::new();
    let mesh = store.get_mesh_id("m1");
    let material = store.get_material_id("mat1");
    let n = MODEL_MATRIX_CAPACITY + 1;
    let drawable = MeshRenderer { mesh: MeshHandle(mesh), material: MaterialHandle(material) };
    let inputs = FrameInputs {
        camera: None,
        lights: None,
        drawables: vec![drawable; n],
        models: vec![identity_matrix(); n],
    };
    let mut state = SurfaceState::new(800, 600);
    state.resize(800, 600);
    let plan = state
        .render(SurfaceAcquire::Acquired, &inputs, &renderer, &store)
        .unwrap()
        .unwrap();
    assert_eq!(plan.world_pass.draws.len(), MODEL_MATRIX_CAPACITY);
    assert_eq!(plan.world_pass.dropped, 1);
    assert_eq!(
        plan.uniforms.models.as_ref().unwrap().len(),
        MODEL_MATRIX_CAPACITY * 64
    );
    let last = plan.world_pass.draws[MODEL_MATRIX_CAPACITY - 1];
    assert_eq!(last.instance_index as usize, MODEL_MATRIX_CAPACITY - 1);
}
