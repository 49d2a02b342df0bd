use render_core::asset_manager::{
    AssetError, AssetManager, AssetManifest, LoadedAssets, LoadedMesh, LoadedTexture,
    MaterialConfig, MaterialEntry, MeshEntry, NormalBinding, TextureEntry, TextureFormat,
};
use render_core::pipeline::{BindGroupLayoutDesc, PipelineBuilder, PipelineDesc};

fn small_manifest() -> AssetManifest {
    AssetManifest {
        textures: vec![
            TextureEntry { name: "t1".to_string(), path: "tex/a.png".to_string() },
            TextureEntry { name: "bump".to_string(), path: "tex/brick_n.png".to_string() },
        ],
        meshes: vec![MeshEntry { name: "m1".to_string(), path: "mesh/a.obj".to_string() }],
        materials: vec![MaterialEntry {
            name: "mat1".to_string(),
            config: MaterialConfig {
                pipeline: "standard".to_string(),
                diffuse: "t1".to_string(),
                normal: None,
                roughness: 0.5f32.to_bits(),
                metallic: 0.0f32.to_bits(),
            },
        }],
    }
}

fn small_loaded() -> LoadedAssets {
    LoadedAssets {
        textures: vec![
            LoadedTexture { width: 64, height: 64 },
            LoadedTexture { width: 32, height: 32 },
        ],
        meshes: vec![LoadedMesh { num_vertices: 8, num_indices: 36 }],
    }
}

fn store_with_standard_pipeline() -> AssetManager {
    let mut store = AssetManager::new();
    store.pipeline_cache.insert("standard", PipelineBuilder::build_standard_pipeline());
    store
}

#[test]
fn initialize_counts_are_builtins_plus_declared() {
    let mut store = store_with_standard_pipeline();
    let r = store.initialize_assets(&small_manifest(), &small_loaded());
    assert_eq!(r, Ok(()));
    // built-ins: cube + sphere meshes, white_diffuse texture, white material
    assert_eq!(store.mesh_count(), 2 + 1);
    assert_eq!(store.texture_count(), 1 + 2);
    assert_eq!(store.material_count(), 1 + 1);
}

#[test]
fn material_without_normal_binds_default_normal_texture() {
    let mut store = store_with_standard_pipeline();
    store.initialize_assets(&small_manifest(), &small_loaded()).unwrap();
    let id = store.resolve_material("mat1").unwrap();
    let mat = store.get_material(id).clone();
    assert_eq!(mat.bind_group.normal, NormalBinding::DefaultNormal);
    assert_eq!(mat.pipeline_name, "standard");
}

#[test]
fn material_with_normal_binds_declared_texture() {
    let mut store = store_with_standard_pipeline();
    let mut manifest = small_manifest();
    manifest.materials[0].config.normal = Some("bump".to_string());
    store.initialize_assets(&manifest, &small_loaded()).unwrap();
    let bump = store.resolve_texture("bump").unwrap();
    let id = store.resolve_material("mat1").unwrap();
    let mat = store.get_material(id).clone();
    assert_eq!(mat.bind_group.normal, NormalBinding::Texture(bump));
}

#[test]
fn initialize_twice_yields_same_names_and_counts() {
    let manifest = small_manifest();
    let loaded = small_loaded();
    let mut s1 = store_with_standard_pipeline();
    let mut s2 = store_with_standard_pipeline();
    s1.initialize_assets(&manifest, &loaded).unwrap();
    s2.initialize_assets(&manifest, &loaded).unwrap();
    // the second store can also be the same store re-initialized
    s2.initialize_assets(&manifest, &loaded).unwrap();
    assert_eq!(s1.mesh_count(), s2.mesh_count());
    assert_eq!(s1.texture_count(), s2.texture_count());
    assert_eq!(s1.material_count(), s2.material_count());
    for name in ["internal:cube", "internal:sphere", "m1"] {
        assert_eq!(s1.resolve_mesh(name), s2.resolve_mesh(name));
    }
    for name in ["internal:white_diffuse", "t1", "bump"] {
        assert_eq!(s1.resolve_texture(name), s2.resolve_texture(name));
    }
    for name in ["internal:white", "mat1"] {
        assert_eq!(s1.resolve_material(name), s2.resolve_material(name));
    }
}

#[test]
fn texture_format_rule_follows_file_name_markers() {
    let mut store = store_with_standard_pipeline();
    store.initialize_assets(&small_manifest(), &small_loaded()).unwrap();
    let t1 = store.resolve_texture("t1").unwrap();
    let bump = store.resolve_texture("bump").unwrap();
    assert_eq!(store.get_texture(t1).format, TextureFormat::Rgba8UnormSrgb);
    assert_eq!(store.get_texture(bump).format, TextureFormat::Rgba8Unorm);
    assert_eq!(store.get_texture(t1).width, 64);
    assert_eq!(store.get_texture(bump).width, 32);
}

#[test]
fn missing_pipeline_aborts_initialization_and_clears_the_store() {
    let mut store = AssetManager::new();  // no pipelines at all
    let r = store.initialize_assets(&small_manifest(), &small_loaded());
    assert_eq!(r, Err(AssetError::PipelineNotFound));
    assert_eq!(store.mesh_count(), 0);
    assert_eq!(store.texture_count(), 0);
    assert_eq!(store.material_count(), 0);
}

#[test]
fn incompatible_material_slot_layout_is_a_layout_mismatch() {
    let mut store = AssetManager::new();
    let incompatible = PipelineDesc {
        bind_group_layouts: vec![
            BindGroupLayoutDesc { entries: vec![] },
            BindGroupLayoutDesc { entries: vec![] },
        ],
        vertex_layout: PipelineBuilder::build_standard_pipeline().vertex_layout,
        front_face_ccw: true,
        cull_back_faces: true,
        depth_test: true,
    };
    store.pipeline_cache.insert("standard", incompatible);
    let r = store.initialize_assets(&small_manifest(), &small_loaded());
    assert_eq!(r, Err(AssetError::LayoutMismatch));
}

#[test]
fn unresolvable_diffuse_texture_aborts_initialization() {
    let mut store = store_with_standard_pipeline();
    let mut manifest = small_manifest();
    manifest.materials[0].config.diffuse = "missing".to_string();
    let r = store.initialize_assets(&manifest, &small_loaded());
    assert_eq!(r, Err(AssetError::TextureNotFound));
    assert_eq!(store.material_count(), 0);
}

#[test]
fn unresolvable_normal_texture_aborts_initialization() {
    let mut store = store_with_standard_pipeline();
    let mut manifest = small_manifest();
    manifest.materials[0].config.normal = Some("missing".to_string());
    let r = store.initialize_assets(&manifest, &small_loaded());
    assert_eq!(r, Err(AssetError::NormalTextureNotFound));
}

#[test]
fn create_single_color_material_registers_generated_diffuse() {
    let mut store = store_with_standard_pipeline();
    let id = store
        .create_single_color_material("flat_red", [255, 0, 0, 255], 0.4f32.to_bits(), 0)
        .unwrap();
    let tex = store.resolve_texture("flat_red_diffuse").unwrap();
    let mat = store.get_material(id).clone();
    assert_eq!(mat.bind_group.diffuse, tex);
    assert_eq!(mat.bind_group.uniform.roughness, 0.4f32.to_bits());
    assert_eq!(mat.bind_group.normal, NormalBinding::DefaultNormal);
    let record = store.get_texture(tex).clone();
    assert_eq!((record.width, record.height), (1, 1));
    assert_eq!(record.format, TextureFormat::Rgba8UnormSrgb);
}

#[test]
fn builtin_meshes_have_cube_and_sphere_counts() {
    let mut store = store_with_standard_pipeline();
    store
        .initialize_assets(
            &AssetManifest { textures: vec![], meshes: vec![], materials: vec![] },
            &LoadedAssets { textures: vec![], meshes: vec![] },
        )
        .unwrap();
    let cube = store.resolve_mesh("internal:cube").unwrap();
    let sphere = store.resolve_mesh("internal:sphere").unwrap();
    assert_eq!(store.get_mesh(cube).num_vertices, 24);
    assert_eq!(store.get_mesh(cube).num_indices, 36);
    // 16 latitude and 32 longitude bands: 17 * 33 vertices, 6 * 16 * 32 indices
    assert_eq!(store.get_mesh(sphere).num_vertices, 561);
    assert_eq!(store.get_mesh(sphere).num_indices, 3072);
}
