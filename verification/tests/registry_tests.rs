use render_core::asset_manager::{AssetError, AssetManager, MeshBuffers, TextureFormat, TextureRecord, TextureSource};
use render_core::registry::NameRegistry;

#[test]
fn register_then_resolve_returns_same_id() {
    let mut reg = NameRegistry::new();
    reg.register("crate_mesh", 0);
    reg.register("rock_mesh", 1);
    assert_eq!(reg.resolve("crate_mesh"), Some(0));
    assert_eq!(reg.resolve("rock_mesh"), Some(1));
}

#[test]
fn resolve_never_registered_name_fails() {
    let mut reg = NameRegistry::new();
    assert_eq!(reg.resolve("anything"), None);
    reg.register("a", 7);
    assert_eq!(reg.resolve("b"), None);
    assert!(!reg.contains("b"));
    assert!(reg.contains("a"));
}

#[test]
fn reregistering_overwrites_the_mapping() {
    let mut reg = NameRegistry::new();
    reg.register("a", 0);
    reg.register("a", 5);
    assert_eq!(reg.resolve("a"), Some(5));
}

#[test]
fn clear_forgets_all_names() {
    let mut reg = NameRegistry::new();
    reg.register("a", 0);
    reg.register("b", 1);
    reg.clear();
    assert_eq!(reg.resolve("a"), None);
    assert_eq!(reg.resolve("b"), None);
    reg.register("a", 0);
    assert_eq!(reg.resolve("a"), Some(0));
}

#[test]
fn store_register_and_resolve_meshes_and_textures() {
    let mut store = AssetManager::new();
    let id = store.register_mesh("quad", MeshBuffers { num_vertices: 4, num_indices: 6 });
    assert_eq!(id.0, 0);
    let mesh = *store.get_mesh(id);
    assert_eq!(mesh.num_indices, 6);
    assert_eq!(store.get_mesh_id("quad"), id);
    assert_eq!(store.resolve_mesh("quad"), Ok(id));
    assert_eq!(store.resolve_mesh("missing"), Err(AssetError::NotFound));

    let tex = store.register_texture(
        "white",
        TextureRecord {
            format: TextureFormat::Rgba8UnormSrgb,
            width: 1,
            height: 1,
            source: TextureSource::Solid([255, 255, 255, 255]),
        },
    );
    assert_eq!(tex.0, 0);
    assert_eq!(store.resolve_texture("white"), Ok(tex));
    assert_eq!(store.resolve_texture("gray"), Err(AssetError::NotFound));
    assert_eq!(store.resolve_material("none_yet"), Err(AssetError::NotFound));
}
