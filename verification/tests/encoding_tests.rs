use render_core::asset_manager::{texture_format_for, TextureFormat};
use render_core::geometry::{cube_indices, sphere_indices};
use render_core::gpu_types::{
    camera_uniform_bytes, encode_words, lights_uniform_bytes, material_uniform_bytes,
    sync_camera_uniform, CameraUniform, GlobalLightDataUniform, MaterialUniform,
};
use render_core::pipeline::{BindingKind, PipelineBuilder};
use render_core::strings::{file_name_of, str_contains};

#[test]
fn words_encode_little_endian() {
    let bytes = encode_words(&vec![0x0403_0201, 0xFFFE_FDFC]);
    assert_eq!(bytes, vec![0x01, 0x02, 0x03, 0x04, 0xFC, 0xFD, 0xFE, 0xFF]);
}

#[test]
fn camera_uniform_serializes_to_64_bytes_row_by_row() {
    let cam = CameraUniform::new();
    let bytes = camera_uniform_bytes(&cam);
    assert_eq!(bytes.len(), 64);
    // identity: 1.0 at words 0, 5, 10, 15
    let one = 1.0f32.to_le_bytes();
    assert_eq!(&bytes[0..4], &one);
    assert_eq!(&bytes[20..24], &one);
    assert_eq!(&bytes[40..44], &one);
    assert_eq!(&bytes[60..64], &one);
    assert_eq!(&bytes[4..8], &[0, 0, 0, 0]);
}

#[test]
fn camera_sync_copies_the_matrix_verbatim() {
    let mut bridge = CameraUniform::new();
    let m = [[1u32, 2, 3, 4], [5, 6, 7, 8], [9, 10, 11, 12], [13, 14, 15, 16]];
    sync_camera_uniform(&m, &mut bridge);
    assert_eq!(bridge.view_proj_matrix, m);
    let bytes = camera_uniform_bytes(&bridge);
    assert_eq!(&bytes[0..4], &[1, 0, 0, 0]);
    assert_eq!(&bytes[60..64], &[16, 0, 0, 0]);
}

#[test]
fn light_uniform_layout_is_1088_bytes_with_count_at_offset_48() {
    let mut data = GlobalLightDataUniform::new();
    data.num_lights = 5;
    let bytes = lights_uniform_bytes(&data);
    assert_eq!(bytes.len(), 1088);
    // ambient white at the front
    assert_eq!(&bytes[0..4], &1.0f32.to_le_bytes());
    // sun direction y component is -1.0
    assert_eq!(&bytes[20..24], &(-1.0f32).to_le_bytes());
    // num_lights is the 13th word
    assert_eq!(&bytes[48..52], &[5, 0, 0, 0]);
    // the first packed light record starts at byte 64
    assert_eq!(&bytes[64..68], &[0, 0, 0, 0]);
}

#[test]
fn material_uniform_is_16_bytes_of_roughness_metallic_padding() {
    let m = MaterialUniform::new(0.5f32.to_bits(), 1.0f32.to_bits());
    let bytes = material_uniform_bytes(&m);
    assert_eq!(bytes.len(), 16);
    assert_eq!(&bytes[0..4], &0.5f32.to_le_bytes());
    assert_eq!(&bytes[4..8], &1.0f32.to_le_bytes());
    assert_eq!(&bytes[8..16], &[0u8; 8]);
}

#[test]
fn cube_index_buffer_is_the_six_quad_faces() {
    let idx = cube_indices();
    assert_eq!(idx.len(), 36);
    assert_eq!(&idx[0..6], &[0, 1, 2, 2, 3, 0]);
    assert_eq!(&idx[30..36], &[20, 21, 22, 22, 23, 20]);
    assert!(idx.iter().all(|&i| i < 24));
}

#[test]
fn sphere_index_buffer_stitches_rings() {
    let idx = sphere_indices(2, 3);
    assert_eq!(idx.len(), 36);
    // quad (0,0): first = 0, second = 4
    assert_eq!(&idx[0..6], &[0, 1, 4, 1, 5, 4]);
    // quad (1,2): base 30, first = 6, second = 10
    assert_eq!(&idx[30..36], &[6, 7, 10, 7, 11, 10]);
    // every index addresses one of the 3 * 4 grid vertices
    assert!(idx.iter().all(|&i| i < 12));
}

#[test]
fn texture_format_rule_looks_only_at_the_file_name() {
    assert_eq!(texture_format_for("tex/brick_n.png"), TextureFormat::Rgba8Unorm);
    assert_eq!(texture_format_for("tex/height_data.png"), TextureFormat::Rgba8Unorm);
    assert_eq!(texture_format_for("tex/brick.png"), TextureFormat::Rgba8UnormSrgb);
    // the marker in a directory name does not count
    assert_eq!(texture_format_for("tex_n./brick.png"), TextureFormat::Rgba8UnormSrgb);
    assert_eq!(texture_format_for("brick_n.png"), TextureFormat::Rgba8Unorm);
}

#[test]
fn file_name_of_takes_the_suffix_after_the_last_separator() {
    assert_eq!(file_name_of("a/b/c.png"), "c.png");
    assert_eq!(file_name_of("c.png"), "c.png");
    assert_eq!(file_name_of("a/b/"), "");
    assert_eq!(file_name_of(""), "");
}

#[test]
fn substring_search_finds_patterns_anywhere() {
    assert!(str_contains("brick_n.png", "_n."));
    assert!(str_contains("abc", ""));
    assert!(!str_contains("brick.png", "_n."));
    assert!(!str_contains("ab", "abc"));
}

#[test]
fn standard_pipeline_has_the_documented_fixed_state() {
    let p = PipelineBuilder::build_standard_pipeline();
    assert_eq!(p.bind_group_layouts.len(), 4);
    assert_eq!(p.bind_group_layouts[0].entries, vec![BindingKind::UniformBuffer]);
    assert_eq!(
        p.bind_group_layouts[2].entries,
        vec![
            BindingKind::Texture2d,
            BindingKind::Sampler,
            BindingKind::UniformBuffer,
            BindingKind::Texture2d,
        ]
    );
    assert_eq!(p.bind_group_layouts[3].entries, vec![BindingKind::StorageBufferReadOnly]);
    assert_eq!(p.vertex_layout.array_stride, 32);
    assert_eq!(p.vertex_layout.attributes[1].offset, 12);
    assert_eq!(p.vertex_layout.attributes[2].offset, 20);
    assert!(p.front_face_ccw && p.cull_back_faces && p.depth_test);
}
