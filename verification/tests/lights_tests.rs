use render_core::gpu_types::GlobalLightDataUniform;
use render_core::lights::{
    sync_lights_uniform, DirectionalLightSource, PointLightSource, SpotLightSource,
};

fn point(i: u32) -> PointLightSource {
    PointLightSource {
        position: [(i as f32).to_bits(), 0, 0],
        color: [1.0f32.to_bits(); 3],
        intensity: 2.0f32.to_bits(),
        range: 10.0f32.to_bits(),
    }
}

#[test]
fn twenty_point_lights_pack_exactly_sixteen_in_order() {
    let points: Vec<PointLightSource> = (0..20).map(point).collect();
    let spots: Vec<SpotLightSource> = Vec::new();
    let mut data = GlobalLightDataUniform::new();
    sync_lights_uniform(None, &points, &spots, &mut data);
    assert_eq!(data.num_lights, 16);
    for i in 0..16 {
        // the first sixteen in iteration order, first come first served
        assert_eq!(data.lights[i].position[0], (i as f32).to_bits());
        assert_eq!(data.lights[i].light_type, 0);
        assert_eq!(data.lights[i].intensity, 2.0f32.to_bits());
    }
}

#[test]
fn points_pack_before_spots_and_spots_carry_type_tag_one() {
    let points: Vec<PointLightSource> = (0..3).map(point).collect();
    let spots = vec![SpotLightSource {
        position: [9.0f32.to_bits(), 0, 0],
        color: [0.5f32.to_bits(); 3],
        intensity: 1.0f32.to_bits(),
        range: 5.0f32.to_bits(),
        direction: [0, 1.0f32.to_bits(), 0],
        cutoff: 0.9f32.to_bits(),
    }];
    let mut data = GlobalLightDataUniform::new();
    sync_lights_uniform(None, &points, &spots, &mut data);
    assert_eq!(data.num_lights, 4);
    assert_eq!(data.lights[0].light_type, 0);
    assert_eq!(data.lights[2].light_type, 0);
    assert_eq!(data.lights[3].light_type, 1);
    assert_eq!(data.lights[3].position[0], 9.0f32.to_bits());
    assert_eq!(data.lights[3].cutoff, 0.9f32.to_bits());
    // a point light's direction and cutoff are irrelevant and zeroed
    assert_eq!(data.lights[0].direction, [0, 0, 0]);
    assert_eq!(data.lights[0].cutoff, 0);
}

#[test]
fn directional_light_packs_sun_direction_and_color_with_intensity() {
    let dir = DirectionalLightSource {
        direction: [0, (-1.0f32).to_bits(), 0],
        color: [1.0f32.to_bits(), 0.9f32.to_bits(), 0.8f32.to_bits()],
        intensity: 3.0f32.to_bits(),
    };
    let mut data = GlobalLightDataUniform::new();
    sync_lights_uniform(Some(&dir), &Vec::new(), &Vec::new(), &mut data);
    assert_eq!(data.sun_direction, [0, (-1.0f32).to_bits(), 0, 0]);
    assert_eq!(
        data.sun_color,
        [1.0f32.to_bits(), 0.9f32.to_bits(), 0.8f32.to_bits(), 3.0f32.to_bits()]
    );
    assert_eq!(data.num_lights, 0);
}

#[test]
fn absent_directional_light_leaves_sun_fields_alone() {
    let mut data = GlobalLightDataUniform::new();
    let before_dir = data.sun_direction;
    let before_col = data.sun_color;
    sync_lights_uniform(None, &vec![point(1)], &Vec::new(), &mut data);
    assert_eq!(data.sun_direction, before_dir);
    assert_eq!(data.sun_color, before_col);
    assert_eq!(data.num_lights, 1);
}

#[test]
fn slots_beyond_the_live_count_keep_their_old_content() {
    let mut data = GlobalLightDataUniform::new();
    sync_lights_uniform(None, &(0..16).map(point).collect(), &Vec::new(), &mut data);
    let slot_15 = data.lights[15];
    sync_lights_uniform(None, &vec![point(40)], &Vec::new(), &mut data);
    assert_eq!(data.num_lights, 1);
    assert_eq!(data.lights[0].position[0], 40.0f32.to_bits());
    // slot 15 is beyond the live count now: stale but untouched
    assert_eq!(data.lights[15], slot_15);
}
