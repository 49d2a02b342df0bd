use vstd::prelude::*;
use crate::gpu_types::{min_int, GlobalLightDataUniform, LightInstanceUniform, MAX_LIGHTS};

verus! {

broadcast use vstd::array::group_array_axioms;

/// A point light gathered from the world, position taken from the owning
/// entity's transform; scalars are IEEE-754 bit patterns.
#[derive(Debug, Clone, Copy, PartialEq)]
pub struct PointLightSource {
    pub position: [u32; 3],
    pub color: [u32; 3],
    pub intensity: u32,
    pub range: u32,
}

/// A spot light gathered from the world; `cutoff` already holds the cosine
/// of the spot's half-angle, which is what the packed record stores.
#[derive(Debug, Clone, Copy, PartialEq)]
pub struct SpotLightSource {
    pub position: [u32; 3],
    pub color: [u32; 3],
    pub intensity: u32,
    pub range: u32,
    pub direction: [u32; 3],
    pub cutoff: u32,
}

/// The single directional ("sun") light gathered from the world.
#[derive(Debug, Clone, Copy, PartialEq)]
pub struct DirectionalLightSource {
    pub direction: [u32; 3],
    pub color: [u32; 3],
    pub intensity: u32,
}

/// `e` is the packed record of point light `p`: type tag 0, direction and
/// cutoff irrelevant and zeroed.
pub open spec fn is_point_entry(e: LightInstanceUniform, p: PointLightSource) -> bool {
    &&& e.position@ == p.position@
    &&& e.light_type == 0
    &&& e.color@ == p.color@
    &&& e.intensity == p.intensity
    &&& e.range == p.range
    &&& e.direction@ == seq![0u32, 0u32, 0u32]
    &&& e.cutoff == 0
    &&& e._padding@ == seq![0u32, 0u32, 0u32]
}

/// `e` is the packed record of spot light `s`: type tag 1.
pub open spec fn is_spot_entry(e: LightInstanceUniform, s: SpotLightSource) -> bool {
    &&& e.position@ == s.position@
    &&& e.light_type == 1
    &&& e.color@ == s.color@
    &&& e.intensity == s.intensity
    &&& e.range == s.range
    &&& e.direction@ == s.direction@
    &&& e.cutoff == s.cutoff
    &&& e._padding@ == seq![0u32, 0u32, 0u32]
}

/// The record expected at slot `i` of the packed light array: the point
/// lights first, in iteration order, then the spot lights.
pub open spec fn expected_light_entry(
    points: Seq<PointLightSource>,
    spots: Seq<SpotLightSource>,
    i: int,
    e: LightInstanceUniform,
) -> bool {
    if i < points.len() {
        is_point_entry(e, points[i])
    } else {
        is_spot_entry(e, spots[i - points.len()])
    }
}

/// The sun fields of `u` hold directional light `d`: direction padded with
/// a zero w component, color packed with the intensity as w.
pub open spec fn is_sun_of(u: GlobalLightDataUniform, d: DirectionalLightSource) -> bool {
    &&& u.sun_direction@ == seq![d.direction@[0], d.direction@[1], d.direction@[2], 0u32]
    &&& u.sun_color@ == seq![d.color@[0], d.color@[1], d.color@[2], d.intensity]
}

/// One uniform-sync pass for light data: write the sun fields from the
/// directional light (if any), then pack point lights and spot lights, in
/// that order, into the fixed-capacity array.  Lights beyond the capacity
/// are silently dropped, first come first served; `num_lights` gates how
/// many slots are live, and slots beyond it keep their old (don't-care)
/// content.
pub fn sync_lights_uniform(
    dir: Option<&DirectionalLightSource>,
    points: &Vec<PointLightSource>,
    spots: &Vec<SpotLightSource>,
    data: &mut GlobalLightDataUniform,
)
    ensures
        final(data).num_lights as int == min_int(points@.len() + spots@.len() as int, MAX_LIGHTS as int),
        forall|i: int|
            0 <= i < final(data).num_lights ==> expected_light_entry(
                points@,
                spots@,
                i,
                #[trigger] final(data).lights@[i],
            ),
        forall|i: int|
            final(data).num_lights <= i < 16 ==> final(data).lights@[i] == old(data).lights@[i],
        (match dir {
            Some(d) => is_sun_of(*final(data), *d),
            None => {
                &&& final(data).sun_direction == old(data).sun_direction
                &&& final(data).sun_color == old(data).sun_color
            },
        }),
        final(data).ambient_color == old(data).ambient_color,
        final(data)._padding == old(data)._padding,
{
    if let Some(d) = dir {
        let sun_direction: [u32; 4] = [d.direction[0], d.direction[1], d.direction[2], 0u32];
        let sun_color: [u32; 4] = [d.color[0], d.color[1], d.color[2], d.intensity];
        data.sun_direction = sun_direction;
        data.sun_color = sun_color;
        proof {
            assert(data.sun_direction@ =~= seq![
                d.direction@[0], d.direction@[1], d.direction@[2], 0u32,
            ]);
            assert(data.sun_color@ =~= seq![d.color@[0], d.color@[1], d.color@[2], d.intensity]);
        }
    }
    let ghost mid = *data;
    let mut light_count: usize = 0;
    let mut i: usize = 0;
    while i < points.len() && light_count < MAX_LIGHTS
        invariant
            light_count == i,
            i <= points@.len(),
            i <= MAX_LIGHTS,
            data.ambient_color == mid.ambient_color,
            data.sun_direction == mid.sun_direction,
            data.sun_color == mid.sun_color,
            data.num_lights == mid.num_lights,
            data._padding == mid._padding,
            forall|k: int|
                0 <= k < light_count ==> is_point_entry(
                    #[trigger] data.lights@[k],
                    points@[k],
                ),
            forall|k: int| light_count <= k < 16 ==> data.lights@[k] == mid.lights@[k],
        decreases points@.len() - i,
    {
        let p = points[i];
        let zero3: [u32; 3] = [0u32, 0u32, 0u32];
        let entry = LightInstanceUniform {
            position: p.position,
            light_type: 0,
            color: p.color,
            intensity: p.intensity,
            direction: zero3,
            range: p.range,
            cutoff: 0,
            _padding: zero3,
        };
        proof {
            assert(zero3@ =~= seq![0u32, 0u32, 0u32]);
        }
        data.lights[light_count] = entry;
        light_count = light_count + 1;
        i = i + 1;
    }
    let ghost points_taken = light_count as int;
    let mut j: usize = 0;
    while j < spots.len() && light_count < MAX_LIGHTS
        invariant
            points_taken == min_int(points@.len() as int, MAX_LIGHTS as int),
            light_count == points_taken + j,
            j <= spots@.len(),
            light_count <= MAX_LIGHTS,
            points_taken < MAX_LIGHTS ==> points_taken == points@.len(),
            data.ambient_color == mid.ambient_color,
            data.sun_direction == mid.sun_direction,
            data.sun_color == mid.sun_color,
            data.num_lights == mid.num_lights,
            data._padding == mid._padding,
            forall|k: int|
                0 <= k < points_taken ==> is_point_entry(
                    #[trigger] data.lights@[k],
                    points@[k],
                ),
            forall|k: int|
                points_taken <= k < light_count ==> is_spot_entry(
                    #[trigger] data.lights@[k],
                    spots@[k - points_taken],
                ),
            forall|k: int| light_count <= k < 16 ==> data.lights@[k] == mid.lights@[k],
        decreases spots@.len() - j,
    {
        let s = spots[j];
        let zero3: [u32; 3] = [0u32, 0u32, 0u32];
        let entry = LightInstanceUniform {
            position: s.position,
            light_type: 1,
            color: s.color,
            intensity: s.intensity,
            direction: s.direction,
            range: s.range,
            cutoff: s.cutoff,
            _padding: zero3,
        };
        proof {
            assert(zero3@ =~= seq![0u32, 0u32, 0u32]);
        }
        data.lights[light_count] = entry;
        light_count = light_count + 1;
        j = j + 1;
    }
    proof {
        assert(mid.lights == old(data).lights);
        assert(forall|k: int|
            light_count <= k < 16 ==> data.lights@[k] == old(data).lights@[k]);
    }
    data.num_lights = light_count as u32;
}

} // verus!
