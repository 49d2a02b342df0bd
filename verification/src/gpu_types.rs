use vstd::prelude::*;

verus! {

broadcast use vstd::array::group_array_axioms;

/// Bit pattern of the 32-bit float 1.0.  Scalar GPU data travels through
/// this crate as raw IEEE-754 bit patterns: the core copies and lays the
/// values out but never does arithmetic on them.
pub const F32_ONE_BITS: u32 = 0x3F80_0000;

/// Bit pattern of the 32-bit float -1.0.
pub const F32_NEG_ONE_BITS: u32 = 0xBF80_0000;

/// Bit pattern of the 32-bit float 0.5.
pub const F32_HALF_BITS: u32 = 0x3F00_0000;

/// The smaller of two integers.
pub open spec fn min_int(a: int, b: int) -> int {
    if a <= b {
        a
    } else {
        b
    }
}

/// The four little-endian bytes of a 32-bit word.
pub open spec fn u32_le_bytes(w: u32) -> Seq<u8> {
    seq![
        (w & 0xff) as u8,
        ((w >> 8u32) & 0xff) as u8,
        ((w >> 16u32) & 0xff) as u8,
        ((w >> 24u32) & 0xff) as u8,
    ]
}

/// A sequence of 32-bit words laid out as consecutive little-endian bytes.
pub open spec fn le_bytes_of(words: Seq<u32>) -> Seq<u8>
    decreases words.len(),
{
    if words.len() == 0 {
        Seq::empty()
    } else {
        u32_le_bytes(words.first()) + le_bytes_of(words.drop_first())
    }
}

proof fn lemma_le_bytes_of_len(words: Seq<u32>)
    ensures
        le_bytes_of(words).len() == 4 * words.len(),
    decreases words.len(),
{
    if words.len() > 0 {
        lemma_le_bytes_of_len(words.drop_first());
    }
}

proof fn lemma_le_bytes_of_push(words: Seq<u32>, w: u32)
    ensures
        le_bytes_of(words.push(w)) == le_bytes_of(words) + u32_le_bytes(w),
    decreases words.len(),
{
    if words.len() == 0 {
        assert(words.push(w).first() == w);
        assert(words.push(w).drop_first() =~= Seq::<u32>::empty());
        assert(le_bytes_of(Seq::<u32>::empty()) == Seq::<u8>::empty());
        assert(le_bytes_of(words.push(w)) == u32_le_bytes(w) + Seq::<u8>::empty());
        assert(u32_le_bytes(w) + Seq::<u8>::empty() =~= Seq::<u8>::empty() + u32_le_bytes(w));
        assert(le_bytes_of(words) == Seq::<u8>::empty());
    } else {
        assert(words.push(w).first() == words.first());
        assert(words.push(w).drop_first() =~= words.drop_first().push(w));
        lemma_le_bytes_of_push(words.drop_first(), w);
        assert(le_bytes_of(words.push(w)) == u32_le_bytes(words.first()) + (le_bytes_of(
            words.drop_first(),
        ) + u32_le_bytes(w)));
        assert(u32_le_bytes(words.first()) + (le_bytes_of(words.drop_first()) + u32_le_bytes(w))
            =~= (u32_le_bytes(words.first()) + le_bytes_of(words.drop_first())) + u32_le_bytes(w));
    }
}

/// Serialize 32-bit words into the little-endian byte stream that the GPU
/// expects for plain uniform data.
pub fn encode_words(words: &Vec<u32>) -> (r: Vec<u8>)
    ensures
        r@ == le_bytes_of(words@),
        r@.len() == 4 * words@.len(),
{
    let mut out: Vec<u8> = Vec::new();
    let mut i: usize = 0;
    while i < words.len()
        invariant
            i <= words@.len(),
            out@ == le_bytes_of(words@.take(i as int)),
        decreases words@.len() - i,
    {
        let w = words[i];
        out.push((w & 0xff) as u8);
        out.push(((w >> 8u32) & 0xff) as u8);
        out.push(((w >> 16u32) & 0xff) as u8);
        out.push(((w >> 24u32) & 0xff) as u8);
        proof {
            assert(words@.take(i + 1) =~= words@.take(i as int).push(w));
            lemma_le_bytes_of_push(words@.take(i as int), w);
            assert(out@ =~= le_bytes_of(words@.take(i as int)) + u32_le_bytes(w));
        }
        i = i + 1;
    }
    proof {
        assert(words@.take(words@.len() as int) =~= words@);
        lemma_le_bytes_of_len(words@);
    }
    out
}

/// The sixteen words of a 4x4 matrix, rows in order.
pub open spec fn mat4_words(m: [[u32; 4]; 4]) -> Seq<u32> {
    seq![
        m@[0]@[0], m@[0]@[1], m@[0]@[2], m@[0]@[3],
        m@[1]@[0], m@[1]@[1], m@[1]@[2], m@[1]@[3],
        m@[2]@[0], m@[2]@[1], m@[2]@[2], m@[2]@[3],
        m@[3]@[0], m@[3]@[1], m@[3]@[2], m@[3]@[3],
    ]
}

/// Append the sixteen words of `m` to `words`.
pub fn push_mat4_words(words: &mut Vec<u32>, m: &[[u32; 4]; 4])
    ensures
        final(words)@ == old(words)@ + mat4_words(*m),
{
    let mut r: usize = 0;
    while r < 4
        invariant
            r <= 4,
            words@ == old(words)@ + mat4_words(*m).take(4 * r as int),
        decreases 4 - r,
    {
        words.push(m[r][0]);
        words.push(m[r][1]);
        words.push(m[r][2]);
        words.push(m[r][3]);
        proof {
            assert(words@ =~= old(words)@ + mat4_words(*m).take(4 * (r + 1) as int));
        }
        r = r + 1;
    }
    proof {
        assert(mat4_words(*m).take(16) =~= mat4_words(*m));
    }
}

/// Per-frame camera data: the view-projection matrix, written verbatim into
/// the camera uniform buffer (the content is not interpreted here).
#[derive(Debug, Clone, Copy, PartialEq)]
pub struct CameraUniform {
    pub view_proj_matrix: [[u32; 4]; 4],
}

/// The words of the camera uniform in buffer layout order.
pub open spec fn camera_uniform_words(c: CameraUniform) -> Seq<u32> {
    mat4_words(c.view_proj_matrix)
}

impl CameraUniform {
    /// The identity matrix, the camera value before the first sync.
    pub fn new() -> (r: Self)
        ensures
            r.view_proj_matrix@[0]@ == seq![F32_ONE_BITS, 0u32, 0u32, 0u32],
            r.view_proj_matrix@[1]@ == seq![0u32, F32_ONE_BITS, 0u32, 0u32],
            r.view_proj_matrix@[2]@ == seq![0u32, 0u32, F32_ONE_BITS, 0u32],
            r.view_proj_matrix@[3]@ == seq![0u32, 0u32, 0u32, F32_ONE_BITS],
    {
        let m: [[u32; 4]; 4] = [
            [F32_ONE_BITS, 0u32, 0u32, 0u32],
            [0u32, F32_ONE_BITS, 0u32, 0u32],
            [0u32, 0u32, F32_ONE_BITS, 0u32],
            [0u32, 0u32, 0u32, F32_ONE_BITS],
        ];
        let r = CameraUniform { view_proj_matrix: m };
        proof {
            assert(r.view_proj_matrix@[0]@ =~= seq![F32_ONE_BITS, 0u32, 0u32, 0u32]);
            assert(r.view_proj_matrix@[1]@ =~= seq![0u32, F32_ONE_BITS, 0u32, 0u32]);
            assert(r.view_proj_matrix@[2]@ =~= seq![0u32, 0u32, F32_ONE_BITS, 0u32]);
            assert(r.view_proj_matrix@[3]@ =~= seq![0u32, 0u32, 0u32, F32_ONE_BITS]);
        }
        r
    }
}

/// Serialize the camera uniform; 64 bytes.
pub fn camera_uniform_bytes(c: &CameraUniform) -> (r: Vec<u8>)
    ensures
        r@ == le_bytes_of(camera_uniform_words(*c)),
        r@.len() == 64,
{
    let mut words: Vec<u32> = Vec::new();
    push_mat4_words(&mut words, &c.view_proj_matrix);
    proof {
        assert(words@ =~= camera_uniform_words(*c));
    }
    encode_words(&words)
}

/// One camera-sync pass: copy the primary camera's view-projection matrix
/// verbatim into the camera uniform bridge.  The matrix content is not
/// validated here: garbage in, garbage out.
pub fn sync_camera_uniform(view_proj: &[[u32; 4]; 4], bridge: &mut CameraUniform)
    ensures
        final(bridge).view_proj_matrix == *view_proj,
{
    bridge.view_proj_matrix = *view_proj;
}

/// One packed point/spot light record of the global light uniform; sixteen
/// words, 64 bytes.  `light_type` is 0 for a point light and 1 for a spot
/// light; `cutoff` holds the cosine of the spot's half-angle.
#[derive(Debug, Clone, Copy, PartialEq)]
pub struct LightInstanceUniform {
    pub position: [u32; 3],
    pub light_type: u32,
    pub color: [u32; 3],
    pub intensity: u32,
    pub direction: [u32; 3],
    pub range: u32,
    pub cutoff: u32,
    pub _padding: [u32; 3],
}

/// Every word of the packed light record is zero.
pub open spec fn is_zeroed_light(l: LightInstanceUniform) -> bool {
    &&& l.position@ == seq![0u32, 0u32, 0u32]
    &&& l.light_type == 0
    &&& l.color@ == seq![0u32, 0u32, 0u32]
    &&& l.intensity == 0
    &&& l.direction@ == seq![0u32, 0u32, 0u32]
    &&& l.range == 0
    &&& l.cutoff == 0
    &&& l._padding@ == seq![0u32, 0u32, 0u32]
}

impl LightInstanceUniform {
    /// The all-zero record used for slots beyond the live light count.
    pub fn zeroed() -> (r: Self)
        ensures
            is_zeroed_light(r),
    {
        let z: [u32; 3] = [0u32, 0u32, 0u32];
        let r = LightInstanceUniform {
            position: z,
            light_type: 0,
            color: z,
            intensity: 0,
            direction: z,
            range: 0,
            cutoff: 0,
            _padding: z,
        };
        proof {
            assert(z@ =~= seq![0u32, 0u32, 0u32]);
        }
        r
    }
}

/// The sixteen words of one packed light record in buffer layout order.
pub open spec fn light_instance_words(l: LightInstanceUniform) -> Seq<u32> {
    seq![
        l.position@[0], l.position@[1], l.position@[2], l.light_type,
        l.color@[0], l.color@[1], l.color@[2], l.intensity,
        l.direction@[0], l.direction@[1], l.direction@[2], l.range,
        l.cutoff, l._padding@[0], l._padding@[1], l._padding@[2],
    ]
}

/// Append the sixteen words of `l` to `words`.
pub fn push_light_instance_words(words: &mut Vec<u32>, l: &LightInstanceUniform)
    ensures
        final(words)@ == old(words)@ + light_instance_words(*l),
{
    words.push(l.position[0]);
    words.push(l.position[1]);
    words.push(l.position[2]);
    words.push(l.light_type);
    words.push(l.color[0]);
    words.push(l.color[1]);
    words.push(l.color[2]);
    words.push(l.intensity);
    words.push(l.direction[0]);
    words.push(l.direction[1]);
    words.push(l.direction[2]);
    words.push(l.range);
    words.push(l.cutoff);
    words.push(l._padding[0]);
    words.push(l._padding[1]);
    words.push(l._padding[2]);
    proof {
        assert(words@ =~= old(words)@ + light_instance_words(*l));
    }
}

/// How many point/spot light slots the global light uniform holds; lights
/// beyond this are dropped in entity-iteration order.
pub const MAX_LIGHTS: usize = 16;

/// Global light data for one frame: ambient color, one directional sun
/// light, and a fixed-capacity array of point/spot lights of which the first
/// `num_lights` entries are live (the rest are don't-care).
#[derive(Debug, Clone, Copy, PartialEq)]
pub struct GlobalLightDataUniform {
    pub ambient_color: [u32; 4],
    pub sun_direction: [u32; 4],
    pub sun_color: [u32; 4],
    pub num_lights: u32,
    pub _padding: [u32; 3],
    pub lights: [LightInstanceUniform; 16],
}

/// The words of the light array, record after record.
pub open spec fn light_array_words(ls: Seq<LightInstanceUniform>) -> Seq<u32>
    decreases ls.len(),
{
    if ls.len() == 0 {
        Seq::empty()
    } else {
        light_instance_words(ls.first()) + light_array_words(ls.drop_first())
    }
}

proof fn lemma_light_array_words_push(ls: Seq<LightInstanceUniform>, l: LightInstanceUniform)
    ensures
        light_array_words(ls.push(l)) == light_array_words(ls) + light_instance_words(l),
    decreases ls.len(),
{
    if ls.len() == 0 {
        assert(ls.push(l).first() == l);
        assert(ls.push(l).drop_first() =~= Seq::<LightInstanceUniform>::empty());
        assert(light_array_words(Seq::<LightInstanceUniform>::empty()) == Seq::<u32>::empty());
        assert(light_array_words(ls.push(l)) == light_instance_words(l) + Seq::<u32>::empty());
        assert(light_instance_words(l) + Seq::<u32>::empty() =~= Seq::<u32>::empty()
            + light_instance_words(l));
        assert(light_array_words(ls) == Seq::<u32>::empty());
    } else {
        assert(ls.push(l).first() == ls.first());
        assert(ls.push(l).drop_first() =~= ls.drop_first().push(l));
        lemma_light_array_words_push(ls.drop_first(), l);
        assert(light_array_words(ls.push(l)) == light_instance_words(ls.first()) + (
        light_array_words(ls.drop_first()) + light_instance_words(l)));
        assert(light_instance_words(ls.first()) + (light_array_words(ls.drop_first())
            + light_instance_words(l)) =~= (light_instance_words(ls.first()) + light_array_words(
            ls.drop_first(),
        )) + light_instance_words(l));
    }
}

proof fn lemma_light_array_words_len(ls: Seq<LightInstanceUniform>)
    ensures
        light_array_words(ls).len() == 16 * ls.len(),
    decreases ls.len(),
{
    if ls.len() > 0 {
        lemma_light_array_words_len(ls.drop_first());
    }
}

/// The 272 words of the global light uniform in buffer layout order.
pub open spec fn global_light_words(u: GlobalLightDataUniform) -> Seq<u32> {
    seq![
        u.ambient_color@[0], u.ambient_color@[1], u.ambient_color@[2], u.ambient_color@[3],
        u.sun_direction@[0], u.sun_direction@[1], u.sun_direction@[2], u.sun_direction@[3],
        u.sun_color@[0], u.sun_color@[1], u.sun_color@[2], u.sun_color@[3],
        u.num_lights, u._padding@[0], u._padding@[1], u._padding@[2],
    ] + light_array_words(u.lights@)
}

impl GlobalLightDataUniform {
    /// White ambient light, a sun pointing straight down with black color,
    /// and no live point/spot lights.
    pub fn new() -> (r: Self)
        ensures
            r.ambient_color@ == seq![F32_ONE_BITS, F32_ONE_BITS, F32_ONE_BITS, F32_ONE_BITS],
            r.sun_direction@ == seq![0u32, F32_NEG_ONE_BITS, 0u32, 0u32],
            r.sun_color@ == seq![0u32, 0u32, 0u32, 0u32],
            r.num_lights == 0,
            r._padding@ == seq![0u32, 0u32, 0u32],
            forall|i: int| 0 <= i < 16 ==> is_zeroed_light(#[trigger] r.lights@[i]),
    {
        let ambient: [u32; 4] = [F32_ONE_BITS, F32_ONE_BITS, F32_ONE_BITS, F32_ONE_BITS];
        let sun_direction: [u32; 4] = [0u32, F32_NEG_ONE_BITS, 0u32, 0u32];
        let sun_color: [u32; 4] = [0u32, 0u32, 0u32, 0u32];
        let pad: [u32; 3] = [0u32, 0u32, 0u32];
        let lights: [LightInstanceUniform; 16] = [LightInstanceUniform::zeroed(); 16];
        let r = GlobalLightDataUniform {
            ambient_color: ambient,
            sun_direction,
            sun_color,
            num_lights: 0,
            _padding: pad,
            lights,
        };
        proof {
            assert(r.ambient_color@ =~= seq![F32_ONE_BITS, F32_ONE_BITS, F32_ONE_BITS, F32_ONE_BITS]);
            assert(r.sun_direction@ =~= seq![0u32, F32_NEG_ONE_BITS, 0u32, 0u32]);
            assert(r.sun_color@ =~= seq![0u32, 0u32, 0u32, 0u32]);
            assert(r._padding@ =~= seq![0u32, 0u32, 0u32]);
        }
        r
    }
}

impl Default for GlobalLightDataUniform {
    fn default() -> (r: Self)
        ensures
            r.ambient_color@ == seq![F32_ONE_BITS, F32_ONE_BITS, F32_ONE_BITS, F32_ONE_BITS],
            r.sun_direction@ == seq![0u32, F32_NEG_ONE_BITS, 0u32, 0u32],
            r.sun_color@ == seq![0u32, 0u32, 0u32, 0u32],
            r.num_lights == 0,
    {
        GlobalLightDataUniform::new()
    }
}

/// Serialize the global light uniform; 1088 bytes.
pub fn lights_uniform_bytes(u: &GlobalLightDataUniform) -> (r: Vec<u8>)
    ensures
        r@ == le_bytes_of(global_light_words(*u)),
        r@.len() == 1088,
{
    let mut words: Vec<u32> = Vec::new();
    words.push(u.ambient_color[0]);
    words.push(u.ambient_color[1]);
    words.push(u.ambient_color[2]);
    words.push(u.ambient_color[3]);
    words.push(u.sun_direction[0]);
    words.push(u.sun_direction[1]);
    words.push(u.sun_direction[2]);
    words.push(u.sun_direction[3]);
    words.push(u.sun_color[0]);
    words.push(u.sun_color[1]);
    words.push(u.sun_color[2]);
    words.push(u.sun_color[3]);
    words.push(u.num_lights);
    words.push(u._padding[0]);
    words.push(u._padding[1]);
    words.push(u._padding[2]);
    let ghost header = words@;
    let mut i: usize = 0;
    while i < 16
        invariant
            i <= 16,
            u.lights@.len() == 16,
            header.len() == 16,
            words@ == header + light_array_words(u.lights@.take(i as int)),
        decreases 16 - i,
    {
        push_light_instance_words(&mut words, &u.lights[i]);
        proof {
            assert(u.lights@.take(i + 1) =~= u.lights@.take(i as int).push(u.lights@[i as int]));
            lemma_light_array_words_push(u.lights@.take(i as int), u.lights@[i as int]);
            assert(words@ =~= header + light_array_words(u.lights@.take(i + 1)));
        }
        i = i + 1;
    }
    proof {
        assert(u.lights@.take(16) =~= u.lights@);
        assert(header + light_array_words(u.lights@) =~= global_light_words(*u));
        lemma_light_array_words_len(u.lights@);
    }
    encode_words(&words)
}

/// One per-drawable model matrix, written into the model storage buffer at
/// the drawable's draw-order index.
#[derive(Debug, Clone, Copy, PartialEq)]
pub struct ModelMatrixUniform {
    pub model: [[u32; 4]; 4],
}

/// The words of a sequence of model matrices, matrix after matrix.
pub open spec fn model_matrix_words(ms: Seq<ModelMatrixUniform>) -> Seq<u32>
    decreases ms.len(),
{
    if ms.len() == 0 {
        Seq::empty()
    } else {
        mat4_words(ms.first().model) + model_matrix_words(ms.drop_first())
    }
}

proof fn lemma_model_matrix_words_push(ms: Seq<ModelMatrixUniform>, m: ModelMatrixUniform)
    ensures
        model_matrix_words(ms.push(m)) == model_matrix_words(ms) + mat4_words(m.model),
    decreases ms.len(),
{
    if ms.len() == 0 {
        assert(ms.push(m).first() == m);
        assert(ms.push(m).drop_first() =~= Seq::<ModelMatrixUniform>::empty());
        assert(model_matrix_words(Seq::<ModelMatrixUniform>::empty()) == Seq::<u32>::empty());
        assert(model_matrix_words(ms.push(m)) == mat4_words(m.model) + Seq::<u32>::empty());
        assert(mat4_words(m.model) + Seq::<u32>::empty() =~= Seq::<u32>::empty() + mat4_words(
            m.model,
        ));
        assert(model_matrix_words(ms) == Seq::<u32>::empty());
    } else {
        assert(ms.push(m).first() == ms.first());
        assert(ms.push(m).drop_first() =~= ms.drop_first().push(m));
        lemma_model_matrix_words_push(ms.drop_first(), m);
        assert(model_matrix_words(ms.push(m)) == mat4_words(ms.first().model) + (
        model_matrix_words(ms.drop_first()) + mat4_words(m.model)));
        assert(mat4_words(ms.first().model) + (model_matrix_words(ms.drop_first()) + mat4_words(
            m.model,
        )) =~= (mat4_words(ms.first().model) + model_matrix_words(ms.drop_first())) + mat4_words(
            m.model,
        ));
    }
}

/// Serialize the first `count` model matrices; 64 bytes each.
pub fn model_matrices_bytes(ms: &Vec<ModelMatrixUniform>, count: usize) -> (r: Vec<u8>)
    requires
        count <= ms@.len(),
    ensures
        r@ == le_bytes_of(model_matrix_words(ms@.take(count as int))),
{
    let mut words: Vec<u32> = Vec::new();
    let mut i: usize = 0;
    while i < count
        invariant
            i <= count,
            count <= ms@.len(),
            words@ == model_matrix_words(ms@.take(i as int)),
        decreases count - i,
    {
        push_mat4_words(&mut words, &ms[i].model);
        proof {
            assert(ms@.take(i + 1) =~= ms@.take(i as int).push(ms@[i as int]));
            lemma_model_matrix_words_push(ms@.take(i as int), ms@[i as int]);
        }
        i = i + 1;
    }
    encode_words(&words)
}

/// Per-material shading parameters, padded to the 16-byte uniform
/// alignment; scalars are IEEE-754 bit patterns.
#[derive(Debug, Clone, Copy, PartialEq)]
pub struct MaterialUniform {
    pub roughness: u32,
    pub metallic: u32,
    pub _padding: [u32; 2],
}

/// The four words of the material uniform in buffer layout order.
pub open spec fn material_uniform_words(m: MaterialUniform) -> Seq<u32> {
    seq![m.roughness, m.metallic, m._padding@[0], m._padding@[1]]
}

impl MaterialUniform {
    /// A material uniform with the given parameters and zeroed padding.
    pub fn new(roughness: u32, metallic: u32) -> (r: Self)
        ensures
            r.roughness == roughness,
            r.metallic == metallic,
            r._padding@ == seq![0u32, 0u32],
    {
        let pad: [u32; 2] = [0u32, 0u32];
        let r = MaterialUniform { roughness, metallic, _padding: pad };
        proof {
            assert(r._padding@ =~= seq![0u32, 0u32]);
        }
        r
    }
}

/// Serialize the material uniform; 16 bytes.
pub fn material_uniform_bytes(m: &MaterialUniform) -> (r: Vec<u8>)
    ensures
        r@ == le_bytes_of(material_uniform_words(*m)),
        r@.len() == 16,
{
    let mut words: Vec<u32> = Vec::new();
    words.push(m.roughness);
    words.push(m.metallic);
    words.push(m._padding[0]);
    words.push(m._padding[1]);
    proof {
        assert(words@ =~= material_uniform_words(*m));
    }
    encode_words(&words)
}

} // verus!
