use vstd::prelude::*;

verus! {

/// Vertices of the built-in cube mesh: four per face, six faces.
pub const CUBE_VERTEX_COUNT: u32 = 24;

/// Indices of the built-in cube mesh: two triangles per face, six faces.
pub const CUBE_INDEX_COUNT: u32 = 36;

/// The index buffer of the built-in cube: per face the two triangles
/// (0,1,2) and (2,3,0) over that face's four vertices, wound
/// counter-clockwise as seen from outside.
pub open spec fn cube_indices_spec() -> Seq<u32> {
    seq![
        0u32, 1u32, 2u32, 2u32, 3u32, 0u32,
        4u32, 5u32, 6u32, 6u32, 7u32, 4u32,
        8u32, 9u32, 10u32, 10u32, 11u32, 8u32,
        12u32, 13u32, 14u32, 14u32, 15u32, 12u32,
        16u32, 17u32, 18u32, 18u32, 19u32, 16u32,
        20u32, 21u32, 22u32, 22u32, 23u32, 20u32,
    ]
}

/// The index buffer of the built-in cube mesh; every index addresses one of
/// its 24 vertices.
pub fn cube_indices() -> (r: Vec<u32>)
    ensures
        r@ == cube_indices_spec(),
        r@.len() == 36,
        forall|k: int| 0 <= k < r@.len() ==> r@[k] < 24,
{
    let mut indices: Vec<u32> = Vec::new();
    indices.push(0); indices.push(1); indices.push(2);
    indices.push(2); indices.push(3); indices.push(0);
    indices.push(4); indices.push(5); indices.push(6);
    indices.push(6); indices.push(7); indices.push(4);
    indices.push(8); indices.push(9); indices.push(10);
    indices.push(10); indices.push(11); indices.push(8);
    indices.push(12); indices.push(13); indices.push(14);
    indices.push(14); indices.push(15); indices.push(12);
    indices.push(16); indices.push(17); indices.push(18);
    indices.push(18); indices.push(19); indices.push(16);
    indices.push(20); indices.push(21); indices.push(22);
    indices.push(22); indices.push(23); indices.push(20);
    proof {
        assert(indices@ =~= cube_indices_spec());
    }
    indices
}

/// The six indices of the sphere quad at latitude band `la`, longitude band
/// `lo` stand at positions `6 * (la * lon_bands + lo)` onward and stitch the
/// vertex ring `la` to ring `la + 1`.
pub open spec fn sphere_quad_ok(s: Seq<u32>, lon_bands: int, la: int, lo: int) -> bool {
    let base = 6 * (la * lon_bands + lo);
    let first = la * (lon_bands + 1) + lo;
    let second = first + lon_bands + 1;
    &&& s[base] as int == first
    &&& s[base + 1] as int == first + 1
    &&& s[base + 2] as int == second
    &&& s[base + 3] as int == first + 1
    &&& s[base + 4] as int == second + 1
    &&& s[base + 5] as int == second
}

/// The index buffer of a UV sphere with `lat_bands` latitude bands and
/// `lon_bands` longitude bands over its `(lat_bands + 1) * (lon_bands + 1)`
/// vertex grid: two triangles per quad, and every index in range.
pub fn sphere_indices(lat_bands: u32, lon_bands: u32) -> (r: Vec<u32>)
    requires
        1 <= lat_bands,
        1 <= lon_bands,
        (lat_bands as int + 1) * (lon_bands as int + 1) <= u32::MAX as int,
        6 * ((lat_bands as int) * (lon_bands as int)) <= u32::MAX as int,
    ensures
        r@.len() == 6 * ((lat_bands as int) * (lon_bands as int)),
        forall|la: int, lo: int|
            0 <= la < lat_bands && 0 <= lo < lon_bands ==> sphere_quad_ok(
                r@,
                lon_bands as int,
                la,
                lo,
            ),
        forall|k: int|
            0 <= k < r@.len() ==> (r@[k] as int) < (lat_bands as int + 1) * (lon_bands as int
                + 1),
{
    let ghost lat = lat_bands as int;
    let ghost lon = lon_bands as int;
    let ghost vertex_count = (lat + 1) * (lon + 1);
    let mut indices: Vec<u32> = Vec::new();
    let mut la: u32 = 0;
    while la < lat_bands
        invariant
            1 <= lat_bands,
            1 <= lon_bands,
            lat == lat_bands as int,
            lon == lon_bands as int,
            vertex_count == (lat + 1) * (lon + 1),
            vertex_count <= u32::MAX as int,
            6 * (lat * lon) <= u32::MAX as int,
            la <= lat_bands,
            indices@.len() == 6 * ((la as int) * lon),
            forall|a: int, b: int|
                0 <= a < la && 0 <= b < lon ==> sphere_quad_ok(indices@, lon, a, b),
            forall|k: int| 0 <= k < indices@.len() ==> (indices@[k] as int) < vertex_count,
        decreases lat_bands - la,
    {
        let mut lo: u32 = 0;
        while lo < lon_bands
            invariant
                1 <= lat_bands,
                1 <= lon_bands,
                lat == lat_bands as int,
                lon == lon_bands as int,
                vertex_count == (lat + 1) * (lon + 1),
                vertex_count <= u32::MAX as int,
                6 * (lat * lon) <= u32::MAX as int,
                la < lat_bands,
                lo <= lon_bands,
                indices@.len() == 6 * ((la as int) * lon) + 6 * (lo as int),
                forall|a: int, b: int|
                    0 <= a < la && 0 <= b < lon ==> sphere_quad_ok(indices@, lon, a, b),
                forall|b: int| 0 <= b < lo ==> sphere_quad_ok(indices@, lon, la as int, b),
                forall|k: int| 0 <= k < indices@.len() ==> (indices@[k] as int) < vertex_count,
            decreases lon_bands - lo,
        {
            proof {
                assert(lon + 1 <= u32::MAX as int) by (nonlinear_arith)
                    requires
                        1 <= lat,
                        1 <= lon,
                        (lat + 1) * (lon + 1) <= u32::MAX as int,
                ;
                assert((la as int) * (lon + 1) + (lo as int) + lon + 2 <= vertex_count - 1)
                    by (nonlinear_arith)
                    requires
                        0 <= la as int,
                        (la as int) < lat,
                        0 <= lo as int,
                        (lo as int) < lon,
                        1 <= lon,
                        vertex_count == (lat + 1) * (lon + 1),
                ;
                assert(6 * ((la as int) * lon) + 6 * (lo as int) + 6 <= 6 * (lat * lon))
                    by (nonlinear_arith)
                    requires
                        0 <= la as int,
                        (la as int) < lat,
                        0 <= lo as int,
                        (lo as int) < lon,
                ;
            }
            let first = la * (lon_bands + 1) + lo;
            let second = first + lon_bands + 1;
            let ghost before = indices@;
            indices.push(first);
            indices.push(first + 1);
            indices.push(second);
            indices.push(first + 1);
            indices.push(second + 1);
            indices.push(second);
            proof {
                let base = 6 * ((la as int) * lon + lo as int);
                assert(base == before.len());
                assert(sphere_quad_ok(indices@, lon, la as int, lo as int));
                assert forall|a: int, b: int| 0 <= a < la && 0 <= b < lon implies sphere_quad_ok(
                    indices@,
                    lon,
                    a,
                    b,
                ) by {
                    assert(6 * (a * lon + b) + 6 <= base) by (nonlinear_arith)
                        requires
                            0 <= a < la as int,
                            0 <= b < lon,
                            0 <= lo as int,
                            base == 6 * ((la as int) * lon + lo as int),
                    ;
                    assert(sphere_quad_ok(before, lon, a, b));
                }
                assert forall|b: int| 0 <= b < lo + 1 implies sphere_quad_ok(
                    indices@,
                    lon,
                    la as int,
                    b,
                ) by {
                    if b < lo {
                        assert(6 * ((la as int) * lon + b) + 6 <= base);
                        assert(sphere_quad_ok(before, lon, la as int, b));
                    }
                }
            }
            lo = lo + 1;
        }
        la = la + 1;
        proof {
            assert(6 * (((la - 1) as int) * lon) + 6 * lon == 6 * ((la as int) * lon))
                by (nonlinear_arith)
                requires
                    1 <= la as int,
            ;
        }
    }
    indices
}

} // verus!
