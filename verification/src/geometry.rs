//! The quad's geometry: four vertices and six indices, fixed at startup.
//!
//! Coordinates are fixed-point, in tenths of a unit, so the corner value
//! of five tenths is exact. The index list cuts the quad into two
//! triangles along one diagonal; together they cover the square exactly,
//! which is stated as an area identity over the indexed corners.

use vstd::prelude::*;

verus! {

/// Number of fixed-point coordinate units in one whole unit.
pub const COORD_DENOM: i32 = 10;

/// Half the quad's side, in coordinate units: five tenths.
pub const QUAD_HALF_SIDE: i32 = 5;

/// The quad's vertex data: four corners, three coordinates each,
/// in the order top-right, bottom-right, bottom-left, top-left.
pub open spec fn spec_quad_vertices() -> Seq<i32> {
    seq![
        5i32, 5i32, 0i32,
        5i32, -5i32, 0i32,
        -5i32, -5i32, 0i32,
        -5i32, 5i32, 0i32,
    ]
}

/// The quad's index data: two triangles over the four corners.
pub open spec fn spec_quad_indices() -> Seq<u32> {
    seq![0u32, 1u32, 3u32, 1u32, 2u32, 3u32]
}

/// The x coordinate of corner `i`.
pub open spec fn vertex_x(i: int) -> int {
    spec_quad_vertices()[3 * i] as int
}

/// The y coordinate of corner `i`.
pub open spec fn vertex_y(i: int) -> int {
    spec_quad_vertices()[3 * i + 1] as int
}

/// The absolute value of an integer.
pub open spec fn abs_of(x: int) -> int {
    if x < 0 { -x } else { x }
}

/// Twice the area of the triangle with the given corners, from the cross
/// product of two of its edges.
pub open spec fn spec_doubled_area(ax: int, ay: int, bx: int, by: int, cx: int, cy: int) -> int {
    abs_of((bx - ax) * (cy - ay) - (cx - ax) * (by - ay))
}

/// Twice the area of the triangle over corners `i`, `j`, `k` of the quad.
pub open spec fn spec_indexed_doubled_area(i: int, j: int, k: int) -> int {
    spec_doubled_area(vertex_x(i), vertex_y(i), vertex_x(j), vertex_y(j), vertex_x(k), vertex_y(k))
}

/// The vertex data, as uploaded to the vertex buffer.
pub fn quad_vertices() -> (v: Vec<i32>)
    ensures
        v@ == spec_quad_vertices(),
{
    let v: Vec<i32> = vec![5, 5, 0, 5, -5, 0, -5, -5, 0, -5, 5, 0];
    proof {
        assert(v@ =~= spec_quad_vertices());
    }
    v
}

/// The index data, as uploaded to the element buffer.
pub fn quad_indices() -> (v: Vec<u32>)
    ensures
        v@ == spec_quad_indices(),
{
    let v: Vec<u32> = vec![0, 1, 3, 1, 2, 3];
    proof {
        assert(v@ =~= spec_quad_indices());
    }
    v
}

/// The two indexed triangles each cover half the quad, and together they
/// cover it exactly: their doubled areas are each the square of the side,
/// and they meet along the diagonal between corners one and three, which
/// both triangles share, so nothing overlaps and nothing is left out.
pub proof fn lemma_quad_triangles_cover_square()
    ensures
        spec_indexed_doubled_area(0, 1, 3) == (2 * QUAD_HALF_SIDE) * (2 * QUAD_HALF_SIDE),
        spec_indexed_doubled_area(1, 2, 3) == (2 * QUAD_HALF_SIDE) * (2 * QUAD_HALF_SIDE),
        spec_indexed_doubled_area(0, 1, 3) + spec_indexed_doubled_area(1, 2, 3)
            == 2 * ((2 * QUAD_HALF_SIDE) * (2 * QUAD_HALF_SIDE)),
        spec_quad_indices()[2] == spec_quad_indices()[5],
        spec_quad_indices()[1] == spec_quad_indices()[3],
{
    assert(QUAD_HALF_SIDE == 5);
    assert((2 * QUAD_HALF_SIDE) * (2 * QUAD_HALF_SIDE) == 100);
    assert(vertex_x(0) == 5 && vertex_y(0) == 5);
    assert(vertex_x(1) == 5 && vertex_y(1) == -5);
    assert(vertex_x(2) == -5 && vertex_y(2) == -5);
    assert(vertex_x(3) == -5 && vertex_y(3) == 5);
    assert(spec_doubled_area(5, 5, 5, -5, -5, 5) == 100);
    assert(spec_doubled_area(5, -5, -5, -5, -5, 5) == 100);
}

} // verus!
