//! The triangulated grid of one face quadrant.

use vstd::prelude::*;
use vstd::arithmetic::div_mod::lemma_fundamental_div_mod_converse;
use crate::cube::{CubeFace, CubePoint, lattice_point, lattice_sample};

verus! {

/// Resolutions for which every vertex index fits in a `u32`.
pub open spec fn valid_resolution(res: int) -> bool {
    2 <= res && res * res <= u32::MAX
}

/// Index of grid vertex `(x, y)`: vertices are stored row by row.
pub open spec fn vertex_index(res: int, x: int, y: int) -> int {
    x + y * res
}

/// The lower-left vertex of cell `c`; the `(res - 1)²` cells are numbered row by row.
pub open spec fn cell_corner(res: int, c: int) -> int {
    vertex_index(res, c % (res - 1), c / (res - 1))
}

/// Entry `k` of the triangle list: cell `k / 6` with corner `i` yields the
/// triangles `(i, i + res, i + res + 1)` and `(i, i + res + 1, i + 1)`.
pub open spec fn triangle_index(res: int, k: int) -> int {
    let i = cell_corner(res, k / 6);
    let j = k % 6;
    if j == 0 || j == 3 {
        i
    } else if j == 1 {
        i + res
    } else if j == 2 || j == 4 {
        i + res + 1
    } else {
        i + 1
    }
}

/// The six triangle-list entries of cell `(cx, cy)`, and their bound.
proof fn lemma_cell_entries(res: int, cx: int, cy: int)
    requires
        2 <= res,
        0 <= cx < res - 1,
        0 <= cy < res - 1,
    ensures
        ({
            let base = 6 * (cy * (res - 1) + cx);
            let i = cx + cy * res;
            &&& triangle_index(res, base) == i
            &&& triangle_index(res, base + 1) == i + res
            &&& triangle_index(res, base + 2) == i + res + 1
            &&& triangle_index(res, base + 3) == i
            &&& triangle_index(res, base + 4) == i + res + 1
            &&& triangle_index(res, base + 5) == i + 1
            &&& 0 <= i
            &&& i + res + 1 < res * res
        }),
{
    let c = cy * (res - 1) + cx;
    assert(0 <= cy * (res - 1) + cx) by (nonlinear_arith)
        requires
            0 <= cy,
            0 <= cx,
            2 <= res,
    ;
    lemma_fundamental_div_mod_converse(c, res - 1, cy, cx);
    lemma_fundamental_div_mod_converse(6 * c, 6, c, 0);
    lemma_fundamental_div_mod_converse(6 * c + 1, 6, c, 1);
    lemma_fundamental_div_mod_converse(6 * c + 2, 6, c, 2);
    lemma_fundamental_div_mod_converse(6 * c + 3, 6, c, 3);
    lemma_fundamental_div_mod_converse(6 * c + 4, 6, c, 4);
    lemma_fundamental_div_mod_converse(6 * c + 5, 6, c, 5);
    assert(cx + cy * res + res + 1 < res * res) by (nonlinear_arith)
        requires
            0 <= cx < res - 1,
            0 <= cy < res - 1,
    ;
    assert(0 <= cx + cy * res) by (nonlinear_arith)
        requires
            0 <= cx,
            0 <= cy,
            0 <= res,
    ;
}

/// The triangle list of a `resolution × resolution` grid: two triangles per
/// cell, `6·(resolution - 1)²` entries, each a valid vertex index.
pub fn triangle_indices(resolution: u32) -> (r: Vec<u32>)
    requires
        valid_resolution(resolution as int),
    ensures
        r@.len() == 6 * (resolution - 1) * (resolution - 1),
        forall|k: int| 0 <= k < r@.len() ==> r@[k] == triangle_index(resolution as int, k),
        forall|k: int| 0 <= k < r@.len() ==> r@[k] < resolution * resolution,
{
    let ghost res = resolution as int;
    let m: u32 = resolution - 1;
    let mut r: Vec<u32> = Vec::new();
    assert(6 * (0 * m) == 0);
    for cy in 0..m
        invariant
            valid_resolution(res),
            res == resolution,
            m == res - 1,
            r@.len() == 6 * (cy * m),
            forall|k: int| 0 <= k < r@.len() ==> r@[k] == triangle_index(res, k),
            forall|k: int| 0 <= k < r@.len() ==> r@[k] < res * res,
    {
        for cx in 0..m
            invariant
                valid_resolution(res),
                res == resolution,
                m == res - 1,
                cy < m,
                r@.len() == 6 * (cy * m + cx),
                forall|k: int| 0 <= k < r@.len() ==> r@[k] == triangle_index(res, k),
                forall|k: int| 0 <= k < r@.len() ==> r@[k] < res * res,
        {
            proof {
                lemma_cell_entries(res, cx as int, cy as int);
            }
            assert(cy * resolution + cx + resolution + 1 < resolution * resolution);
            let i: u32 = cx + cy * resolution;
            let ghost base = r@.len() as int;
            r.push(i);
            r.push(i + resolution);
            r.push(i + resolution + 1);
            r.push(i);
            r.push(i + resolution + 1);
            r.push(i + 1);
            assert(forall|k: int| 0 <= k < r@.len() ==> r@[k] == triangle_index(res, k)) by {
                assert forall|k: int| 0 <= k < r@.len() implies r@[k] == triangle_index(res, k) by {
                    if k >= base {
                        assert(k == base || k == base + 1 || k == base + 2 || k == base + 3 || k
                            == base + 4 || k == base + 5);
                    }
                }
            }
            assert(r@.len() == 6 * (cy * m + cx + 1));
        }
        assert(6 * (cy * m + m) == 6 * ((cy + 1) * m)) by (nonlinear_arith);
    }
    assert(6 * (m * m) == 6 * (resolution - 1) * (resolution - 1)) by (nonlinear_arith)
        requires
            m == resolution - 1,
    ;
    r
}

/// The vertices of a `resolution × resolution` grid on quadrant
/// `(x_offset, y_offset)` of `face`: vertex `x + y·resolution` is sample `(x, y)`.
pub fn grid_points(face: CubeFace, resolution: u32, x_offset: u32, y_offset: u32) -> (r: Vec<
    CubePoint,
>)
    requires
        valid_resolution(resolution as int),
        x_offset <= 1,
        y_offset <= 1,
    ensures
        r@.len() == resolution * resolution,
        forall|i: int|
            0 <= i < r@.len() ==> (#[trigger] r@[i])@ == lattice_point(
                face,
                resolution as int,
                x_offset as int,
                y_offset as int,
                i % resolution as int,
                i / resolution as int,
            ),
{
    let ghost res = resolution as int;
    let mut r: Vec<CubePoint> = Vec::new();
    assert(0 * res == 0);
    for y in 0..resolution
        invariant
            valid_resolution(res),
            res == resolution,
            x_offset <= 1,
            y_offset <= 1,
            r@.len() == y * res,
            forall|i: int|
                0 <= i < r@.len() ==> (#[trigger] r@[i])@ == lattice_point(
                    face,
                    res,
                    x_offset as int,
                    y_offset as int,
                    i % res,
                    i / res,
                ),
    {
        for x in 0..resolution
            invariant
                valid_resolution(res),
                res == resolution,
                x_offset <= 1,
                y_offset <= 1,
                y < res,
                r@.len() == y * res + x,
                forall|i: int|
                    0 <= i < r@.len() ==> (#[trigger] r@[i])@ == lattice_point(
                        face,
                        res,
                        x_offset as int,
                        y_offset as int,
                        i % res,
                        i / res,
                    ),
        {
            proof {
                lemma_fundamental_div_mod_converse(y * res + x, res, y as int, x as int);
            }
            let p = lattice_sample(face, resolution, x_offset, y_offset, x, y);
            r.push(p);
        }
        assert(y * res + res == (y + 1) * res) by (nonlinear_arith);
    }
    r
}

/// The triangulated grid of one face quadrant. Vertex `i` is the lattice
/// sample `points[i]`, which stands for the cube point `points[i] / (resolution - 1)`;
/// `indices` is a triangle list over the vertices.
pub struct FaceGrid {
    pub points: Vec<CubePoint>,
    pub indices: Vec<u32>,
}

/// `g` is the grid of quadrant `(xo, yo)` of face `f` at resolution `res`.
pub open spec fn is_face_grid(g: FaceGrid, f: CubeFace, res: int, xo: int, yo: int) -> bool {
    &&& g.points@.len() == res * res
    &&& forall|i: int|
        0 <= i < g.points@.len() ==> (#[trigger] g.points@[i])@ == lattice_point(
            f,
            res,
            xo,
            yo,
            i % res,
            i / res,
        )
    &&& g.indices@.len() == 6 * (res - 1) * (res - 1)
    &&& forall|k: int| 0 <= k < g.indices@.len() ==> g.indices@[k] == triangle_index(res, k)
}

/// Tessellates quadrant `(x_offset, y_offset)` of the cube face `normal` into a
/// `resolution × resolution` grid of `resolution²` vertices and
/// `2·(resolution - 1)²` triangles, every index naming one of the vertices.
pub fn generate_face(normal: CubeFace, resolution: u32, x_offset: u32, y_offset: u32) -> (r:
    FaceGrid)
    requires
        valid_resolution(resolution as int),
        x_offset <= 1,
        y_offset <= 1,
    ensures
        is_face_grid(r, normal, resolution as int, x_offset as int, y_offset as int),
        forall|k: int| 0 <= k < r.indices@.len() ==> r.indices@[k] < r.points@.len(),
{
    let points = grid_points(normal, resolution, x_offset, y_offset);
    let indices = triangle_indices(resolution);
    FaceGrid { points, indices }
}

} // verus!
