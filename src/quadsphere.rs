//! The whole quadsphere: every face of the cube, each cut into four quadrants.

use vstd::prelude::*;
use vstd::arithmetic::div_mod::lemma_fundamental_div_mod_converse;
use crate::cube::CubeFace;
use crate::grid::{FaceGrid, generate_face, is_face_grid, valid_resolution};

verus! {

/// Number of cube faces.
pub const FACE_COUNT: usize = 6;

/// Number of quadrants each face is cut into.
pub const QUADRANT_COUNT: usize = 4;

/// What to tessellate: quadrant `(x_offset, y_offset)` of face `normal`.
#[derive(Clone, Copy, Debug, PartialEq, Eq, Structural)]
pub struct FaceSpec {
    pub normal: CubeFace,
    pub resolution: u32,
    pub x_offset: u32,
    pub y_offset: u32,
}

/// The faces in the order they are generated: +X, -X, +Y, -Y, +Z, -Z.
pub open spec fn face_at(i: int) -> CubeFace {
    if i == 0 {
        CubeFace::PosX
    } else if i == 1 {
        CubeFace::NegX
    } else if i == 2 {
        CubeFace::PosY
    } else if i == 3 {
        CubeFace::NegY
    } else if i == 4 {
        CubeFace::PosZ
    } else {
        CubeFace::NegZ
    }
}

/// The quadrant offsets in the order they are generated: (0,0), (0,1), (1,0), (1,1).
pub open spec fn quadrant_at(j: int) -> (int, int) {
    (j / 2, j % 2)
}

/// Entry `k` of the enumeration: face `k / 4`, quadrant `k % 4`.
pub open spec fn spec_at(resolution: u32, k: int) -> FaceSpec {
    FaceSpec {
        normal: face_at(k / 4),
        resolution,
        x_offset: quadrant_at(k % 4).0 as u32,
        y_offset: quadrant_at(k % 4).1 as u32,
    }
}

/// Face `i` of the enumeration order.
pub fn cube_face(i: usize) -> (r: CubeFace)
    requires
        i < FACE_COUNT,
    ensures
        r == face_at(i as int),
{
    if i == 0 {
        CubeFace::PosX
    } else if i == 1 {
        CubeFace::NegX
    } else if i == 2 {
        CubeFace::PosY
    } else if i == 3 {
        CubeFace::NegY
    } else if i == 4 {
        CubeFace::PosZ
    } else {
        CubeFace::NegZ
    }
}

/// The 24 quadrants of the quadsphere, face by face, all at `resolution`.
pub fn face_specs(resolution: u32) -> (r: Vec<FaceSpec>)
    ensures
        r@.len() == FACE_COUNT * QUADRANT_COUNT,
        forall|k: int| 0 <= k < r@.len() ==> #[trigger] r@[k] == spec_at(resolution, k),
{
    let mut r: Vec<FaceSpec> = Vec::new();
    for i in 0..FACE_COUNT
        invariant
            r@.len() == 4 * i,
            forall|k: int| 0 <= k < r@.len() ==> #[trigger] r@[k] == spec_at(resolution, k),
    {
        let normal = cube_face(i);
        for j in 0..QUADRANT_COUNT
            invariant
                i < FACE_COUNT,
                normal == face_at(i as int),
                r@.len() == 4 * i + j,
                forall|k: int| 0 <= k < r@.len() ==> #[trigger] r@[k] == spec_at(resolution, k),
        {
            proof {
                lemma_fundamental_div_mod_converse(4 * i + j, 4, i as int, j as int);
            }
            let x_offset: u32 = (j / 2) as u32;
            let y_offset: u32 = (j % 2) as u32;
            r.push(FaceSpec { normal, resolution, x_offset, y_offset });
        }
    }
    r
}

/// Tessellates all 24 quadrants of the quadsphere, in the order of `face_specs`.
pub fn generate_faces(resolution: u32) -> (r: Vec<FaceGrid>)
    requires
        valid_resolution(resolution as int),
    ensures
        r@.len() == FACE_COUNT * QUADRANT_COUNT,
        forall|k: int|
            0 <= k < r@.len() ==> is_face_grid(
                #[trigger] r@[k],
                face_at(k / 4),
                resolution as int,
                quadrant_at(k % 4).0,
                quadrant_at(k % 4).1,
            ),
{
    let specs = face_specs(resolution);
    let mut r: Vec<FaceGrid> = Vec::new();
    for k in 0..specs.len()
        invariant
            valid_resolution(resolution as int),
            specs@.len() == FACE_COUNT * QUADRANT_COUNT,
            forall|t: int| 0 <= t < specs@.len() ==> #[trigger] specs@[t] == spec_at(resolution, t),
            r@.len() == k,
            forall|t: int|
                0 <= t < r@.len() ==> is_face_grid(
                    #[trigger] r@[t],
                    face_at(t / 4),
                    resolution as int,
                    quadrant_at(t % 4).0,
                    quadrant_at(t % 4).1,
                ),
    {
        let sp = specs[k];
        assert(sp == spec_at(resolution, k as int));
        r.push(generate_face(sp.normal, sp.resolution, sp.x_offset, sp.y_offset));
    }
    r
}

} // verus!
