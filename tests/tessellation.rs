use quadsphere::cube::{lattice_sample, CubeFace, CubePoint};
use quadsphere::grid::{generate_face, grid_points, triangle_indices};
use quadsphere::quadsphere::{cube_face, face_specs, generate_faces, FaceSpec};

const ALL_FACES: [CubeFace; 6] = [
    CubeFace::PosX,
    CubeFace::NegX,
    CubeFace::PosY,
    CubeFace::NegY,
    CubeFace::PosZ,
    CubeFace::NegZ,
];

fn pt(x: i64, y: i64, z: i64) -> CubePoint {
    CubePoint { x, y, z }
}

fn dot(a: CubePoint, b: CubePoint) -> i64 {
    a.x * b.x + a.y * b.y + a.z * b.z
}

#[test]
fn normals_are_the_six_axes() {
    assert_eq!(CubeFace::PosX.normal(), pt(1, 0, 0));
    assert_eq!(CubeFace::NegX.normal(), pt(-1, 0, 0));
    assert_eq!(CubeFace::PosY.normal(), pt(0, 1, 0));
    assert_eq!(CubeFace::NegY.normal(), pt(0, -1, 0));
    assert_eq!(CubeFace::PosZ.normal(), pt(0, 0, 1));
    assert_eq!(CubeFace::NegZ.normal(), pt(0, 0, -1));
}

#[test]
fn tangent_axes_permute_and_cross() {
    assert_eq!(CubeFace::PosX.tangent_axes(), (pt(0, 0, 1), pt(0, 1, 0)));
    assert_eq!(CubeFace::NegX.tangent_axes(), (pt(0, 0, -1), pt(0, 1, 0)));
    assert_eq!(CubeFace::PosY.tangent_axes(), (pt(1, 0, 0), pt(0, 0, 1)));
    assert_eq!(CubeFace::NegY.tangent_axes(), (pt(-1, 0, 0), pt(0, 0, 1)));
    assert_eq!(CubeFace::PosZ.tangent_axes(), (pt(0, 1, 0), pt(1, 0, 0)));
    assert_eq!(CubeFace::NegZ.tangent_axes(), (pt(0, -1, 0), pt(1, 0, 0)));
}

#[test]
fn tangent_axes_are_orthogonal_to_normal() {
    for face in ALL_FACES {
        let n = face.normal();
        let (a, b) = face.tangent_axes();
        assert_eq!(dot(n, a), 0);
        assert_eq!(dot(n, b), 0);
        assert_eq!(dot(a, b), 0);
        assert_eq!(dot(a, a), 1);
        assert_eq!(dot(b, b), 1);
    }
}

#[test]
fn lattice_sample_values() {
    // resolution 3: s = 2, point = 2·n + (x - 2·xo)·a + (y - 2·yo)·b
    assert_eq!(lattice_sample(CubeFace::PosX, 3, 0, 0, 0, 0), pt(2, 0, 0));
    assert_eq!(lattice_sample(CubeFace::PosX, 3, 0, 0, 2, 1), pt(2, 1, 2));
    assert_eq!(lattice_sample(CubeFace::PosX, 3, 1, 1, 0, 0), pt(2, -2, -2));
    assert_eq!(lattice_sample(CubeFace::NegZ, 3, 1, 0, 1, 2), pt(2, 1, -2));
}

#[test]
fn grid_of_resolution_two() {
    let g = generate_face(CubeFace::PosX, 2, 0, 0);
    assert_eq!(g.points, vec![pt(1, 0, 0), pt(1, 0, 1), pt(1, 1, 0), pt(1, 1, 1)]);
    assert_eq!(g.indices, vec![0, 2, 3, 0, 3, 1]);
}

#[test]
fn grid_of_resolution_two_upper_quadrant() {
    let g = generate_face(CubeFace::PosY, 2, 1, 1);
    assert_eq!(g.points, vec![pt(-1, 1, -1), pt(0, 1, -1), pt(-1, 1, 0), pt(0, 1, 0)]);
}

#[test]
fn triangle_indices_of_resolution_three() {
    let idx = triangle_indices(3);
    assert_eq!(
        idx,
        vec![
            0, 3, 4, 0, 4, 1, //
            1, 4, 5, 1, 5, 2, //
            3, 6, 7, 3, 7, 4, //
            4, 7, 8, 4, 8, 5,
        ]
    );
}

#[test]
fn face_counts_at_full_resolution() {
    let n: u32 = 100;
    let g = generate_face(CubeFace::NegY, n, 0, 1);
    assert_eq!(g.points.len(), (n * n) as usize);
    assert_eq!(g.indices.len(), (6 * (n - 1) * (n - 1)) as usize);
    assert!(g.indices.iter().all(|&i| i < n * n));
}

#[test]
fn every_sample_lies_on_its_face() {
    let n: u32 = 7;
    let s = (n - 1) as i64;
    for face in ALL_FACES {
        let normal = face.normal();
        let (a, b) = face.tangent_axes();
        for (xo, yo) in [(0, 0), (0, 1), (1, 0), (1, 1)] {
            for p in grid_points(face, n, xo, yo) {
                assert_eq!(dot(normal, p), s);
                assert!(dot(a, p).abs() <= s);
                assert!(dot(b, p).abs() <= s);
                assert_ne!(p, pt(0, 0, 0));
            }
        }
    }
}

#[test]
fn quadrant_seams_coincide() {
    let n: u32 = 5;
    let last = n - 1;
    for face in ALL_FACES {
        for o in 0..2u32 {
            for t in 0..n {
                assert_eq!(
                    lattice_sample(face, n, 0, o, 0, t),
                    lattice_sample(face, n, 1, o, last, t)
                );
                assert_eq!(
                    lattice_sample(face, n, o, 0, t, 0),
                    lattice_sample(face, n, o, 1, t, last)
                );
            }
        }
    }
}

#[test]
fn quadrants_cover_the_whole_face() {
    let n: u32 = 4;
    let s = (n - 1) as i64;
    for face in ALL_FACES {
        let normal = face.normal();
        let (a, b) = face.tangent_axes();
        let mut seen = Vec::new();
        for (xo, yo) in [(0, 0), (0, 1), (1, 0), (1, 1)] {
            seen.extend(generate_face(face, n, xo, yo).points);
        }
        for u in -s..=s {
            for v in -s..=s {
                let want = pt(
                    s * normal.x + u * a.x + v * b.x,
                    s * normal.y + u * a.y + v * b.y,
                    s * normal.z + u * a.z + v * b.z,
                );
                assert!(seen.contains(&want));
            }
        }
    }
}

#[test]
fn cube_face_order() {
    for i in 0..6 {
        assert_eq!(cube_face(i), ALL_FACES[i]);
    }
}

#[test]
fn face_specs_enumerate_faces_then_quadrants() {
    let specs = face_specs(100);
    assert_eq!(specs.len(), 24);
    assert_eq!(
        specs[0],
        FaceSpec { normal: CubeFace::PosX, resolution: 100, x_offset: 0, y_offset: 0 }
    );
    assert_eq!(
        specs[1],
        FaceSpec { normal: CubeFace::PosX, resolution: 100, x_offset: 0, y_offset: 1 }
    );
    assert_eq!(
        specs[2],
        FaceSpec { normal: CubeFace::PosX, resolution: 100, x_offset: 1, y_offset: 0 }
    );
    assert_eq!(
        specs[7],
        FaceSpec { normal: CubeFace::NegX, resolution: 100, x_offset: 1, y_offset: 1 }
    );
    assert_eq!(
        specs[23],
        FaceSpec { normal: CubeFace::NegZ, resolution: 100, x_offset: 1, y_offset: 1 }
    );
}

#[test]
fn generate_faces_follows_face_specs() {
    let n: u32 = 3;
    let grids = generate_faces(n);
    let specs = face_specs(n);
    assert_eq!(grids.len(), 24);
    for (g, sp) in grids.iter().zip(specs.iter()) {
        let single = generate_face(sp.normal, sp.resolution, sp.x_offset, sp.y_offset);
        assert_eq!(g.points, single.points);
        assert_eq!(g.indices, single.indices);
        assert_eq!(g.points.len(), 9);
        assert_eq!(g.indices.len(), 24);
    }
}
