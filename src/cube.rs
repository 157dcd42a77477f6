//! Cube faces, their tangent axes, and the integer lattice a face is sampled on.

use vstd::prelude::*;

verus! {

/// A point with integer coordinates.
#[derive(Clone, Copy, Debug, PartialEq, Eq, Structural)]
pub struct CubePoint {
    pub x: i64,
    pub y: i64,
    pub z: i64,
}

impl View for CubePoint {
    type V = (int, int, int);

    open spec fn view(&self) -> (int, int, int) {
        (self.x as int, self.y as int, self.z as int)
    }
}

pub open spec fn add3(a: (int, int, int), b: (int, int, int)) -> (int, int, int) {
    (a.0 + b.0, a.1 + b.1, a.2 + b.2)
}

pub open spec fn scale3(k: int, a: (int, int, int)) -> (int, int, int) {
    (k * a.0, k * a.1, k * a.2)
}

pub open spec fn dot3(a: (int, int, int), b: (int, int, int)) -> int {
    a.0 * b.0 + a.1 * b.1 + a.2 * b.2
}

pub open spec fn cross3(a: (int, int, int), b: (int, int, int)) -> (int, int, int) {
    (a.1 * b.2 - a.2 * b.1, a.2 * b.0 - a.0 * b.2, a.0 * b.1 - a.1 * b.0)
}

/// One of the six faces of the cube, named by its outward axis.
#[derive(Clone, Copy, Debug, PartialEq, Eq, Structural)]
pub enum CubeFace {
    PosX,
    NegX,
    PosY,
    NegY,
    PosZ,
    NegZ,
}

/// The outward unit normal of a face.
pub open spec fn face_normal(f: CubeFace) -> (int, int, int) {
    match f {
        CubeFace::PosX => (1, 0, 0),
        CubeFace::NegX => (-1, 0, 0),
        CubeFace::PosY => (0, 1, 0),
        CubeFace::NegY => (0, -1, 0),
        CubeFace::PosZ => (0, 0, 1),
        CubeFace::NegZ => (0, 0, -1),
    }
}

/// The horizontal axis of a face: the normal's components taken as (y, z, x).
/// This permutation spans the face only because the normal is a coordinate axis.
pub open spec fn axis_a(n: (int, int, int)) -> (int, int, int) {
    (n.1, n.2, n.0)
}

/// The vertical axis of a face: `axis_a × normal`.
pub open spec fn axis_b(n: (int, int, int)) -> (int, int, int) {
    cross3(axis_a(n), n)
}

/// Sample `(x, y)` of a `res × res` grid on quadrant `(xo, yo)` of face `f`,
/// multiplied by `res - 1`: with `s = res - 1` the point on the cube is
/// `normal + (x/s - xo)·axis_a + (y/s - yo)·axis_b`, and this is `s` times it.
pub open spec fn lattice_point(f: CubeFace, res: int, xo: int, yo: int, x: int, y: int) -> (
    int,
    int,
    int,
) {
    let s = res - 1;
    let n = face_normal(f);
    add3(add3(scale3(s, n), scale3(x - xo * s, axis_a(n))), scale3(y - yo * s, axis_b(n)))
}

/// The point of the scaled face (half-width `s`) at in-plane coordinates `(u, v)`.
pub open spec fn face_plane_point(f: CubeFace, s: int, u: int, v: int) -> (int, int, int) {
    let n = face_normal(f);
    add3(add3(scale3(s, n), scale3(u, axis_a(n))), scale3(v, axis_b(n)))
}

pub open spec fn is_unit_component(c: int) -> bool {
    -1 <= c <= 1
}

pub open spec fn has_unit_components(p: (int, int, int)) -> bool {
    is_unit_component(p.0) && is_unit_component(p.1) && is_unit_component(p.2)
}

/// `k * c` for a factor `c` in [-1, 1].
fn mul_unit(k: i64, c: i64) -> (r: i64)
    requires
        -0x4000_0000_0000_0000 <= k <= 0x4000_0000_0000_0000,
        is_unit_component(c as int),
    ensures
        r == k * c,
        c == 0 ==> r == 0,
        c == 1 ==> r == k,
        c == -1 ==> r == -k,
{
    if c == 0 {
        0
    } else if c == 1 {
        k
    } else {
        assert(k * c == -k) by (nonlinear_arith)
            requires
                c == -1,
        ;
        -k
    }
}

fn cross(a: CubePoint, b: CubePoint) -> (r: CubePoint)
    requires
        has_unit_components(a@),
        has_unit_components(b@),
    ensures
        r@ == cross3(a@, b@),
{
    CubePoint {
        x: mul_unit(a.y, b.z) - mul_unit(a.z, b.y),
        y: mul_unit(a.z, b.x) - mul_unit(a.x, b.z),
        z: mul_unit(a.x, b.y) - mul_unit(a.y, b.x),
    }
}

/// An offset of 0 or 1 scaled by `s`.
proof fn lemma_offset_scaled(o: int, s: int)
    requires
        0 <= o <= 1,
    ensures
        o * s == (if o == 1 { s } else { 0 }),
{
    assert(o == 0 || o == 1);
    if o == 1 {
        assert(o * s == s) by (nonlinear_arith)
            requires
                o == 1,
        ;
    } else {
        assert(o * s == 0) by (nonlinear_arith)
            requires
                o == 0,
        ;
    }
}

/// `s·n + u·a + v·b` for unit-component `n`, `a`, `b`.
fn combine(n: CubePoint, a: CubePoint, b: CubePoint, s: i64, u: i64, v: i64) -> (r: CubePoint)
    requires
        has_unit_components(n@),
        has_unit_components(a@),
        has_unit_components(b@),
        -0x1_0000_0000 <= s <= 0x1_0000_0000,
        -0x1_0000_0000 <= u <= 0x1_0000_0000,
        -0x1_0000_0000 <= v <= 0x1_0000_0000,
    ensures
        r@ == add3(add3(scale3(s as int, n@), scale3(u as int, a@)), scale3(v as int, b@)),
{
    CubePoint {
        x: mul_unit(s, n.x) + mul_unit(u, a.x) + mul_unit(v, b.x),
        y: mul_unit(s, n.y) + mul_unit(u, a.y) + mul_unit(v, b.y),
        z: mul_unit(s, n.z) + mul_unit(u, a.z) + mul_unit(v, b.z),
    }
}

/// Sample `(x, y)` of the `resolution × resolution` grid on quadrant
/// `(x_offset, y_offset)` of `face`, scaled by `resolution - 1`.
pub fn lattice_sample(face: CubeFace, resolution: u32, x_offset: u32, y_offset: u32, x: u32, y: u32) -> (r: CubePoint)
    requires
        resolution >= 1,
        x_offset <= 1,
        y_offset <= 1,
    ensures
        r@ == lattice_point(face, resolution as int, x_offset as int, y_offset as int, x as int, y as int),
{
    let n = face.normal();
    let (a, b) = face.tangent_axes();
    let s: i64 = resolution as i64 - 1;
    let u: i64 = if x_offset == 1 { x as i64 - s } else { x as i64 };
    let v: i64 = if y_offset == 1 { y as i64 - s } else { y as i64 };
    proof {
        lemma_offset_scaled(x_offset as int, s as int);
        lemma_offset_scaled(y_offset as int, s as int);
    }
    combine(n, a, b, s, u, v)
}

/// The face point at `(u, v)`, written out for each face.
pub open spec fn face_plane_coords(f: CubeFace, s: int, u: int, v: int) -> (int, int, int) {
    match f {
        CubeFace::PosX => (s, v, u),
        CubeFace::NegX => (-s, v, -u),
        CubeFace::PosY => (u, s, v),
        CubeFace::NegY => (-u, -s, v),
        CubeFace::PosZ => (v, u, s),
        CubeFace::NegZ => (v, -u, -s),
    }
}

proof fn lemma_face_plane_coords(f: CubeFace, s: int, u: int, v: int)
    ensures
        face_plane_point(f, s, u, v) == face_plane_coords(f, s, u, v),
        dot3(face_normal(f), face_plane_coords(f, s, u, v)) == s,
{
    let n = face_normal(f);
    let a = axis_a(n);
    let b = axis_b(n);
    assert(scale3(s, n) == face_plane_coords(f, s, 0, 0)) by (nonlinear_arith)
        requires
            n == face_normal(f),
    ;
    assert(scale3(u, a) == face_plane_coords(f, 0, u, 0)) by (nonlinear_arith)
        requires
            a == axis_a(face_normal(f)),
    ;
    assert(scale3(v, b) == face_plane_coords(f, 0, 0, v)) by (nonlinear_arith)
        requires
            b == axis_b(face_normal(f)),
    ;
    let p = face_plane_coords(f, s, u, v);
    assert(dot3(n, p) == s) by (nonlinear_arith)
        requires
            n == face_normal(f),
            p == face_plane_coords(f, s, u, v),
    ;
}

/// Sample `(x, y)` of quadrant `(xo, yo)` is the face point at in-plane
/// coordinates `(x - xo·s, y - yo·s)`, both within `[-s, s]`: every sample lies
/// on the face (its component along the normal is `s`, never the origin).
pub proof fn lemma_sample_on_face(f: CubeFace, res: int, xo: int, yo: int, x: int, y: int)
    requires
        2 <= res,
        0 <= xo <= 1,
        0 <= yo <= 1,
        0 <= x < res,
        0 <= y < res,
    ensures
        lattice_point(f, res, xo, yo, x, y) == face_plane_point(f, res - 1, x - xo * (res - 1), y
            - yo * (res - 1)),
        -(res - 1) <= x - xo * (res - 1) <= res - 1,
        -(res - 1) <= y - yo * (res - 1) <= res - 1,
        dot3(face_normal(f), lattice_point(f, res, xo, yo, x, y)) == res - 1,
        lattice_point(f, res, xo, yo, x, y) != (0int, 0int, 0int),
{
    let s = res - 1;
    let u = x - xo * s;
    let v = y - yo * s;
    lemma_offset_scaled(xo, s);
    lemma_offset_scaled(yo, s);
    let p = face_plane_point(f, s, u, v);
    assert(lattice_point(f, res, xo, yo, x, y) == p);
    lemma_face_plane_coords(f, s, u, v);
}

/// The face point at `(u, v)` is sample `(x, y)` of some quadrant `(xo, yo)`
/// of a `res × res` grid.
pub open spec fn is_sampled(f: CubeFace, res: int, u: int, v: int) -> bool {
    exists|xo: int, yo: int, x: int, y: int|
        0 <= xo <= 1 && 0 <= yo <= 1 && 0 <= x < res && 0 <= y < res && #[trigger] lattice_point(
            f,
            res,
            xo,
            yo,
            x,
            y,
        ) == face_plane_point(f, res - 1, u, v)
}

/// The four quadrants of a face tile it: quadrants that meet along an edge
/// produce equal samples on that edge, and every point of the face lattice
/// `[-s, s]²` (with `s = res - 1`) is a sample of some quadrant.
pub proof fn lemma_quadrants_tile_face(f: CubeFace, res: int)
    requires
        2 <= res,
    ensures
        forall|yo: int, y: int|
            #![trigger lattice_point(f, res, 0, yo, 0, y)]
            lattice_point(f, res, 0, yo, 0, y) == lattice_point(f, res, 1, yo, res - 1, y),
        forall|xo: int, x: int|
            #![trigger lattice_point(f, res, xo, 0, x, 0)]
            lattice_point(f, res, xo, 0, x, 0) == lattice_point(f, res, xo, 1, x, res - 1),
        forall|u: int, v: int|
            -(res - 1) <= u <= res - 1 && -(res - 1) <= v <= res - 1 ==> #[trigger] is_sampled(
                f,
                res,
                u,
                v,
            ),
{
    let s = res - 1;
    assert forall|yo: int, y: int|
        #![trigger lattice_point(f, res, 0, yo, 0, y)]
        lattice_point(f, res, 0, yo, 0, y) == lattice_point(f, res, 1, yo, res - 1, y) by {
        assert(0 - 0 * s == (res - 1) - 1 * s);
    }
    assert forall|xo: int, x: int|
        #![trigger lattice_point(f, res, xo, 0, x, 0)]
        lattice_point(f, res, xo, 0, x, 0) == lattice_point(f, res, xo, 1, x, res - 1) by {
        assert(0 - 0 * s == (res - 1) - 1 * s);
    }
    assert forall|u: int, v: int|
        -(res - 1) <= u <= res - 1 && -(res - 1) <= v <= res - 1 implies #[trigger] is_sampled(
            f,
            res,
            u,
            v,
        ) by {
        let xo: int = if u >= 0 { 0 } else { 1 };
        let yo: int = if v >= 0 { 0 } else { 1 };
        let x = if u >= 0 { u } else { u + s };
        let y = if v >= 0 { v } else { v + s };
        lemma_offset_scaled(xo, s);
        lemma_offset_scaled(yo, s);
        assert(x - xo * s == u);
        assert(y - yo * s == v);
        assert(lattice_point(f, res, xo, yo, x, y) == face_plane_point(f, res - 1, u, v));
    }
}

impl CubeFace {
    /// The outward unit normal of this face.
    pub fn normal(&self) -> (r: CubePoint)
        ensures
            r@ == face_normal(*self),
            has_unit_components(r@),
    {
        match self {
            CubeFace::PosX => CubePoint { x: 1, y: 0, z: 0 },
            CubeFace::NegX => CubePoint { x: -1, y: 0, z: 0 },
            CubeFace::PosY => CubePoint { x: 0, y: 1, z: 0 },
            CubeFace::NegY => CubePoint { x: 0, y: -1, z: 0 },
            CubeFace::PosZ => CubePoint { x: 0, y: 0, z: 1 },
            CubeFace::NegZ => CubePoint { x: 0, y: 0, z: -1 },
        }
    }

    /// The two axes spanning this face: `axis_a` and `axis_b`.
    pub fn tangent_axes(&self) -> (r: (CubePoint, CubePoint))
        ensures
            r.0@ == axis_a(face_normal(*self)),
            r.1@ == axis_b(face_normal(*self)),
            has_unit_components(r.0@),
            has_unit_components(r.1@),
    {
        let n = self.normal();
        let a = CubePoint { x: n.y, y: n.z, z: n.x };
        let b = cross(a, n);
        assert(has_unit_components(b@)) by {
            match *self {
                CubeFace::PosX => {},
                CubeFace::NegX => {},
                CubeFace::PosY => {},
                CubeFace::NegY => {},
                CubeFace::PosZ => {},
                CubeFace::NegZ => {},
            }
        }
        (a, b)
    }
}

} // verus!
