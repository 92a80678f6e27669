//! Procedurally generated triangle-mesh data for a cube: 12 triangles
//! of position-plus-color vertices with a fixed outward-facing winding,
//! and the matching index blocks that let many cube instances share one
//! vertex buffer in a single indexed draw call.

use vstd::prelude::*;

use crate::fixed::SCALE;
use crate::fixed::fx_ok;
use crate::fixed::tdiv;
use crate::vec3::Vec3fx;
use crate::vec3::cross3_exact;

verus! {

/// A vertex as specifications see it: a position triple and a color
/// triple of exact integers.
pub type VertexModel = ((int, int, int), (int, int, int));

/// A triangle as specifications see it: three vertex models, in
/// winding order.
pub type TriangleModel = (VertexModel, VertexModel, VertexModel);

/// A 3D position paired with a color.
#[allow(non_camel_case_types)]
#[derive(Clone, Copy, PartialEq, Eq, Structural, Debug)]
pub struct Vertex_PC {
    pub position: Vec3fx,
    pub color: Vec3fx,
}

impl Vertex_PC {
    /// The position and color as exact integer triples.
    pub open spec fn m(self) -> VertexModel {
        (self.position.m(), self.color.m())
    }

    pub fn new(position: Vec3fx, color: Vec3fx) -> (r: Vertex_PC)
        ensures
            r.position == position && r.color == color,
    {
        Vertex_PC { position, color }
    }
}

/// Exactly three vertices; the traversal order is significant: viewed
/// from the outward face normal it runs counter-clockwise, so back
/// faces can be culled.
#[derive(Clone, Copy, PartialEq, Eq, Structural, Debug)]
pub struct Triangle {
    pub v0: Vertex_PC,
    pub v1: Vertex_PC,
    pub v2: Vertex_PC,
}

impl Triangle {
    /// The three vertices as models, in winding order.
    pub open spec fn m(self) -> TriangleModel {
        (self.v0.m(), self.v1.m(), self.v2.m())
    }

    pub fn new(v0: Vertex_PC, v1: Vertex_PC, v2: Vertex_PC) -> (r: Triangle)
        ensures
            r.v0 == v0 && r.v1 == v1 && r.v2 == v2,
    {
        Triangle { v0, v1, v2 }
    }
}

/// Three consecutive vertex indices for one triangle of an indexed
/// draw.
#[allow(non_camel_case_types)]
#[derive(Clone, Copy, PartialEq, Eq, Structural, Debug)]
pub struct Triangle_Index {
    pub i0: u32,
    pub i1: u32,
    pub i2: u32,
}

impl Triangle_Index {
    pub fn new(start: u32) -> (r: Triangle_Index)
        requires
            start + 2 <= u32::MAX,
        ensures
            r.i0 == start && r.i1 == start + 1 && r.i2 == start + 2,
    {
        Triangle_Index { i0: start, i1: start + 1, i2: start + 2 }
    }
}

/// The 12 triangles of a cube of half-extent `h` centered at `c`, all
/// vertices colored `col`: two triangles per face, enumerated in the
/// fixed order the vertex buffer expects, each wound counter-clockwise
/// as seen from outside its face.
pub open spec fn cube_tris_s(h: int, c: (int, int, int), col: (int, int, int)) -> Seq<
    TriangleModel,
> {
    seq![
        (
            (((c.0 - h), (c.1 - h), (c.2 - h)), col),
            (((c.0 - h), (c.1 - h), (c.2 + h)), col),
            (((c.0 - h), (c.1 + h), (c.2 + h)), col),
        ),
        (
            (((c.0 + h), (c.1 + h), (c.2 - h)), col),
            (((c.0 - h), (c.1 - h), (c.2 - h)), col),
            (((c.0 - h), (c.1 + h), (c.2 - h)), col),
        ),
        (
            (((c.0 + h), (c.1 - h), (c.2 + h)), col),
            (((c.0 - h), (c.1 - h), (c.2 - h)), col),
            (((c.0 + h), (c.1 - h), (c.2 - h)), col),
        ),
        (
            (((c.0 + h), (c.1 + h), (c.2 - h)), col),
            (((c.0 + h), (c.1 - h), (c.2 - h)), col),
            (((c.0 - h), (c.1 - h), (c.2 - h)), col),
        ),
        (
            (((c.0 - h), (c.1 - h), (c.2 - h)), col),
            (((c.0 - h), (c.1 + h), (c.2 + h)), col),
            (((c.0 - h), (c.1 + h), (c.2 - h)), col),
        ),
        (
            (((c.0 + h), (c.1 - h), (c.2 + h)), col),
            (((c.0 - h), (c.1 - h), (c.2 + h)), col),
            (((c.0 - h), (c.1 - h), (c.2 - h)), col),
        ),
        (
            (((c.0 - h), (c.1 + h), (c.2 + h)), col),
            (((c.0 - h), (c.1 - h), (c.2 + h)), col),
            (((c.0 + h), (c.1 - h), (c.2 + h)), col),
        ),
        (
            (((c.0 + h), (c.1 + h), (c.2 + h)), col),
            (((c.0 + h), (c.1 - h), (c.2 - h)), col),
            (((c.0 + h), (c.1 + h), (c.2 - h)), col),
        ),
        (
            (((c.0 + h), (c.1 - h), (c.2 - h)), col),
            (((c.0 + h), (c.1 + h), (c.2 + h)), col),
            (((c.0 + h), (c.1 - h), (c.2 + h)), col),
        ),
        (
            (((c.0 + h), (c.1 + h), (c.2 + h)), col),
            (((c.0 + h), (c.1 + h), (c.2 - h)), col),
            (((c.0 - h), (c.1 + h), (c.2 - h)), col),
        ),
        (
            (((c.0 + h), (c.1 + h), (c.2 + h)), col),
            (((c.0 - h), (c.1 + h), (c.2 - h)), col),
            (((c.0 - h), (c.1 + h), (c.2 + h)), col),
        ),
        (
            (((c.0 + h), (c.1 + h), (c.2 + h)), col),
            (((c.0 - h), (c.1 + h), (c.2 + h)), col),
            (((c.0 + h), (c.1 - h), (c.2 + h)), col),
        )
    ]
}

/// A vertex position lies on the cube surface: each coordinate is the
/// center offset by plus or minus the half-extent.
pub open spec fn on_cube_corner(p: (int, int, int), h: int, c: (int, int, int)) -> bool {
    (p.0 == c.0 - h || p.0 == c.0 + h) && (p.1 == c.1 - h || p.1 == c.1 + h) && (p.2 == c.2 - h
        || p.2 == c.2 + h)
}

/// A fixed-topology cube mesh: 12 triangles covering all 6 faces.
pub struct Cube {
    pub tris: Vec<Triangle>,
}

impl Cube {
    /// The mesh matches the cube table for half-extent `h`, center `c`
    /// and color `col`.
    pub open spec fn is_cube_of(self, h: int, c: (int, int, int), col: (int, int, int)) -> bool {
        self.tris@.len() == 12 && forall|t: int|
            0 <= t < 12 ==> (#[trigger] self.tris@[t]).m() == cube_tris_s(h, c, col)[t]
    }

    /// A cube of edge length `size` centered at `center`, colored
    /// opaque white (1.0 per channel).
    pub fn new(size: i64, center: Vec3fx) -> (r: Cube)
        requires
            fx_ok(size as int),
            center.v_ok(),
        ensures
            r.is_cube_of(tdiv(size as int, 2), center.m(), (SCALE as int, SCALE as int, SCALE as int)),
    {
        Cube::new_with_color(size, center, Vec3fx::new(SCALE, SCALE, SCALE))
    }

    /// A cube of edge length `size` centered at `center`, every vertex
    /// tagged with `color`: vertices sit at `center` plus or minus half
    /// the size per axis, enumerated exactly as the cube table states.
    pub fn new_with_color(size: i64, center: Vec3fx, color: Vec3fx) -> (r: Cube)
        requires
            fx_ok(size as int),
            center.v_ok(),
            color.v_ok(),
        ensures
            r.is_cube_of(tdiv(size as int, 2), center.m(), color.m()),
    {
        let half: i64 = size / 2;
        let mut tris: Vec<Triangle> = Vec::new();
        tris.push(Triangle::new(
            Vertex_PC::new(Vec3fx::new(-half, -half, -half).add(&center), color),
            Vertex_PC::new(Vec3fx::new(-half, -half, half).add(&center), color),
            Vertex_PC::new(Vec3fx::new(-half, half, half).add(&center), color),
        ));
        tris.push(Triangle::new(
            Vertex_PC::new(Vec3fx::new(half, half, -half).add(&center), color),
            Vertex_PC::new(Vec3fx::new(-half, -half, -half).add(&center), color),
            Vertex_PC::new(Vec3fx::new(-half, half, -half).add(&center), color),
        ));
        tris.push(Triangle::new(
            Vertex_PC::new(Vec3fx::new(half, -half, half).add(&center), color),
            Vertex_PC::new(Vec3fx::new(-half, -half, -half).add(&center), color),
            Vertex_PC::new(Vec3fx::new(half, -half, -half).add(&center), color),
        ));
        tris.push(Triangle::new(
            Vertex_PC::new(Vec3fx::new(half, half, -half).add(&center), color),
            Vertex_PC::new(Vec3fx::new(half, -half, -half).add(&center), color),
            Vertex_PC::new(Vec3fx::new(-half, -half, -half).add(&center), color),
        ));
        tris.push(Triangle::new(
            Vertex_PC::new(Vec3fx::new(-half, -half, -half).add(&center), color),
            Vertex_PC::new(Vec3fx::new(-half, half, half).add(&center), color),
            Vertex_PC::new(Vec3fx::new(-half, half, -half).add(&center), color),
        ));
        tris.push(Triangle::new(
            Vertex_PC::new(Vec3fx::new(half, -half, half).add(&center), color),
            Vertex_PC::new(Vec3fx::new(-half, -half, half).add(&center), color),
            Vertex_PC::new(Vec3fx::new(-half, -half, -half).add(&center), color),
        ));
        tris.push(Triangle::new(
            Vertex_PC::new(Vec3fx::new(-half, half, half).add(&center), color),
            Vertex_PC::new(Vec3fx::new(-half, -half, half).add(&center), color),
            Vertex_PC::new(Vec3fx::new(half, -half, half).add(&center), color),
        ));
        tris.push(Triangle::new(
            Vertex_PC::new(Vec3fx::new(half, half, half).add(&center), color),
            Vertex_PC::new(Vec3fx::new(half, -half, -half).add(&center), color),
            Vertex_PC::new(Vec3fx::new(half, half, -half).add(&center), color),
        ));
        tris.push(Triangle::new(
            Vertex_PC::new(Vec3fx::new(half, -half, -half).add(&center), color),
            Vertex_PC::new(Vec3fx::new(half, half, half).add(&center), color),
            Vertex_PC::new(Vec3fx::new(half, -half, half).add(&center), color),
        ));
        tris.push(Triangle::new(
            Vertex_PC::new(Vec3fx::new(half, half, half).add(&center), color),
            Vertex_PC::new(Vec3fx::new(half, half, -half).add(&center), color),
            Vertex_PC::new(Vec3fx::new(-half, half, -half).add(&center), color),
        ));
        tris.push(Triangle::new(
            Vertex_PC::new(Vec3fx::new(half, half, half).add(&center), color),
            Vertex_PC::new(Vec3fx::new(-half, half, -half).add(&center), color),
            Vertex_PC::new(Vec3fx::new(-half, half, half).add(&center), color),
        ));
        tris.push(Triangle::new(
            Vertex_PC::new(Vec3fx::new(half, half, half).add(&center), color),
            Vertex_PC::new(Vec3fx::new(-half, half, half).add(&center), color),
            Vertex_PC::new(Vec3fx::new(half, -half, half).add(&center), color),
        ));
        proof {
            let h = tdiv(size as int, 2);
            let c = center.m();
            let col = color.m();
            assert forall|t: int| 0 <= t < 12 implies (#[trigger] tris@[t]).m() == cube_tris_s(
                h,
                c,
                col,
            )[t] by {
                assert(0 <= t <= 11);
            }
        }
        Cube { tris }
    }
}

/// Every vertex the cube table produces sits on a corner of the cube:
/// each coordinate is the center offset by plus or minus the
/// half-extent.
pub proof fn lemma_cube_vertices_on_corners(h: int, c: (int, int, int), col: (int, int, int))
    ensures
        forall|t: int|
            0 <= t < 12 ==> {
                let tr = #[trigger] cube_tris_s(h, c, col)[t];
                on_cube_corner(tr.0.0, h, c) && on_cube_corner(tr.1.0, h, c) && on_cube_corner(
                    tr.2.0,
                    h,
                    c,
                )
            },
{
    assert forall|t: int| 0 <= t < 12 implies {
        let tr = #[trigger] cube_tris_s(h, c, col)[t];
        on_cube_corner(tr.0.0, h, c) && on_cube_corner(tr.1.0, h, c) && on_cube_corner(
            tr.2.0,
            h,
            c,
        )
    } by {
        assert(0 <= t <= 11);
    }
}

/// Componentwise difference of position triples.
pub open spec fn sub3(a: (int, int, int), b: (int, int, int)) -> (int, int, int) {
    (a.0 - b.0, a.1 - b.1, a.2 - b.2)
}

/// The exact, unnormalized normal of a triangle: the cross product of
/// its two edges out of the first vertex.  Its direction is the side
/// from which the winding appears counter-clockwise.
pub open spec fn tri_normal(t: TriangleModel) -> (int, int, int) {
    cross3_exact(sub3(t.1.0, t.0.0), sub3(t.2.0, t.0.0))
}

/// The exact normal every triangle of face `t` must have: the outward
/// unit axis of the face the triangle covers, scaled by four times the
/// squared half-extent (the doubled edge vectors contribute a factor
/// `2h * 2h`).
pub open spec fn cube_face_normal(t: int, h: int) -> (int, int, int) {
    if t == 0 || t == 4 {
        (-(4 * (h * h)), 0, 0)
    } else if t == 1 || t == 3 {
        (0, 0, -(4 * (h * h)))
    } else if t == 2 || t == 5 {
        (0, -(4 * (h * h)), 0)
    } else if t == 6 || t == 11 {
        (0, 0, 4 * (h * h))
    } else if t == 7 || t == 8 {
        (4 * (h * h), 0, 0)
    } else {
        (0, 4 * (h * h), 0)
    }
}

/// Every triangle of the cube table winds counter-clockwise as seen
/// from outside its face: its exact normal is the outward axis of that
/// face scaled by four times the squared half-extent, so for any
/// positive size the normal points outward.
pub proof fn lemma_cube_winding_outward(h: int, c: (int, int, int), col: (int, int, int))
    ensures
        forall|t: int|
            0 <= t < 12 ==> #[trigger] tri_normal(cube_tris_s(h, c, col)[t]) == cube_face_normal(
                t,
                h,
            ),
{
    assert forall|t: int| 0 <= t < 12 implies #[trigger] tri_normal(cube_tris_s(h, c, col)[t])
        == cube_face_normal(t, h) by {
        if t == 0 {
            let tr = cube_tris_s(h, c, col)[0];
            let e1 = sub3(tr.1.0, tr.0.0);
            let e2 = sub3(tr.2.0, tr.0.0);
            assert(e1.0 == 0 && e1.1 == 0 && e1.2 == 2 * h);
            assert(e2.0 == 0 && e2.1 == 2 * h && e2.2 == 2 * h);
            assert(e1.1 * e2.2 - e1.2 * e2.1 == -(4 * (h * h)) && e1.2 * e2.0 - e1.0 * e2.2 == 0
                && e1.0 * e2.1 - e1.1 * e2.0 == 0) by (nonlinear_arith)
                requires
                    e1.0 == 0,
                    e1.1 == 0,
                    e1.2 == 2 * h,
                    e2.0 == 0,
                    e2.1 == 2 * h,
                    e2.2 == 2 * h,
            ;
            assert(tri_normal(tr) == (-(4 * (h * h)), 0int, 0int));
        }
        else if t == 1 {
            let tr = cube_tris_s(h, c, col)[1];
            let e1 = sub3(tr.1.0, tr.0.0);
            let e2 = sub3(tr.2.0, tr.0.0);
            assert(e1.0 == -(2 * h) && e1.1 == -(2 * h) && e1.2 == 0);
            assert(e2.0 == -(2 * h) && e2.1 == 0 && e2.2 == 0);
            assert(e1.1 * e2.2 - e1.2 * e2.1 == 0 && e1.2 * e2.0 - e1.0 * e2.2 == 0
                && e1.0 * e2.1 - e1.1 * e2.0 == -(4 * (h * h))) by (nonlinear_arith)
                requires
                    e1.0 == -(2 * h),
                    e1.1 == -(2 * h),
                    e1.2 == 0,
                    e2.0 == -(2 * h),
                    e2.1 == 0,
                    e2.2 == 0,
            ;
            assert(tri_normal(tr) == (0int, 0int, -(4 * (h * h))));
        }
        else if t == 2 {
            let tr = cube_tris_s(h, c, col)[2];
            let e1 = sub3(tr.1.0, tr.0.0);
            let e2 = sub3(tr.2.0, tr.0.0);
            assert(e1.0 == -(2 * h) && e1.1 == 0 && e1.2 == -(2 * h));
            assert(e2.0 == 0 && e2.1 == 0 && e2.2 == -(2 * h));
            assert(e1.1 * e2.2 - e1.2 * e2.1 == 0 && e1.2 * e2.0 - e1.0 * e2.2 == -(4 * (h * h))
                && e1.0 * e2.1 - e1.1 * e2.0 == 0) by (nonlinear_arith)
                requires
                    e1.0 == -(2 * h),
                    e1.1 == 0,
                    e1.2 == -(2 * h),
                    e2.0 == 0,
                    e2.1 == 0,
                    e2.2 == -(2 * h),
            ;
            assert(tri_normal(tr) == (0int, -(4 * (h * h)), 0int));
        }
        else if t == 3 {
            let tr = cube_tris_s(h, c, col)[3];
            let e1 = sub3(tr.1.0, tr.0.0);
            let e2 = sub3(tr.2.0, tr.0.0);
            assert(e1.0 == 0 && e1.1 == -(2 * h) && e1.2 == 0);
            assert(e2.0 == -(2 * h) && e2.1 == -(2 * h) && e2.2 == 0);
            assert(e1.1 * e2.2 - e1.2 * e2.1 == 0 && e1.2 * e2.0 - e1.0 * e2.2 == 0
                && e1.0 * e2.1 - e1.1 * e2.0 == -(4 * (h * h))) by (nonlinear_arith)
                requires
                    e1.0 == 0,
                    e1.1 == -(2 * h),
                    e1.2 == 0,
                    e2.0 == -(2 * h),
                    e2.1 == -(2 * h),
                    e2.2 == 0,
            ;
            assert(tri_normal(tr) == (0int, 0int, -(4 * (h * h))));
        }
        else if t == 4 {
            let tr = cube_tris_s(h, c, col)[4];
            let e1 = sub3(tr.1.0, tr.0.0);
            let e2 = sub3(tr.2.0, tr.0.0);
            assert(e1.0 == 0 && e1.1 == 2 * h && e1.2 == 2 * h);
            assert(e2.0 == 0 && e2.1 == 2 * h && e2.2 == 0);
            assert(e1.1 * e2.2 - e1.2 * e2.1 == -(4 * (h * h)) && e1.2 * e2.0 - e1.0 * e2.2 == 0
                && e1.0 * e2.1 - e1.1 * e2.0 == 0) by (nonlinear_arith)
                requires
                    e1.0 == 0,
                    e1.1 == 2 * h,
                    e1.2 == 2 * h,
                    e2.0 == 0,
                    e2.1 == 2 * h,
                    e2.2 == 0,
            ;
            assert(tri_normal(tr) == (-(4 * (h * h)), 0int, 0int));
        }
        else if t == 5 {
            let tr = cube_tris_s(h, c, col)[5];
            let e1 = sub3(tr.1.0, tr.0.0);
            let e2 = sub3(tr.2.0, tr.0.0);
            assert(e1.0 == -(2 * h) && e1.1 == 0 && e1.2 == 0);
            assert(e2.0 == -(2 * h) && e2.1 == 0 && e2.2 == -(2 * h));
            assert(e1.1 * e2.2 - e1.2 * e2.1 == 0 && e1.2 * e2.0 - e1.0 * e2.2 == -(4 * (h * h))
                && e1.0 * e2.1 - e1.1 * e2.0 == 0) by (nonlinear_arith)
                requires
                    e1.0 == -(2 * h),
                    e1.1 == 0,
                    e1.2 == 0,
                    e2.0 == -(2 * h),
                    e2.1 == 0,
                    e2.2 == -(2 * h),
            ;
            assert(tri_normal(tr) == (0int, -(4 * (h * h)), 0int));
        }
        else if t == 6 {
            let tr = cube_tris_s(h, c, col)[6];
            let e1 = sub3(tr.1.0, tr.0.0);
            let e2 = sub3(tr.2.0, tr.0.0);
            assert(e1.0 == 0 && e1.1 == -(2 * h) && e1.2 == 0);
            assert(e2.0 == 2 * h && e2.1 == -(2 * h) && e2.2 == 0);
            assert(e1.1 * e2.2 - e1.2 * e2.1 == 0 && e1.2 * e2.0 - e1.0 * e2.2 == 0
                && e1.0 * e2.1 - e1.1 * e2.0 == 4 * (h * h)) by (nonlinear_arith)
                requires
                    e1.0 == 0,
                    e1.1 == -(2 * h),
                    e1.2 == 0,
                    e2.0 == 2 * h,
                    e2.1 == -(2 * h),
                    e2.2 == 0,
            ;
            assert(tri_normal(tr) == (0int, 0int, 4 * (h * h)));
        }
        else if t == 7 {
            let tr = cube_tris_s(h, c, col)[7];
            let e1 = sub3(tr.1.0, tr.0.0);
            let e2 = sub3(tr.2.0, tr.0.0);
            assert(e1.0 == 0 && e1.1 == -(2 * h) && e1.2 == -(2 * h));
            assert(e2.0 == 0 && e2.1 == 0 && e2.2 == -(2 * h));
            assert(e1.1 * e2.2 - e1.2 * e2.1 == 4 * (h * h) && e1.2 * e2.0 - e1.0 * e2.2 == 0
                && e1.0 * e2.1 - e1.1 * e2.0 == 0) by (nonlinear_arith)
                requires
                    e1.0 == 0,
                    e1.1 == -(2 * h),
                    e1.2 == -(2 * h),
                    e2.0 == 0,
                    e2.1 == 0,
                    e2.2 == -(2 * h),
            ;
            assert(tri_normal(tr) == (4 * (h * h), 0int, 0int));
        }
        else if t == 8 {
            let tr = cube_tris_s(h, c, col)[8];
            let e1 = sub3(tr.1.0, tr.0.0);
            let e2 = sub3(tr.2.0, tr.0.0);
            assert(e1.0 == 0 && e1.1 == 2 * h && e1.2 == 2 * h);
            assert(e2.0 == 0 && e2.1 == 0 && e2.2 == 2 * h);
            assert(e1.1 * e2.2 - e1.2 * e2.1 == 4 * (h * h) && e1.2 * e2.0 - e1.0 * e2.2 == 0
                && e1.0 * e2.1 - e1.1 * e2.0 == 0) by (nonlinear_arith)
                requires
                    e1.0 == 0,
                    e1.1 == 2 * h,
                    e1.2 == 2 * h,
                    e2.0 == 0,
                    e2.1 == 0,
                    e2.2 == 2 * h,
            ;
            assert(tri_normal(tr) == (4 * (h * h), 0int, 0int));
        }
        else if t == 9 {
            let tr = cube_tris_s(h, c, col)[9];
            let e1 = sub3(tr.1.0, tr.0.0);
            let e2 = sub3(tr.2.0, tr.0.0);
            assert(e1.0 == 0 && e1.1 == 0 && e1.2 == -(2 * h));
            assert(e2.0 == -(2 * h) && e2.1 == 0 && e2.2 == -(2 * h));
            assert(e1.1 * e2.2 - e1.2 * e2.1 == 0 && e1.2 * e2.0 - e1.0 * e2.2 == 4 * (h * h)
                && e1.0 * e2.1 - e1.1 * e2.0 == 0) by (nonlinear_arith)
                requires
                    e1.0 == 0,
                    e1.1 == 0,
                    e1.2 == -(2 * h),
                    e2.0 == -(2 * h),
                    e2.1 == 0,
                    e2.2 == -(2 * h),
            ;
            assert(tri_normal(tr) == (0int, 4 * (h * h), 0int));
        }
        else if t == 10 {
            let tr = cube_tris_s(h, c, col)[10];
            let e1 = sub3(tr.1.0, tr.0.0);
            let e2 = sub3(tr.2.0, tr.0.0);
            assert(e1.0 == -(2 * h) && e1.1 == 0 && e1.2 == -(2 * h));
            assert(e2.0 == -(2 * h) && e2.1 == 0 && e2.2 == 0);
            assert(e1.1 * e2.2 - e1.2 * e2.1 == 0 && e1.2 * e2.0 - e1.0 * e2.2 == 4 * (h * h)
                && e1.0 * e2.1 - e1.1 * e2.0 == 0) by (nonlinear_arith)
                requires
                    e1.0 == -(2 * h),
                    e1.1 == 0,
                    e1.2 == -(2 * h),
                    e2.0 == -(2 * h),
                    e2.1 == 0,
                    e2.2 == 0,
            ;
            assert(tri_normal(tr) == (0int, 4 * (h * h), 0int));
        }
        else if t == 11 {
            let tr = cube_tris_s(h, c, col)[11];
            let e1 = sub3(tr.1.0, tr.0.0);
            let e2 = sub3(tr.2.0, tr.0.0);
            assert(e1.0 == -(2 * h) && e1.1 == 0 && e1.2 == 0);
            assert(e2.0 == 0 && e2.1 == -(2 * h) && e2.2 == 0);
            assert(e1.1 * e2.2 - e1.2 * e2.1 == 0 && e1.2 * e2.0 - e1.0 * e2.2 == 0
                && e1.0 * e2.1 - e1.1 * e2.0 == 4 * (h * h)) by (nonlinear_arith)
                requires
                    e1.0 == -(2 * h),
                    e1.1 == 0,
                    e1.2 == 0,
                    e2.0 == 0,
                    e2.1 == -(2 * h),
                    e2.2 == 0,
            ;
            assert(tri_normal(tr) == (0int, 0int, 4 * (h * h)));
        }
    }
}

/// The 12 index triples for the cube instance in slot `start` of a
/// shared vertex buffer: 36 consecutive indices beginning at
/// `start * 36`.
#[allow(non_camel_case_types)]
pub struct Cube_Index {
    pub indices: Vec<Triangle_Index>,
}

impl Cube_Index {
    /// The indices are the block for instance slot `s`: the flattened
    /// index `3 * t + k` holds `36 * s + 3 * t + k`.
    pub open spec fn is_block_of(self, s: int) -> bool {
        self.indices@.len() == 12 && forall|t: int|
            0 <= t < 12 ==> (#[trigger] self.indices@[t]).i0 == 36 * s + 3 * t
                && self.indices@[t].i1 == 36 * s + 3 * t + 1 && self.indices@[t].i2 == 36 * s + 3
                * t + 2
    }

    /// The index block for the zero-based instance slot `start`; no
    /// bounds check against any actual buffer is made here, the caller
    /// owns buffer sizing.
    pub fn new(start: u32) -> (r: Cube_Index)
        requires
            36 * start + 35 <= u32::MAX,
        ensures
            r.is_block_of(start as int),
    {
        let adjusted_start: u32 = start * 36;
        let mut indices: Vec<Triangle_Index> = Vec::new();
        indices.push(Triangle_Index::new(adjusted_start));
        indices.push(Triangle_Index::new(adjusted_start + 3));
        indices.push(Triangle_Index::new(adjusted_start + 6));
        indices.push(Triangle_Index::new(adjusted_start + 9));
        indices.push(Triangle_Index::new(adjusted_start + 12));
        indices.push(Triangle_Index::new(adjusted_start + 15));
        indices.push(Triangle_Index::new(adjusted_start + 18));
        indices.push(Triangle_Index::new(adjusted_start + 21));
        indices.push(Triangle_Index::new(adjusted_start + 24));
        indices.push(Triangle_Index::new(adjusted_start + 27));
        indices.push(Triangle_Index::new(adjusted_start + 30));
        indices.push(Triangle_Index::new(adjusted_start + 33));
        proof {
            assert forall|t: int| 0 <= t < 12 implies (#[trigger] indices@[t]).i0 == 36 * (
            start as int) + 3 * t && indices@[t].i1 == 36 * (start as int) + 3 * t + 1
                && indices@[t].i2 == 36 * (start as int) + 3 * t + 2 by {
                assert(0 <= t <= 11);
            }
        }
        Cube_Index { indices }
    }
}

/// Any two index blocks have identical intra-block index deltas: the
/// offset of each index from the block's first index depends only on
/// the position in the block, never on the instance slot.
pub proof fn lemma_index_blocks_share_deltas(a: Cube_Index, b: Cube_Index, s1: int, s2: int)
    requires
        a.is_block_of(s1),
        b.is_block_of(s2),
    ensures
        forall|t: int|
            0 <= t < 12 ==> (#[trigger] a.indices@[t]).i0 - 36 * s1 == (
            #[trigger] b.indices@[t]).i0 - 36 * s2 && a.indices@[t].i1 - 36 * s1 == b.indices@[t].i1
                - 36 * s2 && a.indices@[t].i2 - 36 * s1 == b.indices@[t].i2 - 36 * s2,
{
}

} // verus!
