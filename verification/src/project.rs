//! Perspective projection of the edge set onto the canvas: rotate each
//! vertex by the orientation, divide by its depth against the fixed
//! viewing distance, scale by the canvas size and the zoom factor, flip
//! the Y axis, and shift by the pan offset and the canvas centre.
//!
//! Every step is a truncating fixed-point rendering of the real-valued
//! transform.  The perspective divide has a genuine singularity where
//! the rotated depth equals the viewing distance (the real quotient
//! diverges there); the fixed-point image saturates to the `i64` range
//! at that depth and nowhere pretends otherwise.

use vstd::prelude::*;
use crate::fixed::{
    SCALE,
    QMAX,
    COORD_LIMIT,
    CANVAS_LIMIT,
    PAN_LIMIT,
    tdiv,
    sat64,
    lemma_mul_bound,
    lemma_tdiv_bound,
};
use crate::quat::{Quat, qbounded, qmul, qconj};
use crate::edges::{Point3, Edge, EdgeSet};
use crate::viewer::{PanOffset, ViewerState, ZOOM_MIN, ZOOM_MAX};

verus! {

/// The fixed viewing distance: four units, in ticks.
pub const DIST: i64 = 400_000;

/// Largest magnitude of a rotated coordinate, in ticks: the Hamilton
/// sandwich of a `QMAX`-bounded quaternion around a `COORD_LIMIT`-bounded
/// vector, brought back to ticks, stays within this.
pub const ROT_LIMIT: i64 = 4_096_000_000_000;

/// Largest frame size, in milli-pixels: the largest canvas side at the
/// largest zoom.
pub const SIZE_LIMIT: i64 = 1_250_000_000;

/// The canvas, in milli-pixels of screen space: centre point, width and
/// height.
#[derive(Clone, Copy, Debug, PartialEq, Eq, Structural)]
pub struct CanvasRect {
    pub cx: i64,
    pub cy: i64,
    pub w: i64,
    pub h: i64,
}

impl CanvasRect {
    /// Centre within the canvas limit, sides nonnegative and within it.
    pub open spec fn wf(&self) -> bool {
        &&& -(CANVAS_LIMIT as int) <= self.cx as int <= CANVAS_LIMIT as int
        &&& -(CANVAS_LIMIT as int) <= self.cy as int <= CANVAS_LIMIT as int
        &&& 0 <= self.w as int <= CANVAS_LIMIT as int
        &&& 0 <= self.h as int <= CANVAS_LIMIT as int
    }
}

/// The screen image of one edge, in milli-pixels: the two projected
/// endpoints, in the edge's own order.
#[derive(Clone, Copy, Debug, PartialEq, Eq, Structural)]
pub struct ScreenSegment {
    pub ax: i64,
    pub ay: i64,
    pub bx: i64,
    pub by: i64,
}

/// `v` rotated by `q`: the vector part of the Hamilton sandwich
/// `q · (0, v) · conj(q)`, brought back from scale `SCALE^3` to
/// coordinate ticks by a truncating division.
pub open spec fn qrotate(q: (int, int, int, int), v: (int, int, int)) -> (int, int, int) {
    let p = qmul(qmul(q, (0, v.0, v.1, v.2)), qconj(q));
    let s2: int = SCALE as int * SCALE as int;
    (tdiv(p.1, s2), tdiv(p.2, s2), tdiv(p.3, s2))
}

/// One coordinate of the perspective image of a rotated point, in ticks:
/// `c * DIST / (DIST - z)`, truncating toward zero.  At the `z == DIST`
/// singularity, where the real quotient diverges, the result saturates
/// to the `i64` range with the sign of the numerator.
pub open spec fn persp(c: int, z: int) -> int {
    let d: int = DIST as int - z;
    if d == 0 {
        if c > 0 {
            i64::MAX as int
        } else if c < 0 {
            i64::MIN as int
        } else {
            0
        }
    } else if d > 0 {
        tdiv(c * DIST as int, d)
    } else {
        -tdiv(c * DIST as int, -d)
    }
}

/// The pixel scale of a frame, in milli-pixels per model unit: a quarter
/// of the smaller canvas side, times the zoom factor in thousandths.
pub open spec fn frame_size(w: int, h: int, zoom_milli: int) -> int {
    tdiv((if w <= h {
        w
    } else {
        h
    }) * zoom_milli, 4000)
}

/// One screen coordinate, in milli-pixels: the projected tick coordinate
/// scaled by `size` and brought from ticks to milli-pixels, shifted by
/// the pan offset and the canvas centre, saturated to the `i64` range.
pub open spec fn screen_coord(p: int, size: int, pan: int, centre: int) -> int {
    sat64(centre + pan + tdiv(p * size, SCALE as int))
}

/// The screen image of one vertex at a given pixel scale: perspective
/// divide, scale, Y flipped (screen Y grows downward, model Y upward),
/// pan, centre.
pub open spec fn project_sized(
    q: (int, int, int, int),
    v: (int, int, int),
    size: int,
    pan: (int, int),
    centre: (int, int),
) -> (int, int) {
    let r = qrotate(q, v);
    (
        screen_coord(persp(r.0, r.2), size, pan.0, centre.0),
        screen_coord(-persp(r.1, r.2), size, pan.1, centre.1),
    )
}

/// The screen image of one vertex: the perspective factor
/// `DIST / (DIST - z)` after rotation by `q`, the pixel scale
/// `min(w, h) * zoom_milli / 4000`, Y flipped, plus pan, plus centre.
pub open spec fn project_point(
    q: (int, int, int, int),
    v: (int, int, int),
    zoom_milli: int,
    pan: (int, int),
    rect: (int, int, int, int),
) -> (int, int) {
    project_sized(q, v, frame_size(rect.2, rect.3, zoom_milli), pan, (rect.0, rect.1))
}

/// The view of a grid point as a coordinate triple.
pub open spec fn point_view(p: Point3) -> (int, int, int) {
    (p.x as int, p.y as int, p.z as int)
}

/// The screen image of one vertex under a viewer state.
pub open spec fn state_point(st: ViewerState, rect: CanvasRect, p: Point3) -> (int, int) {
    project_point(
        st.orientation@,
        point_view(p),
        st.zoom_milli as int,
        (st.pan.x as int, st.pan.y as int),
        (rect.cx as int, rect.cy as int, rect.w as int, rect.h as int),
    )
}

/// The screen image of one edge under a viewer state.
pub open spec fn projected_segment(st: ViewerState, rect: CanvasRect, e: Edge) -> ScreenSegment {
    let a = state_point(st, rect, e.a);
    let b = state_point(st, rect, e.b);
    (ScreenSegment { ax: a.0 as i64, ay: a.1 as i64, bx: b.0 as i64, by: b.1 as i64 })
}

/// Rotate one vertex by the orientation quaternion.
fn rotate_vertex(q: &Quat, v: &Point3) -> (r: (i64, i64, i64))
    requires
        q.wf(),
        v.within_limit(),
    ensures
        (r.0 as int, r.1 as int, r.2 as int) == qrotate(q@, point_view(*v)),
        -(ROT_LIMIT as int) <= r.0 as int <= ROT_LIMIT as int,
        -(ROT_LIMIT as int) <= r.1 as int <= ROT_LIMIT as int,
        -(ROT_LIMIT as int) <= r.2 as int <= ROT_LIMIT as int,
{
    let qw: i128 = q.w as i128;
    let qx: i128 = q.x as i128;
    let qy: i128 = q.y as i128;
    let qz: i128 = q.z as i128;
    let bx: i128 = v.x as i128;
    let by: i128 = v.y as i128;
    let bz: i128 = v.z as i128;
    proof {
        let m: int = QMAX as int;
        let n: int = COORD_LIMIT as int;
        lemma_mul_bound(qw as int, bx as int, m, n);
        lemma_mul_bound(qw as int, by as int, m, n);
        lemma_mul_bound(qw as int, bz as int, m, n);
        lemma_mul_bound(qx as int, bx as int, m, n);
        lemma_mul_bound(qx as int, by as int, m, n);
        lemma_mul_bound(qx as int, bz as int, m, n);
        lemma_mul_bound(qy as int, bx as int, m, n);
        lemma_mul_bound(qy as int, by as int, m, n);
        lemma_mul_bound(qy as int, bz as int, m, n);
        lemma_mul_bound(qz as int, bx as int, m, n);
        lemma_mul_bound(qz as int, by as int, m, n);
        lemma_mul_bound(qz as int, bz as int, m, n);
    }
    let pw: i128 = -(qx * bx) - qy * by - qz * bz;
    let px: i128 = qw * bx + qy * bz - qz * by;
    let py: i128 = qw * by - qx * bz + qz * bx;
    let pz: i128 = qw * bz + qx * by - qy * bx;
    let kw: i128 = qw;
    let kx: i128 = -qx;
    let ky: i128 = -qy;
    let kz: i128 = -qz;
    let ghost inner: (int, int, int, int) = qmul(q@, (0, v.x as int, v.y as int, v.z as int));
    proof {
        assert(pw as int == inner.0);
        assert(px as int == inner.1);
        assert(py as int == inner.2);
        assert(pz as int == inner.3);
        let m: int = QMAX as int;
        let k: int = 4 * QMAX as int * COORD_LIMIT as int;
        lemma_mul_bound(pw as int, kw as int, k, m);
        lemma_mul_bound(pw as int, kx as int, k, m);
        lemma_mul_bound(pw as int, ky as int, k, m);
        lemma_mul_bound(pw as int, kz as int, k, m);
        lemma_mul_bound(px as int, kw as int, k, m);
        lemma_mul_bound(px as int, kx as int, k, m);
        lemma_mul_bound(px as int, ky as int, k, m);
        lemma_mul_bound(px as int, kz as int, k, m);
        lemma_mul_bound(py as int, kw as int, k, m);
        lemma_mul_bound(py as int, kx as int, k, m);
        lemma_mul_bound(py as int, ky as int, k, m);
        lemma_mul_bound(py as int, kz as int, k, m);
        lemma_mul_bound(pz as int, kw as int, k, m);
        lemma_mul_bound(pz as int, kx as int, k, m);
        lemma_mul_bound(pz as int, ky as int, k, m);
        lemma_mul_bound(pz as int, kz as int, k, m);
    }
    let sx: i128 = pw * kx + px * kw + py * kz - pz * ky;
    let sy: i128 = pw * ky - px * kz + py * kw + pz * kx;
    let sz: i128 = pw * kz + px * ky - py * kx + pz * kw;
    let s2: i128 = (SCALE as i128) * (SCALE as i128);
    proof {
        assert(sx as int == qmul(inner, qconj(q@)).1);
        assert(sy as int == qmul(inner, qconj(q@)).2);
        assert(sz as int == qmul(inner, qconj(q@)).3);
        let wide: int = 16 * (QMAX as int * QMAX as int) * COORD_LIMIT as int;
        assert(wide == 16 * QMAX as int * QMAX as int * COORD_LIMIT as int);
        lemma_tdiv_bound(sx as int, s2 as int, wide);
        lemma_tdiv_bound(sy as int, s2 as int, wide);
        lemma_tdiv_bound(sz as int, s2 as int, wide);
    }
    let rx: i128 = sx / s2;
    let ry: i128 = sy / s2;
    let rz: i128 = sz / s2;
    (rx as i64, ry as i64, rz as i64)
}

/// The perspective image of one rotated coordinate against its depth.
fn persp_coord(c: i64, z: i64) -> (r: i64)
    requires
        -(ROT_LIMIT as int) <= c as int <= ROT_LIMIT as int,
        -(ROT_LIMIT as int) <= z as int <= ROT_LIMIT as int,
    ensures
        r as int == persp(c as int, z as int),
{
    let d: i64 = DIST - z;
    if d == 0 {
        if c > 0 {
            i64::MAX
        } else if c < 0 {
            i64::MIN
        } else {
            0
        }
    } else {
        proof {
            lemma_mul_bound(c as int, DIST as int, ROT_LIMIT as int, DIST as int);
        }
        let n: i128 = (c as i128) * (DIST as i128);
        let dd: i128 = if d > 0 {
            d as i128
        } else {
            -(d as i128)
        };
        proof {
            lemma_tdiv_bound(n as int, dd as int, ROT_LIMIT as int * DIST as int);
        }
        let qv: i128 = n / dd;
        if d > 0 {
            qv as i64
        } else {
            (-qv) as i64
        }
    }
}

/// The pixel scale of the frame.
fn frame_size_exec(rect: &CanvasRect, zoom_milli: i64) -> (s: i64)
    requires
        rect.wf(),
        ZOOM_MIN as int <= zoom_milli as int <= ZOOM_MAX as int,
    ensures
        s as int == frame_size(rect.w as int, rect.h as int, zoom_milli as int),
        0 <= s as int <= SIZE_LIMIT as int,
{
    let m: i64 = if rect.w <= rect.h {
        rect.w
    } else {
        rect.h
    };
    proof {
        lemma_mul_bound(m as int, zoom_milli as int, CANVAS_LIMIT as int, ZOOM_MAX as int);
        lemma_tdiv_bound(
            m as int * zoom_milli as int,
            4000,
            CANVAS_LIMIT as int * ZOOM_MAX as int,
        );
        assert(m as int * zoom_milli as int >= 0) by (nonlinear_arith)
            requires
                m >= 0,
                zoom_milli as int >= ZOOM_MIN as int,
                ZOOM_MIN == 200i64,
        ;
        vstd::arithmetic::div_mod::lemma_div_pos_is_pos(m as int * zoom_milli as int, 4000);
    }
    let p: i128 = (m as i128) * (zoom_milli as i128);
    let s: i128 = p / 4000;
    s as i64
}

/// One screen coordinate from a projected tick coordinate.  The argument
/// is a word wider than `i64` so that a saturated perspective image can
/// arrive negated.
fn screen_coord_exec(p: i128, size: i64, pan: i64, centre: i64) -> (r: i64)
    requires
        -(i64::MAX as int) - 1 <= p as int <= i64::MAX as int + 1,
        0 <= size as int <= SIZE_LIMIT as int,
        -(PAN_LIMIT as int) <= pan as int <= PAN_LIMIT as int,
        -(CANVAS_LIMIT as int) <= centre as int <= CANVAS_LIMIT as int,
    ensures
        r as int == screen_coord(p as int, size as int, pan as int, centre as int),
{
    proof {
        lemma_mul_bound(p as int, size as int, i64::MAX as int + 1, SIZE_LIMIT as int);
        lemma_tdiv_bound(
            p as int * size as int,
            SCALE as int,
            (i64::MAX as int + 1) * SIZE_LIMIT as int,
        );
    }
    let prod: i128 = p * (size as i128);
    let q: i128 = prod / (SCALE as i128);
    let s: i128 = (centre as i128) + (pan as i128) + q;
    if s < i64::MIN as i128 {
        i64::MIN
    } else if s > i64::MAX as i128 {
        i64::MAX
    } else {
        s as i64
    }
}

/// The screen image of one vertex at a given pixel scale.
fn vertex_point(q: &Quat, v: &Point3, size: i64, pan: &PanOffset, rect: &CanvasRect) -> (p: (
    i64,
    i64,
))
    requires
        q.wf(),
        v.within_limit(),
        0 <= size as int <= SIZE_LIMIT as int,
        -(PAN_LIMIT as int) <= pan.x as int <= PAN_LIMIT as int,
        -(PAN_LIMIT as int) <= pan.y as int <= PAN_LIMIT as int,
        rect.wf(),
    ensures
        (p.0 as int, p.1 as int) == project_sized(
            q@,
            point_view(*v),
            size as int,
            (pan.x as int, pan.y as int),
            (rect.cx as int, rect.cy as int),
        ),
{
    let r: (i64, i64, i64) = rotate_vertex(q, v);
    let px: i64 = persp_coord(r.0, r.2);
    let py: i64 = persp_coord(r.1, r.2);
    let sx: i64 = screen_coord_exec(px as i128, size, pan.x, rect.cx);
    let sy: i64 = screen_coord_exec(-(py as i128), size, pan.y, rect.cy);
    (sx, sy)
}

impl ViewerState {
    /// One screen segment per edge, in the edges' own order: each edge's
    /// endpoints projected under the current orientation, zoom and pan.
    pub fn project(&self, rect: &CanvasRect, edges: &EdgeSet) -> (segs: Vec<ScreenSegment>)
        requires
            self.wf(),
            rect.wf(),
            edges.wf(),
        ensures
            segs@.len() == edges.edges@.len(),
            forall|k: int|
                0 <= k < segs@.len() ==> #[trigger] segs@[k] == projected_segment(
                    *self,
                    *rect,
                    edges.edges@[k],
                ),
    {
        let size: i64 = frame_size_exec(rect, self.zoom_milli);
        let mut segs: Vec<ScreenSegment> = Vec::new();
        let mut i: usize = 0;
        while i < edges.edges.len()
            invariant
                self.wf(),
                rect.wf(),
                edges.wf(),
                size as int == frame_size(rect.w as int, rect.h as int, self.zoom_milli as int),
                0 <= size as int <= SIZE_LIMIT as int,
                0 <= i <= edges.edges@.len(),
                segs@.len() == i,
                forall|k: int|
                    0 <= k < i ==> #[trigger] segs@[k] == projected_segment(
                        *self,
                        *rect,
                        edges.edges@[k],
                    ),
            decreases edges.edges@.len() - i,
        {
            let e: Edge = edges.edges[i];
            let a: (i64, i64) = vertex_point(&self.orientation, &e.a, size, &self.pan, rect);
            let b: (i64, i64) = vertex_point(&self.orientation, &e.b, size, &self.pan, rect);
            segs.push(ScreenSegment { ax: a.0, ay: a.1, bx: b.0, by: b.1 });
            i += 1;
        }
        segs
    }
}

} // verus!
