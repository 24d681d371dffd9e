//! Fixed-point quaternions: the orientation state of the viewer and the
//! composition step that drag rotations apply to it.
//!
//! Components count `SCALE`-ths of a unit, so the identity rotation is
//! `(SCALE, 0, 0, 0)`.  The exact Hamilton product of two such quaternions
//! carries the scale `SCALE * SCALE`; one truncating division brings it
//! back, and a wide saturation bound at `QMAX` keeps the step total.

use vstd::prelude::*;
use crate::fixed::{SCALE, QMAX, tdiv, clip, lemma_mul_bound};

verus! {

/// A quaternion in fixed-point ticks of `1 / SCALE`.
#[derive(Clone, Copy, Debug, PartialEq, Eq, Structural)]
pub struct Quat {
    pub w: i64,
    pub x: i64,
    pub y: i64,
    pub z: i64,
}

impl View for Quat {
    type V = (int, int, int, int);

    open spec fn view(&self) -> (int, int, int, int) {
        (self.w as int, self.x as int, self.y as int, self.z as int)
    }
}

/// Every component within `[-m, m]`.
pub open spec fn qbounded(t: (int, int, int, int), m: int) -> bool {
    &&& -m <= t.0 <= m
    &&& -m <= t.1 <= m
    &&& -m <= t.2 <= m
    &&& -m <= t.3 <= m
}

/// The exact Hamilton product; the scale of the result is the product of
/// the scales of the factors.
pub open spec fn qmul(a: (int, int, int, int), b: (int, int, int, int)) -> (int, int, int, int) {
    (
        a.0 * b.0 - a.1 * b.1 - a.2 * b.2 - a.3 * b.3,
        a.0 * b.1 + a.1 * b.0 + a.2 * b.3 - a.3 * b.2,
        a.0 * b.2 - a.1 * b.3 + a.2 * b.0 + a.3 * b.1,
        a.0 * b.3 + a.1 * b.2 - a.2 * b.1 + a.3 * b.0,
    )
}


/// The conjugate.  For a unit quaternion it is the inverse rotation, so
/// the sandwich `q · (0, v) · conj(q)` rotates the vector `v` by `q`.
pub open spec fn qconj(q: (int, int, int, int)) -> (int, int, int, int) {
    (q.0, -q.1, -q.2, -q.3)
}


/// One component after the scaling division and the saturation bound.
pub open spec fn fix_part(c: int) -> int {
    clip(tdiv(c, SCALE as int), -(QMAX as int), QMAX as int)
}

/// Bring a product of two `SCALE`-scaled quaternions back to scale.
pub open spec fn qfix(t: (int, int, int, int)) -> (int, int, int, int) {
    (fix_part(t.0), fix_part(t.1), fix_part(t.2), fix_part(t.3))
}

/// Rotation about the world Y axis: `c` and `s` are the cosine and sine of
/// half the yaw angle, in ticks.
pub open spec fn yaw_quat(c: int, s: int) -> (int, int, int, int) {
    (c, 0, s, 0)
}

/// Rotation about the world X axis: `c` and `s` are the cosine and sine of
/// half the pitch angle, in ticks.
pub open spec fn pitch_quat(c: int, s: int) -> (int, int, int, int) {
    (c, s, 0, 0)
}

/// The per-frame drag rotation: yaw times pitch, brought back to scale.
pub open spec fn rot_quat(yc: int, ys: int, pc: int, ps: int) -> (int, int, int, int) {
    qfix(qmul(yaw_quat(yc, ys), pitch_quat(pc, ps)))
}


/// A drag with no pitch rotates by its yaw alone: against the identity
/// pitch quaternion the per-frame drag rotation is exactly the yaw
/// quaternion, the truncating rescale notwithstanding.
pub proof fn lemma_yaw_only_rot(c: int, s: int)
    requires
        -(SCALE as int) <= c <= SCALE as int,
        -(SCALE as int) <= s <= SCALE as int,
    ensures
        rot_quat(c, s, SCALE as int, 0) == yaw_quat(c, s),
{
    let p = qmul(yaw_quat(c, s), pitch_quat(SCALE as int, 0));
    assert(p == (c * SCALE as int, 0int, s * SCALE as int, 0int));
    lemma_tdiv_multiple(c);
    lemma_tdiv_multiple(s);
    lemma_tdiv_multiple(0);
}

/// Dividing `c * SCALE` by `SCALE`, truncating, gives back `c`; within
/// the saturation bound the clip leaves it alone.
proof fn lemma_tdiv_multiple(c: int)
    requires
        -(SCALE as int) <= c <= SCALE as int,
    ensures
        fix_part(c * SCALE as int) == c,
{
    if c >= 0 {
        assert(c * SCALE as int >= 0) by (nonlinear_arith)
            requires
                c >= 0,
        ;
        vstd::arithmetic::div_mod::lemma_div_multiples_vanish(c, SCALE as int);
    } else {
        assert((c * SCALE as int) < 0 && -(c * SCALE as int) == (-c) * SCALE as int)
            by (nonlinear_arith)
            requires
                c < 0,
        ;
        vstd::arithmetic::div_mod::lemma_div_multiples_vanish(-c, SCALE as int);
    }
}

/// What one drag frame does to the orientation: the drag rotation is
/// composed on the left, in world space.
pub open spec fn rot_step(yc: int, ys: int, pc: int, ps: int, q: (int, int, int, int)) -> (
    int,
    int,
    int,
    int,
) {
    qfix(qmul(rot_quat(yc, ys, pc, ps), q))
}

impl Quat {
    /// All components within the saturation bound.
    pub open spec fn wf(&self) -> bool {
        qbounded(self@, QMAX as int)
    }

    /// The identity rotation.
    pub fn identity() -> (r: Quat)
        ensures
            r@ == (SCALE as int, 0int, 0int, 0int),
            r.wf(),
    {
        Quat { w: SCALE, x: 0, y: 0, z: 0 }
    }
}

/// Divide a wide product component by `SCALE` and saturate at `QMAX`.
fn fix_scaled(c: i128) -> (r: i64)
    ensures
        r as int == fix_part(c as int),
{
    let t: i128 = c / (SCALE as i128);
    let r: i128 = if t < -(QMAX as i128) {
        -(QMAX as i128)
    } else if t > QMAX as i128 {
        QMAX as i128
    } else {
        t
    };
    r as i64
}

/// The Hamilton product of `a` and `b`, divided by `SCALE` and saturated
/// at `QMAX`, component by component.  The left factor must be within the
/// saturation bound; the right factor may be anything representable.
pub fn quat_mul(a: &Quat, b: &Quat) -> (r: Quat)
    requires
        a.wf(),
    ensures
        r@ == qfix(qmul(a@, b@)),
        r.wf(),
{
    let aw: i128 = a.w as i128;
    let ax: i128 = a.x as i128;
    let ay: i128 = a.y as i128;
    let az: i128 = a.z as i128;
    let bw: i128 = b.w as i128;
    let bx: i128 = b.x as i128;
    let by: i128 = b.y as i128;
    let bz: i128 = b.z as i128;
    proof {
        let m: int = QMAX as int;
        let n: int = 0x8000_0000_0000_0000;
        lemma_mul_bound(a.w as int, b.w as int, m, n);
        lemma_mul_bound(a.w as int, b.x as int, m, n);
        lemma_mul_bound(a.w as int, b.y as int, m, n);
        lemma_mul_bound(a.w as int, b.z as int, m, n);
        lemma_mul_bound(a.x as int, b.w as int, m, n);
        lemma_mul_bound(a.x as int, b.x as int, m, n);
        lemma_mul_bound(a.x as int, b.y as int, m, n);
        lemma_mul_bound(a.x as int, b.z as int, m, n);
        lemma_mul_bound(a.y as int, b.w as int, m, n);
        lemma_mul_bound(a.y as int, b.x as int, m, n);
        lemma_mul_bound(a.y as int, b.y as int, m, n);
        lemma_mul_bound(a.y as int, b.z as int, m, n);
        lemma_mul_bound(a.z as int, b.w as int, m, n);
        lemma_mul_bound(a.z as int, b.x as int, m, n);
        lemma_mul_bound(a.z as int, b.y as int, m, n);
        lemma_mul_bound(a.z as int, b.z as int, m, n);
    }
    let cw: i128 = aw * bw - ax * bx - ay * by - az * bz;
    let cx: i128 = aw * bx + ax * bw + ay * bz - az * by;
    let cy: i128 = aw * by - ax * bz + ay * bw + az * bx;
    let cz: i128 = aw * bz + ax * by - ay * bx + az * bw;
    Quat { w: fix_scaled(cw), x: fix_scaled(cx), y: fix_scaled(cy), z: fix_scaled(cz) }
}

} // verus!
