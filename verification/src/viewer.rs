//! The interaction state of the viewer and its per-frame update: left
//! drags rotate, right drags pan, scrolling zooms within fixed bounds.

use vstd::prelude::*;
use crate::fixed::{SCALE, PAN_LIMIT, tdiv, clip, lemma_mul_bound};
use crate::quat::{Quat, rot_step, qbounded, quat_mul};

verus! {

/// Smallest zoom factor, in thousandths.
pub const ZOOM_MIN: i64 = 200;

/// Largest zoom factor, in thousandths.
pub const ZOOM_MAX: i64 = 5000;

/// The zoom factor at rest, in thousandths.
pub const ZOOM_ONE: i64 = 1000;

/// A scroll of `s` milli-pixels multiplies the zoom by
/// `(SCROLL_DEN + s) / SCROLL_DEN`.
pub const SCROLL_DEN: i64 = 1_000_000;

/// The accumulated pan, in milli-pixels of screen space.
#[derive(Clone, Copy, Debug, PartialEq, Eq, Structural)]
pub struct PanOffset {
    pub x: i64,
    pub y: i64,
}

/// The pointer input of one frame.  Drag deltas and the scroll delta are
/// in milli-pixels; the four trig fields carry the cosine and sine, in
/// `SCALE`-ths, of half the yaw and pitch angles that the host derives
/// from the drag delta (the library cannot evaluate trigonometry itself).
#[derive(Clone, Copy, Debug, PartialEq, Eq, Structural)]
pub struct FrameInput {
    pub dragged: bool,
    pub primary_down: bool,
    pub secondary_down: bool,
    pub drag_dx: i64,
    pub drag_dy: i64,
    pub yaw_cos: i64,
    pub yaw_sin: i64,
    pub pitch_cos: i64,
    pub pitch_sin: i64,
    pub scroll_y: i64,
}

impl FrameInput {
    /// Trig fields lie within one unit, as genuine cosines and sines do.
    pub open spec fn wf(&self) -> bool {
        &&& -(SCALE as int) <= self.yaw_cos as int <= SCALE as int
        &&& -(SCALE as int) <= self.yaw_sin as int <= SCALE as int
        &&& -(SCALE as int) <= self.pitch_cos as int <= SCALE as int
        &&& -(SCALE as int) <= self.pitch_sin as int <= SCALE as int
    }

    /// This frame rotates: a drag with the primary button down.  The
    /// primary button takes precedence over the secondary one.
    pub open spec fn rotating(&self) -> bool {
        self.dragged && self.primary_down
    }

    /// This frame pans: a drag with only the secondary button down.
    pub open spec fn panning(&self) -> bool {
        self.dragged && !self.primary_down && self.secondary_down
    }
}

/// One scroll step: multiply by `(SCROLL_DEN + s) / SCROLL_DEN` and clamp
/// into the zoom range.
pub open spec fn zoom_step(z: int, s: int) -> int {
    clip(tdiv(z * (SCROLL_DEN as int + s), SCROLL_DEN as int), ZOOM_MIN as int, ZOOM_MAX as int)
}

/// One pan step: add the drag delta, saturating far outside any screen.
pub open spec fn pan_step(p: int, d: int) -> int {
    clip(p + d, -(PAN_LIMIT as int), PAN_LIMIT as int)
}

/// The whole interaction state: orientation, pan and zoom.
#[derive(Clone, Copy, Debug, PartialEq, Eq, Structural)]
pub struct ViewerState {
    pub orientation: Quat,
    pub pan: PanOffset,
    pub zoom_milli: i64,
}

impl ViewerState {
    /// Orientation components within bounds, zoom within its range, pan
    /// within its saturation bound.
    pub open spec fn wf(&self) -> bool {
        &&& self.orientation.wf()
        &&& ZOOM_MIN as int <= self.zoom_milli as int <= ZOOM_MAX as int
        &&& -(PAN_LIMIT as int) <= self.pan.x as int <= PAN_LIMIT as int
        &&& -(PAN_LIMIT as int) <= self.pan.y as int <= PAN_LIMIT as int
    }

    /// The rest state: identity orientation, no pan, zoom one.
    pub fn new() -> (s: Self)
        ensures
            s.orientation@ == (SCALE as int, 0int, 0int, 0int),
            s.pan.x == 0 && s.pan.y == 0,
            s.zoom_milli == ZOOM_ONE,
            s.wf(),
    {
        ViewerState {
            orientation: Quat::identity(),
            pan: PanOffset { x: 0, y: 0 },
            zoom_milli: ZOOM_ONE,
        }
    }

    /// Consume one frame of pointer input.
    ///
    /// A primary drag composes the drag rotation onto the orientation on
    /// the left and leaves the pan alone; a secondary drag adds the delta
    /// to the pan and leaves the orientation alone; the primary button
    /// wins when both are down; with no drag, both stay put.  A non-zero
    /// scroll rescales the zoom within its bounds, whatever the drag did.
    /// No input at all leaves the state exactly as it was.
    pub fn update(&mut self, input: &FrameInput)
        requires
            old(self).wf(),
            input.wf(),
        ensures
            final(self).wf(),
            input.rotating() ==> final(self).orientation@ == rot_step(
                input.yaw_cos as int,
                input.yaw_sin as int,
                input.pitch_cos as int,
                input.pitch_sin as int,
                old(self).orientation@,
            ) && final(self).pan == old(self).pan,
            input.panning() ==> final(self).pan.x as int == pan_step(
                old(self).pan.x as int,
                input.drag_dx as int,
            ) && final(self).pan.y as int == pan_step(old(self).pan.y as int, input.drag_dy as int)
                && final(self).orientation == old(self).orientation,
            !input.rotating() && !input.panning() ==> final(self).orientation == old(self).orientation
                && final(self).pan == old(self).pan,
            input.scroll_y != 0 ==> final(self).zoom_milli as int == zoom_step(
                old(self).zoom_milli as int,
                input.scroll_y as int,
            ),
            input.scroll_y == 0 ==> final(self).zoom_milli == old(self).zoom_milli,
            !input.dragged && input.scroll_y == 0 ==> *final(self) == *old(self),
    {
        if input.dragged {
            if input.primary_down {
                let yawq = Quat { w: input.yaw_cos, x: 0, y: input.yaw_sin, z: 0 };
                let pitchq = Quat { w: input.pitch_cos, x: input.pitch_sin, y: 0, z: 0 };
                let r = quat_mul(&yawq, &pitchq);
                self.orientation = quat_mul(&r, &self.orientation);
            } else if input.secondary_down {
                self.pan.x = pan_add(self.pan.x, input.drag_dx);
                self.pan.y = pan_add(self.pan.y, input.drag_dy);
            }
        }
        if input.scroll_y != 0 {
            self.zoom_milli = zoom_apply(self.zoom_milli, input.scroll_y);
        }
    }
}

/// Add a drag delta to one pan coordinate, saturating at `PAN_LIMIT`.
fn pan_add(p: i64, d: i64) -> (r: i64)
    ensures
        r as int == pan_step(p as int, d as int),
{
    let s: i128 = p as i128 + d as i128;
    if s < -(PAN_LIMIT as i128) {
        -PAN_LIMIT
    } else if s > PAN_LIMIT as i128 {
        PAN_LIMIT
    } else {
        s as i64
    }
}

/// Apply one scroll step to the zoom factor.
fn zoom_apply(z: i64, s: i64) -> (r: i64)
    requires
        ZOOM_MIN as int <= z as int <= ZOOM_MAX as int,
    ensures
        r as int == zoom_step(z as int, s as int),
{
    proof {
        lemma_mul_bound(
            z as int,
            SCROLL_DEN as int + s as int,
            ZOOM_MAX as int,
            0x8000_0000_0000_0000 + SCROLL_DEN as int,
        );
    }
    let f: i128 = (SCROLL_DEN as i128) + (s as i128);
    let p: i128 = (z as i128) * f;
    let t: i128 = p / (SCROLL_DEN as i128);
    if t < ZOOM_MIN as i128 {
        ZOOM_MIN
    } else if t > ZOOM_MAX as i128 {
        ZOOM_MAX
    } else {
        t as i64
    }
}

} // verus!
