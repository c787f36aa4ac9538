//! The mouse-look script: accumulates yaw and pitch from pointer-motion
//! deltas and reports the orientation they denote.
//!
//! Yaw is unbounded and never clamped; pitch is clamped into the closed
//! range from `-HALF_PI_MICRORAD` to `HALF_PI_MICRORAD` immediately after
//! every update, so the view can never invert past straight up or down.

use vstd::prelude::*;

verus! {

use crate::angle::{clamp_angle, clamp_to_pitch_range, lemma_clamp_idempotent,
    lemma_clamp_of_in_range, HALF_PI_MICRORAD};
use crate::event::InputEvent;
use crate::rotation::{rotation_from_angles, Axis, Rotation};

/// The stable type identifier under which a host registers [`Player`].
pub const PLAYER_TYPE_ID: u128 = 0xabbad54c_e267_4d7e_a3cd_e125a7e87ff0;

/// A mouse-look orientation accumulator: yaw and pitch in microradians.
#[derive(Clone, Copy, Debug)]
pub struct Player {
    yaw: i64,
    pitch: i64,
}

/// The state a motion event leaves a `(yaw, pitch)` pair in: a motion delta
/// adds to yaw and clamps the raised pitch; a button change leaves both as
/// they were.
pub open spec fn motion_effect(yaw: int, pitch: int, e: InputEvent) -> (int, int) {
    match e {
        InputEvent::MotionDelta { dx, dy } => (yaw + dx, clamp_angle(pitch + dy)),
        InputEvent::ButtonChange { .. } => (yaw, pitch),
    }
}

/// Whether the yaw a motion event would accumulate still fits in an `i64`.
/// Button changes never touch yaw, so they always fit.
pub open spec fn motion_yaw_fits(yaw: int, e: InputEvent) -> bool {
    match e {
        InputEvent::MotionDelta { dx, .. } => i64::MIN <= yaw + dx <= i64::MAX,
        InputEvent::ButtonChange { .. } => true,
    }
}

impl Player {
    /// The accumulated yaw, in microradians.
    pub closed spec fn yaw_angle(self) -> int {
        self.yaw as int
    }

    /// The accumulated pitch, in microradians.
    pub closed spec fn pitch_angle(self) -> int {
        self.pitch as int
    }

    /// The invariant every constructor establishes and every update keeps:
    /// pitch lies in the legal range.
    pub open spec fn wf(self) -> bool {
        -HALF_PI_MICRORAD <= self.pitch_angle() <= HALF_PI_MICRORAD
    }

    /// The orientation the current angles denote.
    pub closed spec fn spec_rotation(self) -> Rotation {
        rotation_from_angles(self.yaw, self.pitch)
    }

    /// A player looking straight ahead: both angles at zero.
    pub fn new() -> (p: Player)
        ensures
            p.yaw_angle() == 0,
            p.pitch_angle() == 0,
            p.wf(),
    {
        Player { yaw: 0, pitch: 0 }
    }

    /// A player at a caller-supplied initial orientation. The supplied pitch
    /// is clamped into the legal range so the invariant holds from birth.
    pub fn from_angles(yaw: i64, pitch: i64) -> (p: Player)
        ensures
            p.yaw_angle() == yaw,
            p.pitch_angle() == clamp_angle(pitch as int),
            p.wf(),
    {
        Player { yaw, pitch: clamp_to_pitch_range(pitch) }
    }

    /// Accumulates one motion delta: yaw grows by `dx` unclamped, and pitch
    /// grows by `dy` and is clamped at once into the legal range. Any `dy`
    /// is accepted; `dx` only needs the grown yaw to fit the machine word.
    pub fn apply_delta(&mut self, dx: i64, dy: i64)
        requires
            i64::MIN <= old(self).yaw_angle() + dx <= i64::MAX,
        ensures
            final(self).yaw_angle() == old(self).yaw_angle() + dx,
            final(self).pitch_angle() == clamp_angle(old(self).pitch_angle() + dy),
            final(self).wf(),
    {
        if dy >= 0 {
            if self.pitch >= HALF_PI_MICRORAD - dy {
                self.pitch = HALF_PI_MICRORAD;
            } else {
                self.pitch = clamp_to_pitch_range(self.pitch + dy);
            }
        } else {
            if self.pitch <= -HALF_PI_MICRORAD - dy {
                self.pitch = -HALF_PI_MICRORAD;
            } else {
                self.pitch = clamp_to_pitch_range(self.pitch + dy);
            }
        }
        self.yaw = self.yaw + dx;
    }

    /// Reacts to one host event: motion deltas are accumulated, everything
    /// else is ignored.
    pub fn on_os_event(&mut self, event: &InputEvent)
        requires
            motion_yaw_fits(old(self).yaw_angle(), *event),
        ensures
            final(self).yaw_angle() == motion_effect(
                old(self).yaw_angle(), old(self).pitch_angle(), *event).0,
            final(self).pitch_angle() == motion_effect(
                old(self).yaw_angle(), old(self).pitch_angle(), *event).1,
            old(self).wf() ==> final(self).wf(),
    {
        match event {
            InputEvent::MotionDelta { dx, dy } => self.apply_delta(*dx, *dy),
            InputEvent::ButtonChange { .. } => (),
        }
    }

    /// The orientation denoted by the current angles, recomputed fresh on
    /// every call: pitch about X applied first, yaw about Y applied last.
    /// The result is a function of the state alone, so querying twice with
    /// no intervening update yields identical rotations.
    pub fn current_rotation(&self) -> (r: Rotation)
        ensures
            r == self.spec_rotation(),
            r.inner.axis == Axis::X,
            r.inner.angle as int == self.pitch_angle(),
            r.outer.axis == Axis::Y,
            r.outer.angle as int == self.yaw_angle(),
    {
        Rotation {
            inner: crate::rotation::AxisAngle { axis: Axis::X, angle: self.pitch },
            outer: crate::rotation::AxisAngle { axis: Axis::Y, angle: self.yaw },
        }
    }

    /// The stable identifier a host registers this script type under.
    pub fn id(&self) -> (r: u128)
        ensures
            r == PLAYER_TYPE_ID,
    {
        PLAYER_TYPE_ID
    }
}

/// A run of motion deltas folded over a `(yaw, pitch)` pair, clamping pitch
/// after every step, as `apply_delta` does.
pub open spec fn run_deltas(yaw: int, pitch: int, ds: Seq<(int, int)>) -> (int, int)
    decreases ds.len(),
{
    if ds.len() == 0 {
        (yaw, pitch)
    } else {
        run_deltas(yaw + ds[0].0, clamp_angle(pitch + ds[0].1), ds.subrange(1, ds.len() as int))
    }
}

/// After any non-empty run of deltas — whatever pitch it started from —
/// the pitch lies in the legal range: the clamp invariant is never violated.
pub proof fn lemma_pitch_always_in_range(yaw: int, pitch: int, ds: Seq<(int, int)>)
    requires
        ds.len() > 0,
    ensures
        -HALF_PI_MICRORAD <= run_deltas(yaw, pitch, ds).1 <= HALF_PI_MICRORAD,
    decreases ds.len(),
{
    let rest = ds.subrange(1, ds.len() as int);
    if rest.len() == 0 {
        assert(run_deltas(yaw + ds[0].0, clamp_angle(pitch + ds[0].1), rest)
            == (yaw + ds[0].0, clamp_angle(pitch + ds[0].1)));
    } else {
        lemma_pitch_always_in_range(yaw + ds[0].0, clamp_angle(pitch + ds[0].1), rest);
    }
}

/// Independent axes commute: a pure-yaw delta and a pure-pitch delta land in
/// the same state in either order, provided the starting pitch is legal.
pub proof fn lemma_independent_deltas_commute(yaw: int, pitch: int, dx: int, dy: int)
    requires
        -HALF_PI_MICRORAD <= pitch <= HALF_PI_MICRORAD,
    ensures
        run_deltas(yaw, pitch, seq![(dx, 0int), (0int, dy)])
            == run_deltas(yaw, pitch, seq![(0int, dy), (dx, 0int)]),
{
    reveal_with_fuel(run_deltas, 4);
    let first = seq![(dx, 0int), (0int, dy)];
    let second = seq![(0int, dy), (dx, 0int)];
    lemma_clamp_of_in_range(pitch);
    lemma_clamp_idempotent(pitch + dy);
    assert(first.subrange(1, 2)[0] == (0int, dy));
    assert(second.subrange(1, 2)[0] == (dx, 0int));
    assert(first.subrange(1, 2).subrange(1, 1).len() == 0);
    assert(second.subrange(1, 2).subrange(1, 1).len() == 0);
}

} // verus!
