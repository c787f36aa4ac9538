//! A symbolic 3D rotation: an ordered composition of two axis rotations.
//!
//! The accumulator reports its orientation as data — which axis each
//! elemental rotation turns about, by how many microradians, and in which
//! order they compose. Evaluating the composition numerically (for example
//! to a quaternion) is the hosting engine's concern; keeping the angles and
//! the order exact is this library's.

use vstd::prelude::*;

verus! {

/// An axis of the local coordinate frame.
#[derive(Clone, Copy, Debug, PartialEq, Eq, Structural)]
pub enum Axis {
    /// The lateral (side-to-side) axis; pitch turns about it.
    X,
    /// The vertical (up) axis; yaw turns about it.
    Y,
}

/// One elemental rotation: an angle in microradians about one axis.
#[derive(Clone, Copy, Debug, PartialEq, Eq, Structural)]
pub struct AxisAngle {
    pub axis: Axis,
    pub angle: i64,
}

/// Two elemental rotations composed in a fixed order: `inner` is applied
/// first, `outer` last.
#[derive(Clone, Copy, Debug, PartialEq, Eq, Structural)]
pub struct Rotation {
    pub inner: AxisAngle,
    pub outer: AxisAngle,
}

/// The orientation a yaw and a pitch denote: pitch about X applied first,
/// yaw about Y applied last. This order is load-bearing — the reverse would
/// yaw about an already pitched axis and introduce a roll artifact.
pub open spec fn rotation_from_angles(yaw: i64, pitch: i64) -> Rotation {
    Rotation {
        inner: AxisAngle { axis: Axis::X, angle: pitch },
        outer: AxisAngle { axis: Axis::Y, angle: yaw },
    }
}

/// Composition order matters: for a turned yaw and pitch, composing pitch
/// first and yaw last is a different rotation than the other way around.
pub proof fn lemma_composition_order_matters(yaw: i64, pitch: i64)
    requires
        yaw != 0,
        pitch != 0,
    ensures
        rotation_from_angles(yaw, pitch) != (Rotation {
            inner: AxisAngle { axis: Axis::Y, angle: yaw },
            outer: AxisAngle { axis: Axis::X, angle: pitch },
        }),
{
}

} // verus!
