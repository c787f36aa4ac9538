//! The closed set of input events a hosting engine hands to these scripts.
//!
//! The host translates its own event representation into this tagged type at
//! the boundary, so the scripts' logic stays free of any host-specific shape.
//! Motion deltas are relative pointer offsets in microradians; button changes
//! carry the button and whether it just became pressed.

use vstd::prelude::*;

verus! {

/// The buttons a click counter tells apart.
#[derive(Clone, Copy, Debug, PartialEq, Eq, Structural)]
pub enum Button {
    Primary,
    Secondary,
    Other,
}

/// One input event, already translated out of the host's representation.
#[derive(Clone, Copy, Debug, PartialEq, Eq, Structural)]
pub enum InputEvent {
    /// Relative pointer motion since the last sample, in microradians.
    MotionDelta { dx: i64, dy: i64 },
    /// A button entering (`pressed` true) or leaving the pressed state.
    ButtonChange { button: Button, pressed: bool },
}

} // verus!
