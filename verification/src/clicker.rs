//! The click-counting script: tallies signed presses of two buttons.
//!
//! A press of the secondary button raises the counter by one, a press of the
//! primary button lowers it by one, and any other button — or a release —
//! leaves it alone. Edge detection is the event stream's responsibility:
//! the counter reacts to discrete press notifications, not to polling.

use vstd::prelude::*;

verus! {

use crate::event::{Button, InputEvent};

/// The stable type identifier under which a host registers [`Clicker`].
pub const CLICKER_TYPE_ID: u128 = 0xabbad54c_e267_4d7e_a3cd_e125a7e87ff1;

/// A signed tally of button presses.
#[derive(Clone, Copy, Debug)]
pub struct Clicker {
    counter: i64,
}

/// The counter value one press leaves behind: primary lowers, secondary
/// raises, anything else is a no-op.
pub open spec fn press_effect(c: int, b: Button) -> int {
    match b {
        Button::Primary => c - 1,
        Button::Secondary => c + 1,
        Button::Other => c,
    }
}

/// The counter value one event leaves behind: only a button entering the
/// pressed state counts; releases and motion change nothing.
pub open spec fn click_effect(c: int, e: InputEvent) -> int {
    match e {
        InputEvent::ButtonChange { button, pressed } => if pressed {
            press_effect(c, button)
        } else {
            c
        },
        InputEvent::MotionDelta { .. } => c,
    }
}

/// A run of presses folded over a starting counter value.
pub open spec fn run_presses(c: int, bs: Seq<Button>) -> int
    decreases bs.len(),
{
    if bs.len() == 0 {
        c
    } else {
        run_presses(press_effect(c, bs[0]), bs.subrange(1, bs.len() as int))
    }
}

/// How many presses of `b` a run contains.
pub open spec fn count_presses(bs: Seq<Button>, b: Button) -> int
    decreases bs.len(),
{
    if bs.len() == 0 {
        0
    } else {
        (if bs[0] == b {
            1int
        } else {
            0int
        }) + count_presses(bs.subrange(1, bs.len() as int), b)
    }
}

/// Any run of presses lands exactly at the starting value plus the count of
/// secondary presses minus the count of primary presses; presses of other
/// buttons never change the tally.
pub proof fn lemma_tally(c: int, bs: Seq<Button>)
    ensures
        run_presses(c, bs) == c + count_presses(bs, Button::Secondary) - count_presses(
            bs,
            Button::Primary,
        ),
    decreases bs.len(),
{
    if bs.len() > 0 {
        lemma_tally(press_effect(c, bs[0]), bs.subrange(1, bs.len() as int));
    }
}

/// Three primary presses and one secondary press, in any interleaving with
/// any number of other presses, leave a fresh counter at minus two.
pub proof fn lemma_three_primary_one_secondary(bs: Seq<Button>)
    requires
        count_presses(bs, Button::Primary) == 3,
        count_presses(bs, Button::Secondary) == 1,
    ensures
        run_presses(0, bs) == -2,
{
    lemma_tally(0, bs);
}

impl Clicker {
    /// The current tally.
    pub closed spec fn count(self) -> int {
        self.counter as int
    }

    /// A fresh counter, at zero.
    pub fn new() -> (c: Clicker)
        ensures
            c.count() == 0,
    {
        Clicker { counter: 0 }
    }

    /// A counter restored from a persisted tally, as a host's load path
    /// needs: the counter's one scalar field is its entire saved state.
    pub fn from_count(counter: i64) -> (c: Clicker)
        ensures
            c.count() == counter,
    {
        Clicker { counter }
    }

    /// Tallies one discrete press. Only the change the press dictates is
    /// asked to fit in the machine word.
    pub fn on_press(&mut self, button: Button)
        requires
            i64::MIN <= press_effect(old(self).count(), button) <= i64::MAX,
        ensures
            final(self).count() == press_effect(old(self).count(), button),
    {
        match button {
            Button::Primary => {
                self.counter = self.counter - 1;
            },
            Button::Secondary => {
                self.counter = self.counter + 1;
            },
            Button::Other => (),
        }
    }

    /// Reacts to one host event: a button entering the pressed state is
    /// tallied, everything else is ignored.
    pub fn on_os_event(&mut self, event: &InputEvent)
        requires
            i64::MIN <= click_effect(old(self).count(), *event) <= i64::MAX,
        ensures
            final(self).count() == click_effect(old(self).count(), *event),
    {
        match event {
            InputEvent::ButtonChange { button, pressed } => {
                if *pressed {
                    self.on_press(*button);
                }
            },
            InputEvent::MotionDelta { .. } => (),
        }
    }

    /// The current tally.
    pub fn value(&self) -> (v: i64)
        ensures
            v as int == self.count(),
    {
        self.counter
    }

    /// The stable identifier a host registers this script type under.
    pub fn id(&self) -> (r: u128)
        ensures
            r == CLICKER_TYPE_ID,
    {
        CLICKER_TYPE_ID
    }
}

} // verus!
