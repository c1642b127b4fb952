//! What the input source reports for one player during one tick.

use vstd::prelude::*;

verus! {

/// A logical player action, independent of the device that triggers it.
#[derive(Clone, Copy, Debug, PartialEq, Eq, Hash, Structural)]
pub enum PlayerActions {
    /// Horizontal movement, driven by an axis.
    Move,
    /// A jump, driven by a button.
    Jump,
}

/// One sample of the horizontal input axis, counted in steps of `1 / UNIT`.
///
/// Full deflection to the right is `UNIT` steps and full deflection to the
/// left is `-UNIT` steps. Samples beyond full deflection are representable
/// and are not clamped anywhere in this crate.
#[derive(Clone, Copy, Debug, PartialEq, Eq, Hash, Structural)]
pub struct Axis {
    pub steps: i32,
}

impl View for Axis {
    type V = int;

    open spec fn view(&self) -> int {
        self.steps as int
    }
}

/// The input of one player for one tick.
#[derive(Clone, Debug)]
pub struct InputState {
    /// The horizontal axis sample, or `None` when the source has no sample
    /// for this player.
    pub axis: Option<Axis>,
    /// The actions that went from released to pressed during this tick.
    pub just_pressed: Vec<PlayerActions>,
}

impl InputState {
    /// An input with the given axis sample and no action pressed.
    pub fn new(axis: Option<Axis>) -> (input: InputState)
        ensures
            input.axis == axis,
            input.just_pressed@ == Seq::<PlayerActions>::empty(),
    {
        InputState { axis, just_pressed: Vec::new() }
    }

    /// Records that `action` went from released to pressed during this tick.
    pub fn press(&mut self, action: PlayerActions)
        ensures
            final(self).axis == old(self).axis,
            final(self).just_pressed@ == old(self).just_pressed@.push(action),
    {
        self.just_pressed.push(action);
    }

    /// Whether `action` went from released to pressed during this tick.
    pub fn just_pressed(&self, action: PlayerActions) -> (pressed: bool)
        ensures
            pressed == self.just_pressed@.contains(action),
    {
        let mut i: usize = 0;
        while i < self.just_pressed.len()
            invariant
                i <= self.just_pressed.len(),
                forall|k: int| 0 <= k < i ==> self.just_pressed@[k] != action,
            decreases self.just_pressed.len() - i,
        {
            if self.just_pressed[i] == action {
                return true;
            }
            i += 1;
        }
        false
    }
}

impl Default for InputState {
    /// An input without an axis sample and with no action pressed.
    fn default() -> (input: InputState)
        ensures
            input.axis is None,
            input.just_pressed@ == Seq::<PlayerActions>::empty(),
    {
        InputState::new(None)
    }
}

} // verus!
