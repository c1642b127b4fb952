//! The player as one plain aggregate.

use vstd::prelude::*;
use crate::input::{InputState, PlayerActions};
use crate::movement::{movement_request, pending, requested_for, Displacement};

verus! {

/// Everything that makes up the player: a display name, the input of the
/// current tick and the displacement request that awaits the character
/// controller.
#[derive(Clone, Debug)]
pub struct PlayerBundle {
    pub name: String,
    pub input: InputState,
    pub request: Option<Displacement>,
}

/// What one tick does to a player: name and input stay, and the request is
/// the one owed for the input, or none where the input has no axis sample.
pub open spec fn ticked(before: PlayerBundle, after: PlayerBundle) -> bool {
    &&& after.name == before.name
    &&& after.input == before.input
    &&& pending(after.request) == requested_for(before.input)
}

impl PlayerBundle {
    /// A player with the given name, no input yet and no request pending.
    pub fn new(name: String) -> (player: PlayerBundle)
        ensures
            player.name@ == name@,
            player.input.axis is None,
            player.input.just_pressed@ == Seq::<PlayerActions>::empty(),
            player.request is None,
    {
        PlayerBundle { name, input: InputState::new(None), request: None }
    }

    /// Runs one tick: the pending request is replaced by the request for the
    /// current input, whatever was pending before. Without an axis sample no
    /// request is left pending, so the player does not move.
    pub fn update(&mut self)
        ensures
            ticked(*old(self), *final(self)),
    {
        self.request = movement_request(&self.input);
    }
}

impl Default for PlayerBundle {
    /// A player without a name, with no input yet and no request pending.
    fn default() -> (player: PlayerBundle)
        ensures
            player.name@ == Seq::<char>::empty(),
            player.input.axis is None,
            player.input.just_pressed@ == Seq::<PlayerActions>::empty(),
            player.request is None,
    {
        PlayerBundle::new(String::new())
    }
}

/// Nothing is carried over from one tick to the next: after a tick, two
/// players with the same input have the same request pending, whatever was
/// pending for either of them before.
pub proof fn lemma_tick_overwrites_request(
    before: PlayerBundle,
    after: PlayerBundle,
    other_before: PlayerBundle,
    other_after: PlayerBundle,
)
    requires
        ticked(before, after),
        ticked(other_before, other_after),
        before.input == other_before.input,
    ensures
        after.request == other_after.request,
{
}

/// A tick changes nothing but the request, so a second tick on the same
/// input leaves the player as the first one did.
pub proof fn lemma_second_tick_changes_nothing(
    before: PlayerBundle,
    once: PlayerBundle,
    twice: PlayerBundle,
)
    requires
        ticked(before, once),
        ticked(once, twice),
    ensures
        twice == once,
{
}

} // verus!
