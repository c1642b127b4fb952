//! The movement resolver: from one tick's input to one displacement request.

use vstd::prelude::*;
use crate::input::{Axis, InputState, PlayerActions};

verus! {

/// Number of fixed-point steps that make up one whole unit.
pub const UNIT: i64 = 65_536;

/// Distance units moved per tick at full axis deflection.
pub const HORIZONTAL_SPEED: i64 = 15;

/// Distance units requested upwards on the tick a jump is pressed.
pub const JUMP_IMPULSE: i64 = 150;

/// Distance units requested vertically on every tick without a jump. It is
/// negative: the player is always pushed towards the ground.
pub const GRAVITY_BIAS: i64 = -2;

/// A displacement request for one tick, in steps of `1 / UNIT` of a distance
/// unit. Positive `dx` points right and positive `dy` points up.
#[derive(Clone, Copy, Debug, PartialEq, Eq, Hash, Structural)]
pub struct Displacement {
    pub dx: i64,
    pub dy: i64,
}

impl View for Displacement {
    type V = (int, int);

    open spec fn view(&self) -> (int, int) {
        (self.dx as int, self.dy as int)
    }
}

/// The displacement owed for an axis sample of `axis` steps: the axis scaled
/// by the horizontal speed, and vertically the jump impulse if `jump` holds
/// and the gravity bias otherwise.
pub open spec fn requested(axis: int, jump: bool) -> (int, int) {
    (
        HORIZONTAL_SPEED * axis,
        if jump {
            JUMP_IMPULSE * UNIT
        } else {
            GRAVITY_BIAS * UNIT
        },
    )
}

/// The displacement owed for one tick's input: none without an axis sample,
/// else what `requested` gives for the sample and for whether `Jump` is among
/// the actions just pressed.
pub open spec fn requested_for(input: InputState) -> Option<(int, int)> {
    match input.axis {
        None => None,
        Some(axis) => Some(requested(axis@, input.just_pressed@.contains(PlayerActions::Jump))),
    }
}

/// A request that may be absent, seen as a pair of step counts.
pub open spec fn pending(request: Option<Displacement>) -> Option<(int, int)> {
    match request {
        None => None,
        Some(displacement) => Some(displacement@),
    }
}

/// Resolves an axis sample and the jump edge of one tick into the
/// displacement request of that tick.
///
/// The sample is not clamped, and no sample is rejected.
pub fn resolve(axis: Axis, jump: bool) -> (request: Displacement)
    ensures
        request@ == requested(axis@, jump),
        request.dx == 15 * axis.steps,
        jump ==> request.dy == 150 * UNIT,
        !jump ==> request.dy == -2 * UNIT,
{
    let mut dy: i64 = GRAVITY_BIAS * UNIT;
    if jump {
        dy = JUMP_IMPULSE * UNIT;
    }
    Displacement { dx: HORIZONTAL_SPEED * (axis.steps as i64), dy }
}

/// Resolves one tick's input into the displacement request of that tick.
///
/// Without an axis sample the tick is skipped: no request is made, so the
/// player does not move.
pub fn movement_request(input: &InputState) -> (request: Option<Displacement>)
    ensures
        pending(request) == requested_for(*input),
{
    match input.axis {
        None => None,
        Some(axis) => Some(resolve(axis, input.just_pressed(PlayerActions::Jump))),
    }
}

/// Without a jump, an axis sample within full deflection moves the player
/// horizontally by fifteen times the sample, which is at most fifteen
/// distance units either way, and vertically by two distance units downwards.
pub proof fn lemma_no_jump_within_deflection(axis: int)
    requires
        -UNIT <= axis <= UNIT,
    ensures
        requested(axis, false) == (15 * axis, -2 * UNIT),
        -15 * UNIT <= requested(axis, false).0 <= 15 * UNIT,
        requested(axis, false).1 < 0,
{
}

/// On the tick the jump is pressed the vertical part is the jump impulse of
/// 150 distance units in place of the gravity bias, whatever the axis sample
/// is, and the horizontal part is what it would be without the jump.
pub proof fn lemma_jump_overrides_gravity_bias(axis: int)
    ensures
        requested(axis, true) == (15 * axis, 150 * UNIT),
        requested(axis, true).0 == requested(axis, false).0,
        requested(axis, true).1 != requested(axis, false).1,
{
}

/// The resolver is a pure function of its two inputs: any two requests that
/// it can return for the same axis sample and the same jump edge are equal.
pub proof fn lemma_resolve_is_pure(axis: Axis, jump: bool, first: Displacement, second: Displacement)
    requires
        first@ == requested(axis@, jump),
        second@ == requested(axis@, jump),
    ensures
        first == second,
{
}

/// The same holds of a whole tick: any two results that `movement_request`
/// can return for the same input are equal.
pub proof fn lemma_movement_request_is_pure(
    input: InputState,
    first: Option<Displacement>,
    second: Option<Displacement>,
)
    requires
        pending(first) == requested_for(input),
        pending(second) == requested_for(input),
    ensures
        first == second,
{
}

/// A centred axis gives no horizontal movement, with or without a jump.
pub proof fn lemma_centred_axis_keeps_still(jump: bool)
    ensures
        requested(0, jump).0 == 0,
{
}

} // verus!
