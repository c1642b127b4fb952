//! Movement rules of a small 2D platformer.
//!
//! Once per simulation tick the input of a player is turned into one
//! displacement request for a kinematic character controller: a horizontal
//! part proportional to the input axis, and a vertical part that is a jump
//! impulse on the tick the jump is pressed and a small downward bias on every
//! other tick.
//!
//! All quantities are fixed-point integers counted in steps of `1 / UNIT`, so
//! every rule is exact and holds for every input.

pub mod input;
pub mod movement;
pub mod player;

pub use input::{Axis, InputState, PlayerActions};
pub use movement::{
    movement_request, resolve, Displacement, GRAVITY_BIAS, HORIZONTAL_SPEED, JUMP_IMPULSE, UNIT,
};
pub use player::PlayerBundle;
