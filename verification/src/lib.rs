//! The rules of a top-down arena shooter: the game state and how bullets,
//! bites and the restart key change it, the player's steering, the display
//! text, the darkness overlay's triangle mesh, the level layout and the
//! pseudo-random generator. Rendering, input devices, timers and all
//! floating-point geometry live with the bevy app that drives these rules.
use vstd::prelude::*;

pub mod game;
pub mod hud;
pub mod input;
pub mod level;
pub mod mesh;
pub mod rng;

verus! {

} // verus!
