//! How the keys held this frame steer the player.
use vstd::prelude::*;

verus! {

/// Walking speed, in arena units per second.
pub const PLAYER_SPEED: u32 = 230;

/// Sprinting speed, in arena units per second.
pub const PLAYER_SPRINT_SPEED: u32 = 330;

/// The direction keys held this frame (each one counts whether its letter or
/// its arrow key is held).
pub struct DirectionKeys {
    pub up: bool,
    pub down: bool,
    pub left: bool,
    pub right: bool,
}

/// The contribution of one key to an axis.
pub open spec fn key_value(held: bool) -> int {
    if held {
        1
    } else {
        0
    }
}

/// The unnormalised movement of the player, one step per axis: right and up
/// count positive, left and down negative, and opposite keys cancel.
pub fn movement_axes(keys: &DirectionKeys) -> (axes: (i32, i32))
    ensures
        axes.0 == key_value(keys.right) - key_value(keys.left),
        axes.1 == key_value(keys.up) - key_value(keys.down),
        -1 <= axes.0 <= 1,
        -1 <= axes.1 <= 1,
        axes.0 == 1 <==> keys.right && !keys.left,
        axes.0 == -1 <==> keys.left && !keys.right,
        axes.1 == 1 <==> keys.up && !keys.down,
        axes.1 == -1 <==> keys.down && !keys.up,
{
    let mut x: i32 = 0;
    let mut y: i32 = 0;
    if keys.up {
        y += 1;
    }
    if keys.down {
        y -= 1;
    }
    if keys.left {
        x -= 1;
    }
    if keys.right {
        x += 1;
    }
    (x, y)
}

/// The player's speed: sprinting while a shift key is held, walking otherwise.
pub fn player_speed(sprint_held: bool) -> (speed: u32)
    ensures
        speed == if sprint_held {
            PLAYER_SPRINT_SPEED
        } else {
            PLAYER_SPEED
        },
        speed == if sprint_held {
            330u32
        } else {
            230u32
        },
{
    if sprint_held {
        PLAYER_SPRINT_SPEED
    } else {
        PLAYER_SPEED
    }
}

} // verus!
