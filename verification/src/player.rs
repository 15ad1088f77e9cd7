//! The player: vertical velocity integration under gravity, jumping, and the
//! accelerated fall, clamped to the world's velocity and coordinate bounds.

use vstd::prelude::*;

verus! {

use crate::{COORD_LIMIT, FRAME_LIMIT_MS, VELOCITY_LIMIT, clamp, clamp_spec};
use crate::geom::{mul_div_trunc, scale_ratio};
use crate::planet::per_frame;

/// Vertical speed the player leaves the ground with, in milli-pixels per
/// second.
pub const PLAYER_JUMP_STRENGTH: i64 = 450_000;

/// Downward acceleration of gravity, in milli-pixels per second squared.
pub const GRAVITY_ACCEL: i64 = 752_405;

/// Extra downward acceleration while the fall key is held, in milli-pixels
/// per second squared.
pub const PLAYER_FALL_ACCELERATION: i64 = 3_000_000;

/// Radius of the player's collider, in milli-pixels.
pub const PLAYER_RADIUS: i64 = 28_000;

/// Height the player starts at, in milli-pixels.
pub const PLAYER_START_POSITION_Y: i64 = 715_000;

/// The player character: its vertical velocity and whether the last contact
/// query found it standing on the planet.
#[derive(Clone, Copy, PartialEq, Eq, Structural, Debug)]
pub struct Player {
    pub is_grounded: bool,
    pub velocity: i64,
}

impl Player {
    /// Well-formedness: the velocity stays inside the clamp bounds.
    pub open spec fn wf(self) -> bool {
        -VELOCITY_LIMIT <= self.velocity <= VELOCITY_LIMIT
    }

    /// A freshly spawned player: airborne and at rest.
    pub fn spawn() -> (p: Player)
        ensures
            p == (Player { is_grounded: false, velocity: 0 }),
            p.wf(),
    {
        Player { is_grounded: false, velocity: 0 }
    }
}

/// The player's velocity after one frame: a grounded player's old velocity is
/// discarded, gravity always pulls, a jump from the ground overrides the
/// velocity outright, and the fall key accelerates an airborne player
/// downward.
pub open spec fn jump_velocity_spec(p: Player, jump: bool, fall: bool, dt_ms: int) -> int {
    let v0: int = if p.is_grounded {
        0
    } else {
        p.velocity as int
    };
    let v1 = clamp_spec(v0 - per_frame(GRAVITY_ACCEL as int, dt_ms), -VELOCITY_LIMIT as int,
    VELOCITY_LIMIT as int);
    let v2: int = if jump && p.is_grounded {
        PLAYER_JUMP_STRENGTH as int
    } else {
        v1
    };
    if fall && !p.is_grounded {
        clamp_spec(v2 - per_frame(PLAYER_FALL_ACCELERATION as int, dt_ms), -VELOCITY_LIMIT as int,
        VELOCITY_LIMIT as int)
    } else {
        v2
    }
}

/// The player's height after one frame, moved by the new velocity and kept
/// inside the world.
pub open spec fn jump_y_spec(p: Player, pos_y: int, jump: bool, fall: bool, dt_ms: int) -> int {
    clamp_spec(pos_y + mul_div_trunc(jump_velocity_spec(p, jump, fall, dt_ms), dt_ms, 1000),
    -COORD_LIMIT as int, COORD_LIMIT as int)
}

/// One frame of vertical movement: integrates gravity, a jump off the ground,
/// and the accelerated fall into the velocity, then moves the player by it.
/// Returns the player's new height.
pub fn player_jump(
    player: &mut Player,
    pos_y: i64,
    jump_pressed: bool,
    fall_pressed: bool,
    dt_ms: i64,
) -> (new_y: i64)
    requires
        old(player).wf(),
        0 <= dt_ms <= FRAME_LIMIT_MS,
        -COORD_LIMIT <= pos_y <= COORD_LIMIT,
    ensures
        final(player).velocity == jump_velocity_spec(*old(player), jump_pressed, fall_pressed,
        dt_ms as int),
        final(player).is_grounded == old(player).is_grounded,
        new_y == jump_y_spec(*old(player), pos_y as int, jump_pressed, fall_pressed, dt_ms as int),
        final(player).wf(),
        -COORD_LIMIT <= new_y <= COORD_LIMIT,
{
    if player.is_grounded {
        player.velocity = 0;
    }
    let pull: i64 = (GRAVITY_ACCEL * dt_ms) / 1000;
    player.velocity = clamp(player.velocity - pull, -VELOCITY_LIMIT, VELOCITY_LIMIT);
    if jump_pressed && player.is_grounded {
        player.velocity = PLAYER_JUMP_STRENGTH;
    }
    if fall_pressed && !player.is_grounded {
        let extra: i64 = (PLAYER_FALL_ACCELERATION * dt_ms) / 1000;
        player.velocity = clamp(player.velocity - extra, -VELOCITY_LIMIT, VELOCITY_LIMIT);
    }
    proof {
        assert(player.velocity * dt_ms <= i64::MAX && (-player.velocity) * dt_ms <= i64::MAX)
            by (nonlinear_arith)
            requires
                -1_000_000_000 <= player.velocity <= 1_000_000_000,
                0 <= dt_ms <= 1000,
        ;
    }
    let moved: i64 = scale_ratio(player.velocity, dt_ms, 1000);
    clamp(pos_y + moved, -COORD_LIMIT, COORD_LIMIT)
}

} // verus!
