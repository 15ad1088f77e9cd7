//! Core simulation of a small arcade game: a player character stands on a
//! shrinking planet, jumps over obstacles that orbit the planet's rim, and
//! advances through a fixed cyclic sequence of planet variants whenever the
//! current planet shrinks past its limit.
//!
//! All quantities are fixed-point integers: lengths and positions are in
//! milli-pixels, angles in milli-degrees, velocities in milli-pixels per
//! second, and frame times in milliseconds.

use vstd::prelude::*;

pub mod game;
pub mod geom;
pub mod obstacle;
pub mod planet;
pub mod player;
pub mod rng;
pub mod trig;
pub mod ui;
pub mod variant;

verus! {

/// Scale of the fixed-point trigonometric functions: a unit vector component
/// ranges over [-TRIG_UNIT, TRIG_UNIT].
pub const TRIG_UNIT: i64 = 1_000_000;

/// A full turn in milli-degrees.
pub const FULL_TURN: i64 = 360_000;

/// Half a turn in milli-degrees.
pub const HALF_TURN: i64 = 180_000;

/// A quarter turn in milli-degrees.
pub const QUARTER_TURN: i64 = 90_000;

/// Greatest magnitude of a world coordinate, in milli-pixels. Keeping
/// coordinates in this range keeps squared distances inside `i64`.
pub const COORD_LIMIT: i64 = 1_000_000_000;

/// Greatest radius a collider may have, in milli-pixels.
pub const RADIUS_LIMIT: i64 = 1_000_000;

/// Greatest magnitude of the player's vertical velocity, in milli-pixels per
/// second; the integrator clamps to this bound.
pub const VELOCITY_LIMIT: i64 = 1_000_000_000;

/// Longest frame the simulation accepts, in milliseconds.
pub const FRAME_LIMIT_MS: i64 = 1000;

/// A position in the 2D world, in milli-pixels.
#[derive(Clone, Copy, PartialEq, Eq, Structural, Debug)]
pub struct Point2 {
    pub x: i64,
    pub y: i64,
}

/// The squared distance between two points.
pub open spec fn dist2(a: Point2, b: Point2) -> int {
    (a.x - b.x) * (a.x - b.x) + (a.y - b.y) * (a.y - b.y)
}

/// Whether a point lies inside the world's coordinate bounds.
pub open spec fn in_world(p: Point2) -> bool {
    -COORD_LIMIT <= p.x <= COORD_LIMIT && -COORD_LIMIT <= p.y <= COORD_LIMIT
}

/// `v` forced into `[lo, hi]`.
pub open spec fn clamp_spec(v: int, lo: int, hi: int) -> int {
    if v < lo {
        lo
    } else if v > hi {
        hi
    } else {
        v
    }
}

/// Whether the game is running or the player has hit an obstacle.
#[derive(Clone, Copy, PartialEq, Eq, Structural, Debug, Default)]
pub enum AppState {
    #[default]
    Playing,
    GameOver,
}

/// Which kind of asset spawn the game is waiting on; `Idle` while playing.
#[derive(Clone, Copy, PartialEq, Eq, Structural, Debug, Default)]
pub enum LoadingState {
    #[default]
    Idle,
    Planet,
    Obstacles,
}

/// Run-wide progress: the score and whether the scripted planets have all
/// been completed once, after which obstacle layouts are random.
#[derive(Clone, Copy, PartialEq, Eq, Structural, Debug, Default)]
pub struct GameManager {
    pub infinite_mode: bool,
    pub score: usize,
}

/// Request to spawn the next planet below the previous one.
#[derive(Clone, Copy, PartialEq, Eq, Structural, Debug)]
pub struct PlanetSpawnEvent {
    pub planet_variant_to_spawn: crate::variant::PlanetVariant,
    pub last_planet_position: Point2,
}

/// Forces `v` into the interval `[lo, hi]`.
pub fn clamp(v: i64, lo: i64, hi: i64) -> (r: i64)
    requires
        lo <= hi,
    ensures
        r == clamp_spec(v as int, lo as int, hi as int),
{
    if v < lo {
        lo
    } else if v > hi {
        hi
    } else {
        v
    }
}

} // verus!
