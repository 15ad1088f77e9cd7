//! The planet: its shrinking radius, its rotation, the face that reflects its
//! health, and the transition to the next planet when the shrink limit is
//! crossed.

use vstd::prelude::*;

verus! {

use crate::{FRAME_LIMIT_MS, FULL_TURN, GameManager, PlanetSpawnEvent, Point2};
use crate::trig;
use crate::variant::PlanetVariant;

/// Diameter of a fresh planet, in milli-pixels.
pub const PLANET_DIAMETER: i64 = 715_000;

/// Radius of a fresh planet, in milli-pixels.
pub const PLANET_START_RADIUS: i64 = 357_500;

/// Vertical gap between consecutive planets: two planet diameters, in
/// milli-pixels.
pub const PLANET_SPAWN_GAP: i64 = 2 * PLANET_DIAMETER;

/// How fast a live planet spins, in milli-degrees per second.
pub const PLANET_ROTATION_SPEED: i64 = 57_296;

/// How fast a live planet's radius shrinks, in milli-pixels per second.
pub const PLANET_SHRINK_RATE: i64 = 25_000;

/// Radius at which the planet is finished and the next one is spawned.
pub const PLANET_SHRINK_LIMIT: i64 = 100_000;

/// Radius below which the planet's face turns from good to normal.
pub const PLANET_FACE_NORMAL_THRESHOLD: i64 = 250_000;

/// Radius below which the planet's face turns from normal to bad.
pub const PLANET_FACE_BAD_THRESHOLD: i64 = 175_000;

/// Mood of the face drawn on the planet, reflecting how far it has shrunk.
#[derive(Clone, Copy, PartialEq, Eq, Structural, Debug)]
pub enum PlanetFaceState {
    Good,
    Normal,
    Bad,
}

/// The planet the player stands on. The radius only decreases while the
/// planet is live (`is_playing`), which starts once the player first touches
/// down.
#[derive(Clone, Copy, PartialEq, Eq, Structural, Debug)]
pub struct Planet {
    pub variant: PlanetVariant,
    pub is_playing: bool,
    pub radius: i64,
    pub rotation: i64,
}

impl Planet {
    /// Well-formedness: the radius lies between zero and a fresh planet's,
    /// and the rotation is a reduced angle.
    pub open spec fn wf(self) -> bool {
        &&& 0 <= self.radius <= PLANET_START_RADIUS
        &&& 0 <= self.rotation < FULL_TURN
    }

    /// A fresh, not yet live planet of the given variant.
    pub fn spawn(variant: PlanetVariant) -> (p: Planet)
        ensures
            p == (Planet { variant, is_playing: false, radius: PLANET_START_RADIUS, rotation: 0 }),
            p.wf(),
    {
        Planet { variant, is_playing: false, radius: PLANET_START_RADIUS, rotation: 0 }
    }
}

/// The distance or angle covered in `dt_ms` milliseconds at `rate` units per
/// second.
pub open spec fn per_frame(rate: int, dt_ms: int) -> int {
    rate * dt_ms / 1000
}

/// A live planet's rotation after one frame.
pub open spec fn rotate_spec(p: Planet, dt_ms: int) -> int {
    if p.is_playing {
        (p.rotation - per_frame(PLANET_ROTATION_SPEED as int, dt_ms)) % (FULL_TURN as int)
    } else {
        p.rotation as int
    }
}

/// Spins a live planet by one frame's rotation; a planet that is not yet
/// live does not spin.
pub fn rotate_planets(planet: &mut Planet, dt_ms: i64)
    requires
        old(planet).wf(),
        0 <= dt_ms <= FRAME_LIMIT_MS,
    ensures
        final(planet).rotation == rotate_spec(*old(planet), dt_ms as int),
        final(planet).variant == old(planet).variant,
        final(planet).is_playing == old(planet).is_playing,
        final(planet).radius == old(planet).radius,
        final(planet).wf(),
{
    if planet.is_playing {
        let step: i64 = (PLANET_ROTATION_SPEED * dt_ms) / 1000;
        planet.rotation = trig::norm_angle(planet.rotation - step);
    }
}

/// The face after one update for a live planet of the given radius: bad
/// below the bad threshold, normal below the normal threshold, and otherwise
/// whatever face was already showing. (A fresh planet starts good and the
/// radius only decreases, so the face only ever worsens.)
pub open spec fn face_step_spec(prev: PlanetFaceState, radius: int) -> PlanetFaceState {
    if radius < PLANET_FACE_BAD_THRESHOLD {
        PlanetFaceState::Bad
    } else if radius < PLANET_FACE_NORMAL_THRESHOLD {
        PlanetFaceState::Normal
    } else {
        prev
    }
}

/// Updates the face of a live planet: it worsens at the two radius
/// thresholds and keeps its previous value while the radius is at or above
/// the normal threshold.
pub fn manage_planet_face(prev: PlanetFaceState, radius: i64) -> (f: PlanetFaceState)
    ensures
        f == face_step_spec(prev, radius as int),
{
    if radius < PLANET_FACE_BAD_THRESHOLD {
        PlanetFaceState::Bad
    } else if radius < PLANET_FACE_NORMAL_THRESHOLD {
        PlanetFaceState::Normal
    } else {
        prev
    }
}

/// A live planet's radius after one frame of shrinking.
pub open spec fn shrunk_radius(p: Planet, dt_ms: int) -> int {
    p.radius - per_frame(PLANET_SHRINK_RATE as int, dt_ms)
}

/// Whether this frame's shrink finishes the planet.
pub open spec fn shrink_finishes(p: Planet, dt_ms: int) -> bool {
    p.is_playing && shrunk_radius(p, dt_ms) <= PLANET_SHRINK_LIMIT
}

/// Shrinks the live planet by one frame. When the radius crosses the shrink
/// limit the planet is finished: the score goes up, infinite mode starts if
/// the cycle wrapped back to the first variant, and a spawn request for the
/// next variant at this planet's position is returned so the caller can
/// replace the planet.
pub fn shrink_current_planet(
    planet: &mut Planet,
    planet_pos: Point2,
    manager: &mut GameManager,
    dt_ms: i64,
) -> (ev: Option<PlanetSpawnEvent>)
    requires
        old(planet).wf(),
        0 <= dt_ms <= FRAME_LIMIT_MS,
        old(manager).score < usize::MAX,
    ensures
        final(planet).variant == old(planet).variant,
        final(planet).is_playing == old(planet).is_playing,
        final(planet).rotation == old(planet).rotation,
        old(planet).is_playing ==> final(planet).radius == shrunk_radius(*old(planet), dt_ms as int),
        !old(planet).is_playing ==> *final(planet) == *old(planet),
        ev is Some <==> shrink_finishes(*old(planet), dt_ms as int),
        shrink_finishes(*old(planet), dt_ms as int) ==> {
            &&& ev == Some(
                PlanetSpawnEvent {
                    planet_variant_to_spawn: old(planet).variant.next_spec(),
                    last_planet_position: planet_pos,
                },
            )
            &&& final(manager).score == old(manager).score + 1
            &&& final(manager).infinite_mode == (old(manager).infinite_mode || old(
                planet,
            ).variant.next_spec() == PlanetVariant::Earth)
        },
        !shrink_finishes(*old(planet), dt_ms as int) ==> *final(manager) == *old(manager),
        ev is None ==> final(planet).wf(),
{
    if !planet.is_playing {
        return None;
    }
    let step: i64 = (PLANET_SHRINK_RATE * dt_ms) / 1000;
    planet.radius = planet.radius - step;
    if planet.radius <= PLANET_SHRINK_LIMIT {
        let next = planet.variant.next();
        if next == PlanetVariant::Earth {
            manager.infinite_mode = true;
        }
        manager.score = manager.score + 1;
        Some(
            PlanetSpawnEvent {
                planet_variant_to_spawn: next,
                last_planet_position: planet_pos,
            },
        )
    } else {
        None
    }
}

} // verus!
