use planet_hopper::{GameManager, Point2};
use planet_hopper::planet::{
    Planet, PlanetFaceState, manage_planet_face, rotate_planets, shrink_current_planet,
};
use planet_hopper::variant::PlanetVariant;

fn live_planet(variant: PlanetVariant, radius: i64) -> Planet {
    Planet { variant, is_playing: true, radius, rotation: 0 }
}

#[test]
fn a_live_planet_shrinks_at_the_fixed_rate() {
    let mut planet = live_planet(PlanetVariant::Earth, 357_500);
    let mut manager = GameManager { infinite_mode: false, score: 0 };
    let pos = Point2 { x: 0, y: 0 };
    let ev = shrink_current_planet(&mut planet, pos, &mut manager, 1000);
    assert!(ev.is_none());
    assert_eq!(planet.radius, 332_500);
    assert_eq!(manager.score, 0);
}

#[test]
fn a_planet_that_is_not_live_does_not_shrink() {
    let mut planet = Planet {
        variant: PlanetVariant::Venus,
        is_playing: false,
        radius: 357_500,
        rotation: 0,
    };
    let mut manager = GameManager { infinite_mode: false, score: 3 };
    let ev = shrink_current_planet(&mut planet, Point2 { x: 0, y: 0 }, &mut manager, 1000);
    assert!(ev.is_none());
    assert_eq!(planet.radius, 357_500);
    assert_eq!(manager.score, 3);
}

#[test]
fn crossing_the_limit_finishes_the_planet() {
    let mut planet = live_planet(PlanetVariant::Venus, 120_000);
    let mut manager = GameManager { infinite_mode: false, score: 1 };
    let pos = Point2 { x: 0, y: -1_430_000 };
    let ev = shrink_current_planet(&mut planet, pos, &mut manager, 1000);
    let ev = ev.expect("the planet should finish");
    assert_eq!(ev.planet_variant_to_spawn, PlanetVariant::Mars);
    assert_eq!(ev.last_planet_position, pos);
    assert_eq!(manager.score, 2);
    assert!(!manager.infinite_mode);
}

#[test]
fn completing_the_last_variant_starts_infinite_mode() {
    let mut planet = live_planet(PlanetVariant::Uran, 100_500);
    let mut manager = GameManager { infinite_mode: false, score: 6 };
    let ev = shrink_current_planet(&mut planet, Point2 { x: 0, y: 0 }, &mut manager, 1000);
    assert_eq!(ev.unwrap().planet_variant_to_spawn, PlanetVariant::Earth);
    assert!(manager.infinite_mode);
    assert_eq!(manager.score, 7);
}

#[test]
fn the_face_worsens_at_the_radius_thresholds() {
    assert_eq!(manage_planet_face(PlanetFaceState::Good, 357_500), PlanetFaceState::Good);
    assert_eq!(manage_planet_face(PlanetFaceState::Good, 250_000), PlanetFaceState::Good);
    assert_eq!(manage_planet_face(PlanetFaceState::Good, 249_999), PlanetFaceState::Normal);
    assert_eq!(manage_planet_face(PlanetFaceState::Normal, 175_000), PlanetFaceState::Normal);
    assert_eq!(manage_planet_face(PlanetFaceState::Normal, 174_999), PlanetFaceState::Bad);
    assert_eq!(manage_planet_face(PlanetFaceState::Bad, 0), PlanetFaceState::Bad);
}

#[test]
fn the_face_keeps_its_value_above_the_thresholds() {
    assert_eq!(manage_planet_face(PlanetFaceState::Bad, 300_000), PlanetFaceState::Bad);
    assert_eq!(manage_planet_face(PlanetFaceState::Normal, 250_000), PlanetFaceState::Normal);
}

#[test]
fn a_live_planet_spins_backward() {
    let mut planet = live_planet(PlanetVariant::Earth, 357_500);
    rotate_planets(&mut planet, 1000);
    assert_eq!(planet.rotation, 360_000 - 57_296);
}

#[test]
fn an_idle_planet_does_not_spin() {
    let mut planet = Planet {
        variant: PlanetVariant::Earth,
        is_playing: false,
        radius: 357_500,
        rotation: 100,
    };
    rotate_planets(&mut planet, 1000);
    assert_eq!(planet.rotation, 100);
}
