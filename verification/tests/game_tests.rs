use planet_hopper::{AppState, LoadingState, Point2};
use planet_hopper::game::{
    FrameInput, World, check_player_obstacle_collisions, check_player_planet_collisions,
};
use planet_hopper::obstacle::Obstacle;
use planet_hopper::planet::{Planet, PlanetFaceState};
use planet_hopper::player::Player;
use planet_hopper::variant::PlanetVariant;

const NO_INPUT: FrameInput = FrameInput { jump_pressed: false, fall_pressed: false };

fn loaded_world() -> World {
    let mut w = World::new();
    w.spawn_planet();
    w.check_planets_loading(true);
    w.spawn_obstacles();
    w.check_obstacles_loading(true);
    w
}

#[test]
fn the_loading_sequence_spawns_the_first_planet() {
    let mut w = World::new();
    assert_eq!(w.loading_state, LoadingState::Planet);
    w.spawn_planet();
    let p = w.planet.expect("planet spawned");
    assert_eq!(p.variant, PlanetVariant::Earth);
    assert_eq!(p.radius, 357_500);
    assert!(!p.is_playing);
    // Two planet diameters below the off-screen start position.
    assert_eq!(w.planet_pos, Point2 { x: 0, y: 0 });
    assert_eq!(w.face, PlanetFaceState::Good);
    w.check_planets_loading(true);
    assert_eq!(w.loading_state, LoadingState::Obstacles);
    w.spawn_obstacles();
    assert_eq!(w.obstacles.len(), 1);
    assert_eq!(w.obstacles[0].angle, 0);
    w.check_obstacles_loading(true);
    assert_eq!(w.loading_state, LoadingState::Idle);
}

#[test]
fn the_player_falls_and_lands_on_the_planet() {
    let mut w = loaded_world();
    assert_eq!(w.player_pos, Point2 { x: 0, y: 715_000 });
    for _ in 0..600 {
        w.frame(NO_INPUT, 16);
        if w.player.is_grounded {
            break;
        }
    }
    assert!(w.player.is_grounded);
    // Landing snaps the player onto the shrinking planet's surface:
    // planet radius plus the player's 28-pixel collider radius.
    let p = w.planet.expect("planet still there");
    assert!(p.is_playing);
    let expected = p.radius + 28_000;
    assert!((w.player_pos.y - expected).abs() <= 25_000 + 1_000);
}

#[test]
fn a_frame_before_loading_finishes_moves_nothing() {
    let mut w = World::new();
    w.spawn_planet();
    let before_pos = w.player_pos;
    w.frame(FrameInput { jump_pressed: true, fall_pressed: false }, 16);
    assert_eq!(w.player_pos, before_pos);
    assert_eq!(w.player.velocity, 0);
}

#[test]
fn nothing_happens_after_game_over() {
    let mut w = loaded_world();
    w.app_state = AppState::GameOver;
    let before_player = w.player_pos;
    let before_planet = w.planet;
    w.frame(NO_INPUT, 16);
    assert_eq!(w.player_pos, before_player);
    assert_eq!(w.planet, before_planet);
}

#[test]
fn finishing_a_planet_queues_the_next_variant() {
    let mut w = loaded_world();
    let mut p = w.planet.unwrap();
    p.is_playing = true;
    p.radius = 101_000;
    w.planet = Some(p);
    w.frame(NO_INPUT, 1000);
    assert!(w.planet.is_none());
    assert!(w.obstacles.is_empty());
    assert_eq!(w.loading_state, LoadingState::Planet);
    assert_eq!(w.manager.score, 1);
    let ev = w.pending_spawn.expect("next planet queued");
    assert_eq!(ev.planet_variant_to_spawn, PlanetVariant::Venus);
    assert_eq!(ev.last_planet_position, w.planet_pos);
    // The next planet spawns two diameters further down.
    w.spawn_planet();
    assert_eq!(w.planet_pos, Point2 { x: 0, y: -1_430_000 });
    assert_eq!(w.planet.unwrap().variant, PlanetVariant::Venus);
}

#[test]
fn touching_an_obstacle_ends_the_game() {
    let mut w = loaded_world();
    let mut p = w.planet.unwrap();
    p.is_playing = true;
    w.planet = Some(p);
    // Put an obstacle at the top of the planet, right under the player,
    // and the player on the surface above it.
    w.obstacles = vec![Obstacle { angle: 90_000 }];
    w.player = Player { is_grounded: true, velocity: 0 };
    w.player_pos = Point2 { x: 0, y: 385_500 };
    w.frame(NO_INPUT, 1);
    assert_eq!(w.app_state, AppState::GameOver);
}

#[test]
fn the_face_is_kept_across_a_frame_above_the_thresholds() {
    let mut w = loaded_world();
    let mut p = w.planet.unwrap();
    p.is_playing = true;
    p.radius = 300_000;
    w.planet = Some(p);
    w.face = PlanetFaceState::Bad;
    w.player_pos = Point2 { x: 0, y: 715_000 };
    w.frame(NO_INPUT, 16);
    assert_eq!(w.face, PlanetFaceState::Bad);
}

#[test]
fn a_distant_obstacle_is_no_hit() {
    let obstacles = vec![Obstacle { angle: 270_000 }];
    let hit = check_player_obstacle_collisions(
        Point2 { x: 0, y: 385_500 },
        Point2 { x: 0, y: 0 },
        357_500,
        &obstacles,
    );
    assert!(!hit);
}

#[test]
fn planet_contact_grounds_the_player_and_starts_the_planet() {
    let mut player = Player { is_grounded: false, velocity: -5000 };
    let mut planet = Planet {
        variant: PlanetVariant::Earth,
        is_playing: false,
        radius: 357_500,
        rotation: 0,
    };
    let pos = check_player_planet_collisions(
        &mut player,
        Point2 { x: 0, y: 380_000 },
        &mut planet,
        Point2 { x: 0, y: 0 },
    );
    assert!(player.is_grounded);
    assert!(planet.is_playing);
    assert_eq!(pos, Point2 { x: 0, y: 385_500 });
    assert_eq!(player.velocity, -5000);
}

#[test]
fn no_contact_marks_the_player_airborne() {
    let mut player = Player { is_grounded: true, velocity: 0 };
    let mut planet = Planet {
        variant: PlanetVariant::Earth,
        is_playing: true,
        radius: 357_500,
        rotation: 0,
    };
    let from = Point2 { x: 0, y: 500_000 };
    let pos = check_player_planet_collisions(
        &mut player,
        from,
        &mut planet,
        Point2 { x: 0, y: 0 },
    );
    assert!(!player.is_grounded);
    assert!(planet.is_playing);
    assert_eq!(pos, from);
}

#[test]
fn restart_and_start_reset_the_run() {
    let mut w = loaded_world();
    w.manager.score = 4;
    w.app_state = AppState::GameOver;
    w.restart_game();
    assert!(w.planet.is_none());
    assert!(w.obstacles.is_empty());
    assert!(w.pending_spawn.is_none());
    w.start_game();
    assert_eq!(w.app_state, AppState::Playing);
    assert_eq!(w.manager.score, 0);
    assert!(!w.manager.infinite_mode);
    assert_eq!(w.loading_state, LoadingState::Planet);
    assert_eq!(
        w.pending_spawn.unwrap().planet_variant_to_spawn,
        PlanetVariant::Earth
    );
    assert_eq!(w.player_pos, Point2 { x: 0, y: 715_000 });
}
