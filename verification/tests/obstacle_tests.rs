use planet_hopper::Point2;
use planet_hopper::obstacle::{
    Obstacle, gap_adjusted_angle, move_obstacles_on_planet, obstacle_position, spawn_obstacles,
};
use planet_hopper::variant::PlanetVariant;

#[test]
fn obstacles_sit_one_half_size_beyond_the_rim() {
    let center = Point2 { x: 0, y: 0 };
    // Planet radius 357_500 plus half an obstacle's 64-pixel sprite.
    assert_eq!(
        obstacle_position(center, 357_500, 0),
        Point2 { x: 389_500, y: 0 }
    );
    assert_eq!(
        obstacle_position(center, 357_500, 90_000),
        Point2 { x: 0, y: 389_500 }
    );
    assert_eq!(
        obstacle_position(center, 357_500, 180_000),
        Point2 { x: -389_500, y: 0 }
    );
    assert_eq!(
        obstacle_position(center, 357_500, 270_000),
        Point2 { x: 0, y: -389_500 }
    );
}

#[test]
fn obstacle_positions_follow_the_planet_center() {
    let center = Point2 { x: 10_000, y: -20_000 };
    assert_eq!(
        obstacle_position(center, 100_000, 0),
        Point2 { x: 10_000 + 132_000, y: -20_000 }
    );
}

#[test]
fn orbiting_decrements_and_wraps_the_angle() {
    let mut obstacles = vec![Obstacle { angle: 0 }, Obstacle { angle: 200_000 }];
    move_obstacles_on_planet(&mut obstacles, 1000);
    // One second of orbiting covers 114.592 degrees; angles wrap into
    // [0, 360) degrees.
    assert_eq!(obstacles[0].angle, 360_000 - 114_592);
    assert_eq!(obstacles[1].angle, 200_000 - 114_592);
}

#[test]
fn a_small_step_leaves_the_angle_unwrapped() {
    let mut obstacles = vec![Obstacle { angle: 200_000 }];
    move_obstacles_on_planet(&mut obstacles, 16);
    assert_eq!(obstacles[0].angle, 200_000 - 114_592 * 16 / 1000);
}

#[test]
fn wrapping_keeps_the_angle_congruent() {
    let mut obstacles = vec![Obstacle { angle: -300_000 }];
    move_obstacles_on_planet(&mut obstacles, 1000);
    // -300_000 - 114_592 = -414_592, congruent to 305_408 modulo a turn.
    assert_eq!(obstacles[0].angle, 305_408);
}

#[test]
fn the_first_obstacle_is_not_gap_adjusted() {
    assert_eq!(gap_adjusted_angle(200_000, 0, 10_000, 50_000), 200_000);
}

#[test]
fn a_close_gap_gets_the_small_offset() {
    assert_eq!(gap_adjusted_angle(200_000, 195_000, 10_000, 50_000), 190_000);
}

#[test]
fn a_long_gap_gets_the_large_offset() {
    assert_eq!(gap_adjusted_angle(250_000, 195_000, 10_000, 50_000), 200_000);
}

#[test]
fn a_wide_gap_is_left_alone() {
    assert_eq!(gap_adjusted_angle(300_000, 195_000, 10_000, 50_000), 300_000);
}

#[test]
fn story_mode_spawns_the_scripted_layout() {
    let obstacles = spawn_obstacles(PlanetVariant::Neptune, false);
    let angles: Vec<i64> = obstacles.iter().map(|o| o.angle).collect();
    assert_eq!(angles, vec![45_000, 30_000, 15_000, 240_000, 225_000, 210_000]);
}

#[test]
fn infinite_mode_spawns_a_small_random_layout() {
    for _ in 0..50 {
        let obstacles = spawn_obstacles(PlanetVariant::Earth, true);
        assert!(1 <= obstacles.len() && obstacles.len() <= 7);
        for o in &obstacles {
            assert!(-360_000 <= o.angle && o.angle <= 360_000);
        }
    }
}
