use planet_hopper::Point2;
use planet_hopper::geom::{center_distance, contact_circles, isqrt, resolve_to_surface};

#[test]
fn isqrt_exact_values() {
    assert_eq!(isqrt(0), 0);
    assert_eq!(isqrt(1), 1);
    assert_eq!(isqrt(3), 1);
    assert_eq!(isqrt(4), 2);
    assert_eq!(isqrt(8), 2);
    assert_eq!(isqrt(9), 3);
    assert_eq!(isqrt(999_999), 999);
    assert_eq!(isqrt(1_000_000), 1000);
    assert_eq!(isqrt(u64::MAX), 0xffff_ffff);
}

#[test]
fn center_distance_on_a_right_triangle() {
    let a = Point2 { x: 0, y: 0 };
    let b = Point2 { x: 3000, y: 4000 };
    assert_eq!(center_distance(a, b), 5000);
}

#[test]
fn center_distance_rounds_down() {
    let a = Point2 { x: 0, y: 0 };
    let b = Point2 { x: 1, y: 1 };
    assert_eq!(center_distance(a, b), 1);
}

#[test]
fn contact_reports_overlap_and_separation() {
    let planet = Point2 { x: 0, y: 0 };
    let player = Point2 { x: 0, y: 380_000 };
    // Radii sum to 385_500, so the player penetrates by 5_500.
    let sep = contact_circles(player, 28_000, planet, 357_500, 1_000);
    assert_eq!(sep, Some(-5_500));

    let far = Point2 { x: 0, y: 400_000 };
    assert_eq!(contact_circles(far, 28_000, planet, 357_500, 1_000), None);

    // A gap within the margin still counts as contact.
    let close = Point2 { x: 0, y: 386_000 };
    assert_eq!(contact_circles(close, 28_000, planet, 357_500, 1_000), Some(500));
}

#[test]
fn resolve_snaps_onto_the_surface() {
    let planet = Point2 { x: 0, y: 0 };
    let player = Point2 { x: 0, y: 380_000 };
    let resolved = resolve_to_surface(player, planet, 385_500);
    assert_eq!(resolved, Point2 { x: 0, y: 385_500 });

    // Coincident centers leave the point untouched.
    let stuck = resolve_to_surface(planet, planet, 385_500);
    assert_eq!(stuck, planet);
}

#[test]
fn resolve_pulls_a_hovering_point_down() {
    let planet = Point2 { x: 0, y: 0 };
    let player = Point2 { x: 0, y: 386_000 };
    let resolved = resolve_to_surface(player, planet, 385_500);
    assert_eq!(resolved, Point2 { x: 0, y: 385_500 });
}
