use planet_hopper::variant::PlanetVariant;

#[test]
fn next_follows_the_fixed_order() {
    assert_eq!(PlanetVariant::Earth.next(), PlanetVariant::Venus);
    assert_eq!(PlanetVariant::Venus.next(), PlanetVariant::Mars);
    assert_eq!(PlanetVariant::Mars.next(), PlanetVariant::Mercury);
    assert_eq!(PlanetVariant::Mercury.next(), PlanetVariant::Jupiter);
    assert_eq!(PlanetVariant::Jupiter.next(), PlanetVariant::Neptune);
    assert_eq!(PlanetVariant::Neptune.next(), PlanetVariant::Uran);
    assert_eq!(PlanetVariant::Uran.next(), PlanetVariant::Earth);
}

#[test]
fn next_cycles_back_after_seven_steps() {
    let mut v = PlanetVariant::Mars;
    for _ in 0..7 {
        v = v.next();
    }
    assert_eq!(v, PlanetVariant::Mars);
}

#[test]
fn story_layouts_match_the_script() {
    assert_eq!(PlanetVariant::Earth.get_obstacles(), vec![0]);
    assert_eq!(PlanetVariant::Venus.get_obstacles(), vec![0, 180_000]);
    assert_eq!(PlanetVariant::Mars.get_obstacles(), vec![290_000, 270_000, 250_000]);
    assert_eq!(
        PlanetVariant::Mercury.get_obstacles(),
        vec![180_000, 30_000, 0, 330_000]
    );
    assert_eq!(
        PlanetVariant::Jupiter.get_obstacles(),
        vec![30_000, 150_000, 270_000]
    );
    assert_eq!(
        PlanetVariant::Neptune.get_obstacles(),
        vec![45_000, 30_000, 15_000, 240_000, 225_000, 210_000]
    );
    assert_eq!(
        PlanetVariant::Uran.get_obstacles(),
        vec![180_000, 225_000, 315_000, 0]
    );
}

#[test]
fn every_story_layout_is_small_and_in_range() {
    let variants = [
        PlanetVariant::Earth,
        PlanetVariant::Venus,
        PlanetVariant::Mars,
        PlanetVariant::Mercury,
        PlanetVariant::Jupiter,
        PlanetVariant::Neptune,
        PlanetVariant::Uran,
    ];
    for v in variants {
        let angles = v.get_obstacles();
        assert!(1 <= angles.len() && angles.len() <= 7);
        for a in angles {
            assert!(0 <= a && a < 360_000);
        }
    }
}
