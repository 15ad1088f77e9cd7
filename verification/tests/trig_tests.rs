use planet_hopper::trig::{cosine, norm_angle, sine};

#[test]
fn norm_angle_reduces_into_one_turn() {
    assert_eq!(norm_angle(0), 0);
    assert_eq!(norm_angle(359_999), 359_999);
    assert_eq!(norm_angle(360_000), 0);
    assert_eq!(norm_angle(720_123), 123);
    assert_eq!(norm_angle(-1), 359_999);
    assert_eq!(norm_angle(-90_000), 270_000);
    assert_eq!(norm_angle(-720_000), 0);
}

#[test]
fn sine_is_exact_at_the_cardinal_angles() {
    assert_eq!(sine(0), 0);
    assert_eq!(sine(90_000), 1_000_000);
    assert_eq!(sine(180_000), 0);
    assert_eq!(sine(270_000), -1_000_000);
    assert_eq!(sine(360_000), 0);
}

#[test]
fn sine_is_exact_at_thirty_degrees() {
    // Bhaskara's approximation gives exactly one half at thirty degrees.
    assert_eq!(sine(30_000), 500_000);
    assert_eq!(sine(150_000), 500_000);
    assert_eq!(sine(210_000), -500_000);
}

#[test]
fn cosine_is_the_shifted_sine() {
    assert_eq!(cosine(0), 1_000_000);
    assert_eq!(cosine(90_000), 0);
    assert_eq!(cosine(180_000), -1_000_000);
    assert_eq!(cosine(270_000), 0);
    assert_eq!(cosine(60_000), 500_000);
}

#[test]
fn sine_handles_negative_angles_by_congruence() {
    assert_eq!(sine(-90_000), -1_000_000);
    assert_eq!(sine(-180_000), 0);
}

#[test]
fn sine_stays_within_the_unit() {
    let mut a: i64 = -360_000;
    while a <= 360_000 {
        let s = sine(a);
        let c = cosine(a);
        assert!(-1_000_000 <= s && s <= 1_000_000);
        assert!(-1_000_000 <= c && c <= 1_000_000);
        a += 1_537;
    }
}
