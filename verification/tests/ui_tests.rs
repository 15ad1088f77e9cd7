use planet_hopper::AppState;
use planet_hopper::ui::{
    ButtonInteraction, ButtonVisual, interact_with_replay_button, update_score_text,
};

#[test]
fn pressing_replay_restarts_the_game() {
    let (visual, next) = interact_with_replay_button(ButtonInteraction::Pressed);
    assert_eq!(visual, ButtonVisual::Pressed);
    assert_eq!(next, Some(AppState::Playing));
}

#[test]
fn hovering_only_tints_the_button() {
    let (visual, next) = interact_with_replay_button(ButtonInteraction::Hovered);
    assert_eq!(visual, ButtonVisual::Hovered);
    assert_eq!(next, None);
}

#[test]
fn an_idle_button_shows_the_normal_tint() {
    let (visual, next) = interact_with_replay_button(ButtonInteraction::Idle);
    assert_eq!(visual, ButtonVisual::Normal);
    assert_eq!(next, None);
}

#[test]
fn the_score_renders_in_decimal() {
    assert_eq!(update_score_text(0), b"0");
    assert_eq!(update_score_text(7), b"7");
    assert_eq!(update_score_text(42), b"42");
    assert_eq!(update_score_text(1000), b"1000");
    assert_eq!(update_score_text(987_654), b"987654");
}
