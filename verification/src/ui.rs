//! The HUD's decision logic: what the replay button does for each
//! interaction, and the decimal text shown for the score.

use vstd::prelude::*;

verus! {

use crate::AppState;

/// Interaction state of the replay button, as the UI reports it.
#[derive(Clone, Copy, PartialEq, Eq, Structural, Debug)]
pub enum ButtonInteraction {
    Pressed,
    Hovered,
    Idle,
}

/// How the replay button is tinted: full white normally, dimmed when
/// hovered, dimmed further when pressed.
#[derive(Clone, Copy, PartialEq, Eq, Structural, Debug)]
pub enum ButtonVisual {
    Normal,
    Hovered,
    Pressed,
}

/// Reaction of the replay button to one frame's interaction: the tint to
/// draw, and the state to switch to (playing again on a press).
pub fn interact_with_replay_button(interaction: ButtonInteraction) -> (r: (
    ButtonVisual,
    Option<AppState>,
))
    ensures
        interaction == ButtonInteraction::Pressed ==> r == (
            ButtonVisual::Pressed,
            Some(AppState::Playing),
        ),
        interaction == ButtonInteraction::Hovered ==> r == (
            ButtonVisual::Hovered,
            Option::<AppState>::None,
        ),
        interaction == ButtonInteraction::Idle ==> r == (
            ButtonVisual::Normal,
            Option::<AppState>::None,
        ),
{
    match interaction {
        ButtonInteraction::Pressed => (ButtonVisual::Pressed, Some(AppState::Playing)),
        ButtonInteraction::Hovered => (ButtonVisual::Hovered, None),
        ButtonInteraction::Idle => (ButtonVisual::Normal, None),
    }
}

/// The decimal digits of `n`, most significant first, as ASCII bytes.
pub open spec fn dec_digits(n: nat) -> Seq<u8>
    decreases n,
{
    if n < 10 {
        seq![(48 + n) as u8]
    } else {
        dec_digits(n / 10).push((48 + n % 10) as u8)
    }
}

/// The score rendered as decimal ASCII text.
pub fn update_score_text(score: usize) -> (text: Vec<u8>)
    ensures
        text@ == dec_digits(score as nat),
    decreases score,
{
    let mut text = if score >= 10 {
        update_score_text(score / 10)
    } else {
        Vec::new()
    };
    text.push(48 + (score % 10) as u8);
    proof {
        assert(text@ =~= dec_digits(score as nat));
    }
    text
}

} // verus!
