use vstd::prelude::*;

use crate::components::{GameState, HighScore};
use crate::text::{decimal, decimal_value, is_digit, labelled_number, lemma_decimal_reads_back};

verus! {

/// The running score text for a score.
pub open spec fn score_text_for(score: u32) -> Seq<char> {
    "Score: "@ + decimal(score as nat)
}

/// The score text shows the score exactly: after the `Score: ` label come
/// only digits, with no leading zero, and they read back as the score. So two
/// different scores never show the same text.
pub proof fn law_score_text_shows_score(score: u32, other: u32)
    ensures
        score_text_for(score).take(7) == "Score: "@,
        forall|i: int| 7 <= i < score_text_for(score).len() ==> is_digit(#[trigger] score_text_for(score)[i]),
        decimal_value(score_text_for(score).skip(7)) == score,
        score_text_for(score)[7] == '0' ==> score == 0,
        score != other ==> score_text_for(score) != score_text_for(other),
{
    reveal_strlit("Score: ");
    lemma_decimal_reads_back(score as nat);
    lemma_decimal_reads_back(other as nat);
    let t = score_text_for(score);
    assert(t.take(7) =~= "Score: "@);
    assert(t.skip(7) =~= decimal(score as nat));
    assert forall|i: int| 7 <= i < t.len() implies is_digit(#[trigger] t[i]) by {
        assert(t[i] == decimal(score as nat)[i - 7]);
    }
    if score != other && t == score_text_for(other) {
        assert(score_text_for(other).skip(7) =~= decimal(other as nat));
    }
}

/// The running score text for `score`: `Score: ` and the score in decimal.
pub fn score_text(score: u32) -> (text: String)
    ensures
        text@ == score_text_for(score),
{
    labelled_number("Score: ", score)
}

/// The score text shown when a run starts.
pub fn spawn_score_text() -> (text: String)
    ensures
        text@ == "Score: 0"@,
        text@ == score_text_for(0),
{
    proof {
        reveal_strlit("Score: ");
        reveal_strlit("Score: 0");
        assert(decimal(0) == seq!['0']);
        assert("Score: "@ + decimal(0) =~= "Score: 0"@);
    }
    score_text(0)
}

/// The new score text, when the game state changed this frame; `None` when
/// the text stays as it is.
pub fn update_score_text(state_changed: bool, game_state: &GameState) -> (text: Option<String>)
    ensures
        text is Some <==> state_changed,
        text matches Some(t) ==> t@ == score_text_for(game_state.score),
{
    if state_changed {
        Some(score_text(game_state.score))
    } else {
        None
    }
}

/// The texts of the game-over screen.
pub struct GameOverScreen {
    pub title: String,
    /// Shown only when the run set a new record.
    pub record_banner: Option<String>,
    pub final_score: String,
    pub high_score: String,
    pub restart_label: String,
    pub play_again_label: String,
}

/// What the end-of-run check asks for this frame.
pub enum GameOverAction {
    /// The run goes on: nothing to do.
    KeepPlaying,
    /// The run is over and its screen is already up: the ship and the score
    /// text are to be removed.
    ClearField,
    /// The run is over and no screen is up: the ship and the score text are
    /// to be removed and this screen shown.
    ShowScreen(GameOverScreen),
}

/// The end-of-run check. `screen_shown` says whether a game-over screen is
/// already up.
pub fn check_game_over(game_state: &GameState, high_score: &HighScore, screen_shown: bool) -> (action:
    GameOverAction)
    ensures
        !game_state.game_over ==> action is KeepPlaying,
        game_state.game_over && screen_shown ==> action is ClearField,
        game_state.game_over && !screen_shown ==> action is ShowScreen,
        action matches GameOverAction::ShowScreen(screen) ==> {
            &&& screen.title@ == "Game Over"@
            &&& (screen.record_banner is Some <==> high_score.is_new_record)
            &&& (screen.record_banner matches Some(b) ==> b@ == "New Record!"@)
            &&& screen.final_score@ == "Final Score: "@ + decimal(game_state.score as nat)
            &&& screen.high_score@ == "High Score: "@ + decimal(high_score.score as nat)
            &&& screen.restart_label@ == "Restart"@
            &&& screen.play_again_label@ == "Play Again"@
        },
{
    if !game_state.game_over {
        return GameOverAction::KeepPlaying;
    }
    if screen_shown {
        return GameOverAction::ClearField;
    }
    let record_banner = if high_score.is_new_record {
        Some(String::from_str("New Record!"))
    } else {
        None
    };
    GameOverAction::ShowScreen(
        GameOverScreen {
            title: String::from_str("Game Over"),
            record_banner,
            final_score: labelled_number("Final Score: ", game_state.score),
            high_score: labelled_number("High Score: ", high_score.score),
            restart_label: String::from_str("Restart"),
            play_again_label: String::from_str("Play Again"),
        },
    )
}

/// State of a button as the pointer last left it.
#[derive(Clone, Copy, Debug, PartialEq, Eq, Structural)]
pub enum ButtonInteraction {
    Pressed,
    Hovered,
    Idle,
}

/// Starts a fresh run: the game state goes back to its start, and the record
/// flag is cleared while the high score itself is kept.
pub fn reset_game(game_state: &mut GameState, high_score: &mut HighScore)
    ensures
        final(game_state).score == 0,
        final(game_state).speed_level == 1,
        !final(game_state).game_over,
        final(game_state).well_formed(),
        final(high_score).score == old(high_score).score,
        !final(high_score).is_new_record,
{
    *game_state = GameState::default();
    high_score.is_new_record = false;
}

/// The restart button. `interaction` is the button's new state when exactly
/// one such button changed this frame. A press starts a fresh run and the
/// result says so; anything else leaves both states as they are.
pub fn restart_game(
    interaction: Option<ButtonInteraction>,
    game_state: &mut GameState,
    high_score: &mut HighScore,
) -> (reset: bool)
    ensures
        reset == (interaction == Some(ButtonInteraction::Pressed)),
        reset ==> final(game_state).score == 0 && final(game_state).speed_level == 1
            && !final(game_state).game_over && final(high_score).score == old(high_score).score
            && !final(high_score).is_new_record,
        !reset ==> *final(game_state) == *old(game_state) && *final(high_score) == *old(
            high_score,
        ),
{
    if interaction == Some(ButtonInteraction::Pressed) {
        reset_game(game_state, high_score);
        true
    } else {
        false
    }
}

/// The play-again button: the same as the restart button.
pub fn play_again(
    interaction: Option<ButtonInteraction>,
    game_state: &mut GameState,
    high_score: &mut HighScore,
) -> (reset: bool)
    ensures
        reset == (interaction == Some(ButtonInteraction::Pressed)),
        reset ==> final(game_state).score == 0 && final(game_state).speed_level == 1
            && !final(game_state).game_over && final(high_score).score == old(high_score).score
            && !final(high_score).is_new_record,
        !reset ==> *final(game_state) == *old(game_state) && *final(high_score) == *old(
            high_score,
        ),
{
    if interaction == Some(ButtonInteraction::Pressed) {
        reset_game(game_state, high_score);
        true
    } else {
        false
    }
}

} // verus!
