use vstd::prelude::*;

use crate::components::{GameState, HighScore};

verus! {

/// The high score at start-up, from the score found in the save (`None` when
/// there is no save or it could not be read): that score, or 0.
pub open spec fn loaded(saved: Option<u32>) -> HighScore {
    HighScore {
        score: match saved {
            Some(s) => s,
            None => 0,
        },
        is_new_record: false,
    }
}

/// The high score after a frame, and the score to write to the save, if any.
/// Only a frame in which the game state changed and the run is over settles
/// anything: the record is new exactly when the run beats the high score,
/// which then takes the run's score, and that score is to be saved.
pub open spec fn settled(state_changed: bool, game_state: GameState, high_score: HighScore) -> (
    HighScore,
    Option<u32>,
) {
    if state_changed && game_state.game_over {
        if game_state.score > high_score.score {
            (HighScore { score: game_state.score, is_new_record: true }, Some(game_state.score))
        } else {
            (HighScore { score: high_score.score, is_new_record: false }, None)
        }
    } else {
        (high_score, None)
    }
}

/// The high score at start-up, from the score found in the save, if one was
/// found and read: that score, or 0 without one. No record is new yet.
pub fn load_high_score(saved: Option<u32>) -> (high_score: HighScore)
    ensures
        high_score == loaded(saved),
        saved matches Some(s) ==> high_score.score == s,
        saved is None ==> high_score.score == 0,
        !high_score.is_new_record,
{
    let score = match saved {
        Some(s) => s,
        None => 0,
    };
    HighScore { score, is_new_record: false }
}

/// Settles the high score once a run has ended (see `settled`), and returns
/// the score to write to the save.
pub fn check_and_save_high_score(
    state_changed: bool,
    game_state: &GameState,
    high_score: &mut HighScore,
) -> (to_save: Option<u32>)
    ensures
        (*final(high_score), to_save) == settled(state_changed, *game_state, *old(high_score)),
        state_changed && game_state.game_over ==> (final(high_score).is_new_record
            <==> game_state.score > old(high_score).score),
        state_changed && game_state.game_over && game_state.score > old(high_score).score ==> (
        to_save == Some(game_state.score) && final(high_score).score == game_state.score),
        state_changed && game_state.game_over && game_state.score <= old(high_score).score ==> (
        to_save is None && final(high_score).score == old(high_score).score),
        !(state_changed && game_state.game_over) ==> (*final(high_score) == *old(high_score)
            && to_save is None),
        to_save is Some <==> final(high_score).is_new_record && state_changed
            && game_state.game_over,
        final(high_score).score >= old(high_score).score,
        state_changed && game_state.game_over ==> final(high_score).score >= game_state.score,
{
    if state_changed && game_state.game_over {
        high_score.is_new_record = game_state.score > high_score.score;
        if high_score.is_new_record {
            high_score.score = game_state.score;
            return Some(high_score.score);
        }
    }
    None
}

/// Settling an ended run: the record is new exactly when the run's score is
/// strictly above the old high score; a new record is always saved, as the
/// run's score, and becomes the high score; otherwise nothing is saved and
/// the high score stays. A frame that does not end a changed run changes
/// nothing and saves nothing.
pub proof fn law_settle_record(state_changed: bool, game_state: GameState, high_score: HighScore)
    ensures
        ({
            let (after, to_save) = settled(state_changed, game_state, high_score);
            &&& state_changed && game_state.game_over ==> (after.is_new_record
                <==> game_state.score > high_score.score)
            &&& state_changed && game_state.game_over && game_state.score > high_score.score ==> (
            to_save == Some(game_state.score) && after.score == game_state.score)
            &&& state_changed && game_state.game_over && game_state.score <= high_score.score ==> (
            to_save is None && after.score == high_score.score)
            &&& !(state_changed && game_state.game_over) ==> (after == high_score && to_save is None)
        }),
{
}

/// What is saved is the new high score: loading it back at the next start
/// gives that high score.
pub proof fn law_saved_record_reloads(state_changed: bool, game_state: GameState, high_score: HighScore)
    ensures
        ({
            let (after, to_save) = settled(state_changed, game_state, high_score);
            to_save matches Some(s) ==> loaded(Some(s)).score == after.score && after.is_new_record
        }),
{
}

/// A run's record is counted once: settling the same ended run again keeps
/// the high score and saves nothing more.
pub proof fn law_record_counted_once(state_changed: bool, game_state: GameState, high_score: HighScore)
    ensures
        ({
            let (after, _) = settled(state_changed, game_state, high_score);
            let (again, to_save) = settled(state_changed, game_state, after);
            again.score == after.score && to_save is None
        }),
{
}

} // verus!
