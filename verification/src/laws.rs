//! Round-level guarantees of the turn processor, proved once over the
//! spec-level transition [`handle_spec`] that the executable entry points are
//! held to.

use vstd::prelude::*;
use crate::engine::{handle_spec, initial_state};
use crate::game::{DifficultyLevel, GameError, GameState, PebblesAction, PebblesEvent, Player};
use crate::strategy::{lemma_take_amount_bounds, take_amount};

verus! {

/// While the round is in progress, a valid turn always succeeds, and the
/// pile strictly decreases: by the pebbles the human player took, plus —
/// whenever the round continues past the human half-move — the automated
/// opponent's counter move. The pile never goes below zero, and reaching
/// zero on the human half-move crowns the human player.
pub proof fn lemma_turn_decreases(
    state: GameState,
    pebbles_taken: u32,
    random_first: u32,
    random_second: u32,
)
    requires
        state.wf(),
        state.winner is None,
        1 <= pebbles_taken,
        pebbles_taken <= state.max_pebbles_per_turn,
        pebbles_taken <= state.pebbles_remaining,
    ensures
        handle_spec(state, PebblesAction::Turn(pebbles_taken), random_first, random_second)
            matches Ok((new_state, _event)) && {
            let after_user: int = state.pebbles_remaining - pebbles_taken;
            &&& new_state.pebbles_remaining == if after_user == 0 {
                0int
            } else {
                after_user - take_amount(
                    state.difficulty,
                    after_user as u32,
                    state.max_pebbles_per_turn,
                    random_first,
                )
            }
            &&& new_state.pebbles_remaining + pebbles_taken <= state.pebbles_remaining
            &&& after_user == 0 ==> new_state.winner == Some(Player::User)
        },
{
    let after_user: int = state.pebbles_remaining - pebbles_taken;
    if after_user != 0 {
        lemma_take_amount_bounds(
            state.difficulty,
            after_user as u32,
            state.max_pebbles_per_turn,
            random_first,
        );
    }
}

/// Giving up while the round is in progress always crowns the automated
/// opponent, always announces it, and leaves the pile exactly as it was:
/// conceding alters the outcome, never the pebble count.
pub proof fn lemma_give_up(state: GameState, random_first: u32, random_second: u32)
    requires
        state.winner is None,
    ensures
        handle_spec(state, PebblesAction::GiveUp, random_first, random_second)
            matches Ok((new_state, event)) && {
            &&& new_state == (GameState { winner: Some(Player::Program), ..state })
            &&& new_state.pebbles_remaining == state.pebbles_remaining
            &&& new_state.winner == Some(Player::Program)
            &&& event == Some(PebblesEvent::Won(Player::Program))
        },
{
}

/// Once a round is finished its winner is permanent: a turn or a concession
/// is rejected without touching the state, so the winner can change only
/// through a restart.
pub proof fn lemma_finished_round_is_frozen(
    state: GameState,
    pebbles_taken: u32,
    random_first: u32,
    random_second: u32,
)
    requires
        state.winner is Some,
    ensures
        handle_spec(state, PebblesAction::Turn(pebbles_taken), random_first, random_second)
            == Err::<(GameState, Option<PebblesEvent>), GameError>(GameError::GameAlreadyFinished),
        handle_spec(state, PebblesAction::GiveUp, random_first, random_second)
            == Err::<(GameState, Option<PebblesEvent>), GameError>(GameError::GameAlreadyFinished),
{
}

/// A restart with valid parameters depends on those parameters and the two
/// random draws alone: any two prior states — finished or not — transition
/// to the same fresh round, with no winner and the pile recomputed from the
/// new parameters.
pub proof fn lemma_restart_ignores_prior_state(
    state_a: GameState,
    state_b: GameState,
    difficulty: DifficultyLevel,
    pebbles_count: u32,
    max_pebbles_per_turn: u32,
    random_first: u32,
    random_second: u32,
)
    requires
        pebbles_count >= 1,
        max_pebbles_per_turn >= 1,
    ensures
        handle_spec(
            state_a,
            PebblesAction::Restart { difficulty, pebbles_count, max_pebbles_per_turn },
            random_first,
            random_second,
        ) == handle_spec(
            state_b,
            PebblesAction::Restart { difficulty, pebbles_count, max_pebbles_per_turn },
            random_first,
            random_second,
        ),
        handle_spec(
            state_a,
            PebblesAction::Restart { difficulty, pebbles_count, max_pebbles_per_turn },
            random_first,
            random_second,
        ) matches Ok((new_state, _event)) && {
            &&& new_state == initial_state(
                pebbles_count,
                max_pebbles_per_turn,
                difficulty,
                random_first,
                random_second,
            )
            &&& new_state.winner is None
        },
{
}

} // verus!
