//! The lifecycle manager and the turn processor.
//!
//! Initialization and restart build a fresh [`GameState`]; a turn is
//! validated, applied, answered by the automated opponent, and the winner is
//! detected after each half-move. Each executable entry point is proved equal
//! to a spec-level model of the same transition.

use vstd::prelude::*;
use crate::game::{DifficultyLevel, GameError, GameState, PebblesAction, PebblesEvent, PebblesInit, Player};
use crate::strategy::{chosen_player, get_contract_pebbles_taken, get_first_player, take_amount};

verus! {

/// The state a round starts in, given valid parameters and the two random
/// draws: the first draw picks the first player; when the automated opponent
/// moves first, its opening move is computed from the second draw and
/// subtracted at once.
pub open spec fn initial_state(
    pebbles_count: u32,
    max_pebbles_per_turn: u32,
    difficulty: DifficultyLevel,
    random_first: u32,
    random_move: u32,
) -> GameState {
    let first_player = chosen_player(random_first);
    let pebbles_remaining: int = if first_player is Program {
        pebbles_count - take_amount(difficulty, pebbles_count, max_pebbles_per_turn, random_move)
    } else {
        pebbles_count as int
    };
    GameState {
        pebbles_count,
        max_pebbles_per_turn,
        pebbles_remaining: pebbles_remaining as u32,
        difficulty,
        first_player,
        winner: None,
    }
}

/// The one notification a round start emits: the opening counter turn, if and
/// only if the automated opponent moves first.
pub open spec fn initial_event(
    pebbles_count: u32,
    max_pebbles_per_turn: u32,
    difficulty: DifficultyLevel,
    random_first: u32,
    random_move: u32,
) -> Option<PebblesEvent> {
    if chosen_player(random_first) is Program {
        Some(PebblesEvent::CounterTurn(
            take_amount(difficulty, pebbles_count, max_pebbles_per_turn, random_move) as u32,
        ))
    } else {
        None
    }
}

/// Outcome of the human player taking `pebbles_taken` pebbles: the new state
/// and the emitted notification, or the error that rejects the turn. A turn
/// is only valid while the round is in progress: once the winner is set it
/// is permanent, and only a restart is accepted.
pub open spec fn turn_spec(
    state: GameState,
    pebbles_taken: u32,
    random_counter: u32,
) -> Result<(GameState, Option<PebblesEvent>), GameError> {
    if state.winner is Some {
        Err(GameError::GameAlreadyFinished)
    } else if pebbles_taken == 0 || pebbles_taken > state.max_pebbles_per_turn {
        Err(GameError::InvalidTurnAmount)
    } else if pebbles_taken > state.pebbles_remaining {
        Err(GameError::NotEnoughPebbles)
    } else {
        let after_user: int = state.pebbles_remaining - pebbles_taken;
        if after_user == 0 {
            Ok((
                GameState { pebbles_remaining: 0, winner: Some(Player::User), ..state },
                Some(PebblesEvent::Won(Player::User)),
            ))
        } else {
            let counter = take_amount(
                state.difficulty,
                after_user as u32,
                state.max_pebbles_per_turn,
                random_counter,
            );
            let after_program: int = after_user - counter;
            if after_program == 0 {
                Ok((
                    GameState { pebbles_remaining: 0, winner: Some(Player::Program), ..state },
                    Some(PebblesEvent::Won(Player::Program)),
                ))
            } else {
                Ok((
                    GameState { pebbles_remaining: after_program as u32, ..state },
                    Some(PebblesEvent::CounterTurn(counter as u32)),
                ))
            }
        }
    }
}

/// The full transition relation of the turn processor, one handled action at
/// a time. `random_first` is the first draw an action consumes and
/// `random_second` the second; `GiveUp` consumes none, `Turn` at most one,
/// `Restart` up to two.
pub open spec fn handle_spec(
    state: GameState,
    action: PebblesAction,
    random_first: u32,
    random_second: u32,
) -> Result<(GameState, Option<PebblesEvent>), GameError> {
    match action {
        PebblesAction::Turn(pebbles_taken) => turn_spec(state, pebbles_taken, random_first),
        PebblesAction::GiveUp => if state.winner is Some {
            Err(GameError::GameAlreadyFinished)
        } else {
            Ok((
                GameState { winner: Some(Player::Program), ..state },
                Some(PebblesEvent::Won(Player::Program)),
            ))
        },
        PebblesAction::Restart { difficulty, pebbles_count, max_pebbles_per_turn } => {
            if pebbles_count == 0 || max_pebbles_per_turn == 0 {
                Err(GameError::InvalidInitArguments)
            } else {
                Ok((
                    initial_state(pebbles_count, max_pebbles_per_turn, difficulty, random_first, random_second),
                    initial_event(pebbles_count, max_pebbles_per_turn, difficulty, random_first, random_second),
                ))
            }
        }
    }
}

/// Pile left at the start of a round, with the opening counter turn when the
/// automated opponent moves first.
pub fn get_init_pebbles_remain(
    pebbles_count: u32,
    max_pebbles_per_turn: u32,
    first_player: Player,
    difficulty: DifficultyLevel,
    random_move: u32,
) -> (result: (u32, Option<u32>))
    requires
        pebbles_count >= 1,
        max_pebbles_per_turn >= 1,
    ensures
        first_player is Program ==> {
            let taken = take_amount(difficulty, pebbles_count, max_pebbles_per_turn, random_move);
            &&& result.0 == pebbles_count - taken
            &&& result.1 == Some(taken as u32)
        },
        first_player is User ==> result.0 == pebbles_count && result.1 is None,
        result.0 <= pebbles_count,
{
    match first_player {
        Player::Program => {
            let counter_pebbles_taken = get_contract_pebbles_taken(
                pebbles_count,
                max_pebbles_per_turn,
                difficulty,
                random_move,
            );
            (pebbles_count - counter_pebbles_taken, Some(counter_pebbles_taken))
        }
        Player::User => (pebbles_count, None),
    }
}

/// Builds a fresh round from the given parameters, used both at
/// initialization and on restart. Rejects a zero `pebbles_count` or a zero
/// `max_pebbles_per_turn`; otherwise the produced state is exactly
/// [`initial_state`] and the emitted notification exactly [`initial_event`].
///
/// The `ensures` also states the start-of-round guarantees directly: the
/// pile is within `[0, pebbles_count]`, there is no winner yet, and a counter
/// turn is announced if and only if the automated opponent moves first.
pub fn init(
    init_params: PebblesInit,
    random_first: u32,
    random_move: u32,
) -> (result: Result<(GameState, Option<PebblesEvent>), GameError>)
    ensures
        result is Err <==> (init_params.pebbles_count == 0
            || init_params.max_pebbles_per_turn == 0),
        result is Err ==> result->Err_0 == GameError::InvalidInitArguments,
        result matches Ok((state, event)) ==> {
            &&& state == initial_state(
                init_params.pebbles_count,
                init_params.max_pebbles_per_turn,
                init_params.difficulty,
                random_first,
                random_move,
            )
            &&& event == initial_event(
                init_params.pebbles_count,
                init_params.max_pebbles_per_turn,
                init_params.difficulty,
                random_first,
                random_move,
            )
            &&& state.wf()
            &&& state.pebbles_remaining <= state.pebbles_count
            &&& state.winner is None
            &&& (event is Some <==> state.first_player is Program)
        },
{
    if init_params.pebbles_count == 0 || init_params.max_pebbles_per_turn == 0 {
        return Err(GameError::InvalidInitArguments);
    }
    let first_player = get_first_player(random_first);
    let (pebbles_remaining, counter) = get_init_pebbles_remain(
        init_params.pebbles_count,
        init_params.max_pebbles_per_turn,
        first_player,
        init_params.difficulty,
        random_move,
    );
    let event = match counter {
        Some(taken) => Some(PebblesEvent::CounterTurn(taken)),
        None => None,
    };
    Ok((
        GameState {
            pebbles_count: init_params.pebbles_count,
            max_pebbles_per_turn: init_params.max_pebbles_per_turn,
            pebbles_remaining,
            difficulty: init_params.difficulty,
            first_player,
            winner: None,
        },
        event,
    ))
}

/// Handles one action against the current state and returns the replacement
/// state with the notification to emit, or the error that rejects the
/// action. Once a round is finished, a turn or a concession is rejected:
/// the winner stands permanently and only a restart is accepted. The result
/// is exactly the spec-level transition [`handle_spec`], and a successful
/// transition preserves well-formedness.
pub fn handle(
    state: GameState,
    action: PebblesAction,
    random_first: u32,
    random_second: u32,
) -> (result: Result<(GameState, Option<PebblesEvent>), GameError>)
    requires
        state.wf(),
    ensures
        result == handle_spec(state, action, random_first, random_second),
        result matches Ok((new_state, _event)) ==> new_state.wf(),
{
    match action {
        PebblesAction::Turn(pebbles_taken) => {
            if state.winner.is_some() {
                return Err(GameError::GameAlreadyFinished);
            }
            if pebbles_taken == 0 || pebbles_taken > state.max_pebbles_per_turn {
                return Err(GameError::InvalidTurnAmount);
            }
            if pebbles_taken > state.pebbles_remaining {
                return Err(GameError::NotEnoughPebbles);
            }
            let mut new_state = state;
            new_state.pebbles_remaining = new_state.pebbles_remaining - pebbles_taken;
            if new_state.pebbles_remaining == 0 {
                new_state.winner = Some(Player::User);
                Ok((new_state, Some(PebblesEvent::Won(Player::User))))
            } else {
                let counter_pebbles_taken = get_contract_pebbles_taken(
                    new_state.pebbles_remaining,
                    new_state.max_pebbles_per_turn,
                    new_state.difficulty,
                    random_first,
                );
                new_state.pebbles_remaining = new_state.pebbles_remaining - counter_pebbles_taken;
                if new_state.pebbles_remaining == 0 {
                    new_state.winner = Some(Player::Program);
                    Ok((new_state, Some(PebblesEvent::Won(Player::Program))))
                } else {
                    Ok((new_state, Some(PebblesEvent::CounterTurn(counter_pebbles_taken))))
                }
            }
        }
        PebblesAction::GiveUp => {
            if state.winner.is_some() {
                return Err(GameError::GameAlreadyFinished);
            }
            let mut new_state = state;
            new_state.winner = Some(Player::Program);
            Ok((new_state, Some(PebblesEvent::Won(Player::Program))))
        }
        PebblesAction::Restart { difficulty, pebbles_count, max_pebbles_per_turn } => {
            // A restart discards the prior round entirely and delegates to
            // the lifecycle manager with the new parameters.
            init(
                PebblesInit { difficulty, pebbles_count, max_pebbles_per_turn },
                random_first,
                random_second,
            )
        }
    }
}

/// The state-query entry point: a snapshot of the current state, identical to
/// the state itself.
pub fn state(game: &GameState) -> (snapshot: GameState)
    ensures
        snapshot == *game,
{
    *game
}

} // verus!
