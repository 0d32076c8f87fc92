//! The data model of one round: players, difficulty, actions, events and the
//! game state with its invariant.

use vstd::prelude::*;

verus! {

/// The two parties of a round: the human player and the automated opponent.
#[derive(Clone, Copy, PartialEq, Eq, Structural, Debug)]
pub enum Player {
    User,
    Program,
}

/// How the automated opponent selects its moves.
#[derive(Clone, Copy, PartialEq, Eq, Structural, Debug)]
pub enum DifficultyLevel {
    Easy,
    Hard,
}

/// Parameters of a fresh round.
#[derive(Clone, Copy, PartialEq, Eq, Structural, Debug)]
pub struct PebblesInit {
    pub difficulty: DifficultyLevel,
    pub pebbles_count: u32,
    pub max_pebbles_per_turn: u32,
}

/// An action submitted by the human player.
#[derive(Clone, Copy, PartialEq, Eq, Structural, Debug)]
pub enum PebblesAction {
    Turn(u32),
    GiveUp,
    Restart { difficulty: DifficultyLevel, pebbles_count: u32, max_pebbles_per_turn: u32 },
}

/// A notification emitted after a handled action.
#[derive(Clone, Copy, PartialEq, Eq, Structural, Debug)]
pub enum PebblesEvent {
    CounterTurn(u32),
    Won(Player),
}

/// Why a request was rejected. Every error aborts the requested action and
/// leaves the previous game state untouched.
#[derive(Clone, Copy, PartialEq, Eq, Structural, Debug)]
pub enum GameError {
    /// Initialization or restart with a zero `pebbles_count` or a zero
    /// `max_pebbles_per_turn`.
    InvalidInitArguments,
    /// A turn taking zero pebbles or more than `max_pebbles_per_turn`.
    InvalidTurnAmount,
    /// A turn taking more pebbles than remain in the pile.
    NotEnoughPebbles,
    /// A turn or a concession submitted after the round has finished; the
    /// winner is set exactly once, and only a restart is valid then.
    GameAlreadyFinished,
}

/// The state of one round.
#[derive(Clone, Copy, PartialEq, Eq, Debug)]
pub struct GameState {
    /// Total pebbles the round started with; fixed for the round.
    pub pebbles_count: u32,
    /// Upper bound on pebbles removable in one turn; fixed for the round.
    pub max_pebbles_per_turn: u32,
    /// Pebbles still in the pile.
    pub pebbles_remaining: u32,
    /// Move-selection strategy of the automated opponent; fixed for the round.
    pub difficulty: DifficultyLevel,
    /// Which side moved first; fixed for the round.
    pub first_player: Player,
    /// `None` while the round is in progress.
    pub winner: Option<Player>,
}

impl GameState {
    /// Well-formedness: the bounds are positive and the pile never exceeds
    /// the round's starting count. Initialization establishes this and every
    /// action preserves it.
    pub open spec fn wf(self) -> bool {
        &&& self.pebbles_count >= 1
        &&& self.max_pebbles_per_turn >= 1
        &&& self.pebbles_remaining <= self.pebbles_count
    }
}

} // verus!
