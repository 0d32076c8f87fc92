//! The automated opponent's move selection and the first-player draw.
//!
//! Both consume one value from the host's random source; the value is passed
//! in as a plain `u32`, so every function here is deterministic in its
//! arguments and carries an exact contract.

use vstd::prelude::*;
use vstd::arithmetic::div_mod::{lemma_mod_bound, lemma_mod_decreases, lemma_small_mod};
use crate::game::{DifficultyLevel, Player};

verus! {

/// How many pebbles the automated opponent takes from a pile of
/// `pebbles_remaining`, given the per-turn bound and one random draw.
///
/// Easy: a uniformly spread move, `min(random % max + 1, remaining)`.
/// Hard: optimal play. With `r = remaining % (max + 1)`, taking `r` leaves
/// the human player at a multiple of `max + 1`, a losing position under
/// perfect play; when `r == 0` the mover is already losing and concedes the
/// minimum, one pebble.
pub open spec fn take_amount(
    difficulty: DifficultyLevel,
    pebbles_remaining: u32,
    max_pebbles_per_turn: u32,
    random: u32,
) -> int {
    match difficulty {
        DifficultyLevel::Easy => {
            let candidate = random as int % (max_pebbles_per_turn as int) + 1;
            if candidate <= pebbles_remaining as int {
                candidate
            } else {
                pebbles_remaining as int
            }
        }
        DifficultyLevel::Hard => {
            let optimal = pebbles_remaining as int % (max_pebbles_per_turn as int + 1);
            if optimal == 0 {
                1
            } else {
                optimal
            }
        }
    }
}

/// On a non-empty pile the opponent always takes at least one pebble, never
/// more than remain, and never more than the per-turn bound.
pub proof fn lemma_take_amount_bounds(
    difficulty: DifficultyLevel,
    pebbles_remaining: u32,
    max_pebbles_per_turn: u32,
    random: u32,
)
    requires
        pebbles_remaining >= 1,
        max_pebbles_per_turn >= 1,
    ensures
        1 <= take_amount(difficulty, pebbles_remaining, max_pebbles_per_turn, random),
        take_amount(difficulty, pebbles_remaining, max_pebbles_per_turn, random)
            <= pebbles_remaining,
        take_amount(difficulty, pebbles_remaining, max_pebbles_per_turn, random)
            <= max_pebbles_per_turn,
{
    match difficulty {
        DifficultyLevel::Easy => {
            lemma_mod_bound(random as int, max_pebbles_per_turn as int);
        }
        DifficultyLevel::Hard => {
            lemma_mod_bound(pebbles_remaining as int, max_pebbles_per_turn as int + 1);
            lemma_mod_decreases(pebbles_remaining as nat, (max_pebbles_per_turn + 1) as nat);
        }
    }
}

/// Executable form of the difficulty strategy; see [`take_amount`].
pub fn get_contract_pebbles_taken(
    pebbles_remaining: u32,
    max_pebbles_per_turn: u32,
    difficulty: DifficultyLevel,
    random: u32,
) -> (taken: u32)
    requires
        pebbles_remaining >= 1,
        max_pebbles_per_turn >= 1,
    ensures
        taken == take_amount(difficulty, pebbles_remaining, max_pebbles_per_turn, random),
        1 <= taken,
        taken <= pebbles_remaining,
        taken <= max_pebbles_per_turn,
{
    proof {
        lemma_take_amount_bounds(difficulty, pebbles_remaining, max_pebbles_per_turn, random);
    }
    match difficulty {
        DifficultyLevel::Easy => {
            proof {
                lemma_mod_bound(random as int, max_pebbles_per_turn as int);
            }
            let candidate: u32 = random % max_pebbles_per_turn + 1;
            if candidate <= pebbles_remaining {
                candidate
            } else {
                pebbles_remaining
            }
        }
        DifficultyLevel::Hard => {
            let divisor: u64 = max_pebbles_per_turn as u64 + 1;
            let optimal: u64 = pebbles_remaining as u64 % divisor;
            proof {
                lemma_mod_bound(pebbles_remaining as int, divisor as int);
                if pebbles_remaining < divisor {
                    lemma_small_mod(pebbles_remaining as nat, divisor as nat);
                }
            }
            if optimal == 0 {
                1
            } else {
                optimal as u32
            }
        }
    }
}

/// Which side moves first, given one random draw: even chooses the human
/// player, odd the automated opponent.
pub open spec fn chosen_player(random: u32) -> Player {
    if random as int % 2 == 0 {
        Player::User
    } else {
        Player::Program
    }
}

/// Executable form of the first-player draw; see [`chosen_player`].
pub fn get_first_player(random: u32) -> (first: Player)
    ensures
        first == chosen_player(random),
{
    if random % 2 == 0 {
        Player::User
    } else {
        Player::Program
    }
}

/// Reads a `u32` from four bytes in little-endian order; the host's random
/// source hands back raw bytes, and this turns their prefix into one draw.
pub fn u32_from_le_bytes(b0: u8, b1: u8, b2: u8, b3: u8) -> (value: u32)
    ensures
        value == b0 + b1 * 0x100 + b2 * 0x1_0000 + b3 * 0x100_0000,
{
    b0 as u32 + (b1 as u32) * 0x100 + (b2 as u32) * 0x1_0000 + (b3 as u32) * 0x100_0000
}

} // verus!
