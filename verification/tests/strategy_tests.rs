use pebble_game::game::{DifficultyLevel, Player};
use pebble_game::strategy::{get_contract_pebbles_taken, get_first_player, u32_from_le_bytes};

#[test]
fn hard_strategy_is_deterministic_and_optimal() {
    // 10 mod (3 + 1) = 2: the draw is ignored on hard difficulty.
    assert_eq!(get_contract_pebbles_taken(10, 3, DifficultyLevel::Hard, 0), 2);
    assert_eq!(get_contract_pebbles_taken(10, 3, DifficultyLevel::Hard, 999), 2);
    // 8 mod 4 = 0: already a losing position, concede the minimum of one.
    assert_eq!(get_contract_pebbles_taken(8, 3, DifficultyLevel::Hard, 0), 1);
    assert_eq!(get_contract_pebbles_taken(8, 3, DifficultyLevel::Hard, 17), 1);
}

#[test]
fn hard_strategy_opening_example() {
    // 13 mod 4 = 1.
    assert_eq!(get_contract_pebbles_taken(13, 3, DifficultyLevel::Hard, 5), 1);
}

#[test]
fn hard_strategy_with_largest_bound() {
    // remaining < max + 1, and remaining mod (max + 1) = remaining.
    assert_eq!(get_contract_pebbles_taken(7, u32::MAX, DifficultyLevel::Hard, 0), 7);
}

#[test]
fn easy_strategy_follows_the_draw() {
    // draw mod max + 1 = 7 mod 3 + 1 = 2, within the pile of 5.
    assert_eq!(get_contract_pebbles_taken(5, 3, DifficultyLevel::Easy, 7), 2);
    // 9 mod 5 + 1 = 5, clamped to the single remaining pebble.
    assert_eq!(get_contract_pebbles_taken(1, 5, DifficultyLevel::Easy, 9), 1);
    // 2 mod 4 + 1 = 3, exactly the pile.
    assert_eq!(get_contract_pebbles_taken(3, 4, DifficultyLevel::Easy, 2), 3);
}

#[test]
fn first_player_by_parity() {
    assert_eq!(get_first_player(0), Player::User);
    assert_eq!(get_first_player(2), Player::User);
    assert_eq!(get_first_player(1), Player::Program);
    assert_eq!(get_first_player(4294967295), Player::Program);
}

#[test]
fn u32_from_le_bytes_combines_in_order() {
    assert_eq!(u32_from_le_bytes(0x78, 0x56, 0x34, 0x12), 0x12345678);
    assert_eq!(u32_from_le_bytes(0, 0, 0, 0), 0);
    assert_eq!(u32_from_le_bytes(255, 255, 255, 255), u32::MAX);
    assert_eq!(u32_from_le_bytes(1, 0, 0, 0), 1);
}
