use lottery_engine::numbers::{
    find_winning_tier, generate_numbers, generate_player_numbers, generate_winning_numbers,
};

#[test]
fn generator_is_deterministic_for_equal_times() {
    let t: u64 = 1_700_000_123;
    assert_eq!(generate_numbers(t), generate_numbers(t));
    assert_eq!(generate_winning_numbers(t), generate_player_numbers(t));
}

#[test]
fn generated_numbers_lie_in_position_ranges() {
    for t in [0u64, 6, 44, 45, 49, 1_700_000_123, u64::MAX] {
        let numbers = generate_numbers(t);
        for i in 0..6 {
            assert!(1 <= numbers[i]);
            assert!(numbers[i] as u64 <= 50 - i as u64);
        }
    }
}

#[test]
fn generator_follows_the_time_formula() {
    // position i draws ((t mod (50 - i)) + 1)
    assert_eq!(generate_numbers(0), [1, 1, 1, 1, 1, 1]);
    assert_eq!(generate_numbers(6), [7, 7, 7, 7, 7, 7]);
    assert_eq!(generate_numbers(100), [1, 3, 5, 7, 9, 11]);
}

#[test]
fn full_match_wins_the_top_tier() {
    let winning: [u8; 6] = [7, 3, 9, 1, 5, 2];
    let player: [u8; 6] = [7, 3, 9, 1, 5, 2];
    assert_eq!(find_winning_tier(&player, &winning), Some(0));
}

#[test]
fn single_match_wins_that_position_tier() {
    let winning: [u8; 6] = [7, 3, 9, 1, 5, 2];
    // matches the winning sequence only at position 3
    let player: [u8; 6] = [1, 2, 3, 1, 4, 6];
    assert_eq!(find_winning_tier(&player, &winning), Some(3));
}

#[test]
fn no_match_wins_nothing() {
    let winning: [u8; 6] = [7, 3, 9, 1, 5, 2];
    let player: [u8; 6] = [8, 4, 10, 2, 6, 3];
    assert_eq!(find_winning_tier(&player, &winning), None);
}

#[test]
fn lowest_matching_position_takes_priority() {
    let winning: [u8; 6] = [7, 3, 9, 1, 5, 2];
    // matches at positions 1 and 3; tier 1 must win
    let player: [u8; 6] = [1, 3, 4, 1, 9, 9];
    assert_eq!(find_winning_tier(&player, &winning), Some(1));
}
