use bowling::Game;
use bowling::GameError;

fn roll_times(game: &mut Game, pins: usize, times: usize) {
    for _ in 0..times {
        game.roll(pins);
    }
}

fn roll_all(game: &mut Game, rolls: &[usize]) {
    for &pins in rolls {
        game.roll(pins);
    }
}

fn perform_full_game(rolls: &[usize], expected_score: usize) {
    let mut game = Game::new();
    roll_all(&mut game, rolls);
    assert_eq!(game.score(), Ok(expected_score));
}

fn simple_test(pins: usize, times: usize, expected: usize) {
    let mut game = Game::new();
    roll_times(&mut game, pins, times);
    assert_eq!(game.score(), Ok(expected));
}

#[test]
fn gutter_game_scores_zero() {
    simple_test(0, 20, 0);
}

#[test]
fn ones_only_game_scores_twenty() {
    simple_test(1, 20, 20);
}

#[test]
fn perfect_game_scores_three_hundred() {
    simple_test(10, 12, 300);
}

#[test]
fn spare_should_count_next_throw_as_bonus() {
    let mut game = Game::new();
    game.roll(9);
    game.roll(1);
    roll_times(&mut game, 1, 18);
    assert_eq!(game.score(), Ok(29));
}

#[test]
fn spare_should_count_next_throw_as_bonus_in_last_frame() {
    let mut game = Game::new();
    roll_times(&mut game, 0, 18);
    game.roll(9);
    game.roll(1);
    game.roll(1);
    assert_eq!(game.score(), Ok(11));
}

#[test]
fn spare_can_only_occur_in_second_throw_of_frame() {
    let mut game = Game::new();
    game.roll(0);
    game.roll(9);
    game.roll(1);
    game.roll(1);
    roll_times(&mut game, 0, 18);
    assert_eq!(game.score(), Ok(11));
}

#[test]
fn strike_should_count_next_two_throws_as_bonus() {
    let mut game = Game::new();
    game.roll(10);
    game.roll(1);
    game.roll(1);
    roll_times(&mut game, 0, 16);
    assert_eq!(game.score(), Ok(14));
}

#[test]
fn strike_should_count_next_two_throws_as_bonus_in_last_frame() {
    let mut game = Game::new();
    roll_times(&mut game, 0, 18);
    game.roll(10);
    game.roll(1);
    game.roll(1);
    assert_eq!(game.score(), Ok(12));
}

#[test]
fn strike_spare_combination() {
    let mut game = Game::new();
    roll_times(&mut game, 0, 10);
    game.roll(10);
    game.roll(1);
    game.roll(1);
    game.roll(9);
    game.roll(1);
    game.roll(1);
    roll_times(&mut game, 0, 3);
    assert_eq!(game.score(), Ok(26));
}

#[test]
fn complete_example() {
    perform_full_game(&[10, 7, 3, 9, 0, 10, 0, 8, 8, 2, 0, 6, 10, 10, 10, 8, 1], 167);
}

#[test]
fn another_complete_example() {
    perform_full_game(&[1, 2, 4, 6, 8, 1, 4, 6, 4, 6, 10, 10, 5, 3, 6, 3, 7, 1], 132);
}

#[test]
fn almost_all_strikes() {
    let mut game = Game::new();
    roll_times(&mut game, 10, 10);
    game.roll(7);
    game.roll(1);
    assert_eq!(game.score(), Ok(285));
}

#[test]
fn score_is_idempotent_between_rolls() {
    let mut game = Game::new();
    roll_all(&mut game, &[10, 7, 3, 9, 0, 10, 0, 8, 8, 2, 0, 6, 10, 10, 10, 8, 1]);
    let first = game.score();
    let second = game.score();
    assert_eq!(first, Ok(167));
    assert_eq!(first, second);
}

#[test]
fn empty_game_is_incomplete() {
    let game = Game::new();
    assert_eq!(game.score(), Err(GameError::IncompleteGame));
}

#[test]
fn nineteen_open_rolls_are_incomplete() {
    let mut game = Game::new();
    roll_times(&mut game, 1, 19);
    assert_eq!(game.score(), Err(GameError::IncompleteGame));
}

#[test]
fn last_frame_strike_with_one_bonus_roll_is_incomplete() {
    let mut game = Game::new();
    roll_times(&mut game, 10, 11);
    assert_eq!(game.score(), Err(GameError::IncompleteGame));
}

#[test]
fn spare_in_last_frame_without_bonus_roll_is_incomplete() {
    let mut game = Game::new();
    roll_times(&mut game, 0, 18);
    game.roll(9);
    game.roll(1);
    assert_eq!(game.score(), Err(GameError::IncompleteGame));
}

#[test]
fn shortest_complete_game_has_eleven_rolls() {
    let mut game = Game::new();
    roll_times(&mut game, 10, 9);
    game.roll(3);
    game.roll(4);
    assert_eq!(game.score(), Ok(257));
}

#[test]
fn rolls_beyond_the_tenth_frame_are_ignored() {
    let mut game = Game::new();
    roll_times(&mut game, 0, 21);
    assert_eq!(game.score(), Ok(0));
}
