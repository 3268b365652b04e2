use bloxide::block::Block;
use bloxide::game::Game;
use bloxide::game::PlayerId;
use bloxide::player::Direction;

#[test]
fn test_first_tick_moves_player_one() {
    let mut game = Game::new(35, 25);
    assert_eq!(Block { x: 4, y: 3 }, game.get_player_one().head());
    assert_eq!(3, game.get_player_one().trail_len());

    game.update(100);
    assert_eq!(Block { x: 5, y: 3 }, game.get_player_one().head());
    assert_eq!(4, game.get_player_one().trail_len());
    assert!(!game.is_over());

    game.update(100);
    assert_eq!(Block { x: 6, y: 3 }, game.get_player_one().head());
    assert_eq!(5, game.get_player_one().trail_len());
}

#[test]
fn test_fractional_carry_across_ticks() {
    let mut game = Game::new(35, 25);
    game.update(80);
    assert_eq!(80, game.get_player_one().time_waited());
    assert_eq!(3, game.get_player_one().trail_len());

    game.update(80);
    // The committed move subtracted the threshold instead of zeroing the
    // accumulator: 80 + 80 - 100.
    assert_eq!(60, game.get_player_one().time_waited());
    assert_eq!(4, game.get_player_one().trail_len());
}

#[test]
fn test_left_wall_ends_game_for_player_one() {
    let mut game = Game::new(35, 25);
    game.update(100);
    game.handle_direction_intent(PlayerId::One, Direction::Up);
    game.update(100);
    game.handle_direction_intent(PlayerId::One, Direction::Left);
    // Head is at (5, 2) moving left; four more ticks reach (1, 2).
    for _ in 0..4 {
        game.update(100);
        assert!(!game.is_over());
    }
    assert_eq!(Block { x: 1, y: 2 }, game.get_player_one().head());
    assert_eq!(
        Block { x: 0, y: 2 },
        game.get_player_one().next_head_position()
    );
    let len_one = game.get_player_one().trail_len();
    let len_two = game.get_player_two().trail_len();

    // The next tick drives player one into the wall.
    game.update(100);
    assert!(game.is_over());
    assert_eq!(Some(PlayerId::Two), game.winner());
    assert_eq!(len_one, game.get_player_one().trail_len());
    // Player two is evaluated only while the game is still running, so its
    // trail did not grow in the fatal tick either.
    assert_eq!(len_two, game.get_player_two().trail_len());

    // No further trail mutation on subsequent ticks.
    game.update(100);
    game.update(100);
    assert_eq!(len_one, game.get_player_one().trail_len());
    assert_eq!(len_two, game.get_player_two().trail_len());
    assert!(game.is_over());

    // Confirm restarts the game from the terminal state.
    game.confirm();
    assert!(!game.is_over());
    assert_eq!(None, game.winner());
    assert_eq!(Block { x: 4, y: 3 }, game.get_player_one().head());
    assert_eq!(3, game.get_player_one().trail_len());
}

#[test]
fn test_top_wall_ends_game_for_player_two() {
    let mut game = Game::new(35, 25);
    // Player two starts at (31, 20) moving up and commits a move on every
    // tick; its nineteenth move puts its head at (31, 1), and on the
    // twentieth evaluation it would hit the top wall.
    for _ in 0..19 {
        game.update(100);
        assert!(!game.is_over());
    }
    assert_eq!(Block { x: 31, y: 1 }, game.get_player_two().head());

    game.update(100);
    assert!(game.is_over());
    assert_eq!(Some(PlayerId::One), game.winner());
    // Player one was evaluated first in the fatal tick and still moved.
    assert_eq!(Block { x: 24, y: 3 }, game.get_player_one().head());
    assert_eq!(23, game.get_player_one().trail_len());
    assert_eq!(22, game.get_player_two().trail_len());
}

#[test]
fn test_opponent_trail_blocks_first_move() {
    // On a 9 by 8 board, player two's initial trail sits at x = 5 and
    // y = 3..5, directly in front of player one's head at (4, 3). Player
    // one's very first move collides with it.
    let mut game = Game::new(9, 8);
    game.update(100);
    assert!(game.is_over());
    assert_eq!(Some(PlayerId::Two), game.winner());
    assert_eq!(3, game.get_player_one().trail_len());
    assert_eq!(3, game.get_player_two().trail_len());
}

#[test]
fn test_ai_turns_clockwise_away_from_wall() {
    let mut game = Game::new(35, 25);
    game.update(100);
    game.handle_direction_intent(PlayerId::One, Direction::Up);
    game.update(100);
    game.update(100);
    // Head is at (5, 1) moving up: going straight would hit the top wall.
    assert_eq!(Block { x: 5, y: 1 }, game.get_player_one().head());
    assert_eq!(Direction::Up, game.get_player_one().moving_direction());

    game.toggle_ai();
    game.update(100);
    // The heuristic turned player one clockwise (up to right), the move
    // committed, and the game is still running.
    assert!(!game.is_over());
    assert_eq!(Direction::Right, game.get_player_one().moving_direction());
    assert_eq!(Block { x: 6, y: 1 }, game.get_player_one().head());
    assert_eq!(7, game.get_player_one().trail_len());
}

#[test]
fn test_ai_cannot_save_a_boxed_in_player() {
    let mut game = Game::new(35, 25);
    // Walk player one into the top-left corner pocket of its own trail:
    // right to (5, 3), up to (5, 1), left to (2, 1), down to (2, 2), left
    // to (1, 2), then up into (1, 1).
    game.update(100);
    game.handle_direction_intent(PlayerId::One, Direction::Up);
    game.update(100);
    game.update(100);
    game.handle_direction_intent(PlayerId::One, Direction::Left);
    game.update(100);
    game.update(100);
    game.update(100);
    game.handle_direction_intent(PlayerId::One, Direction::Down);
    game.update(100);
    game.handle_direction_intent(PlayerId::One, Direction::Left);
    game.update(100);
    game.handle_direction_intent(PlayerId::One, Direction::Up);
    game.update(100);
    assert_eq!(Block { x: 1, y: 1 }, game.get_player_one().head());
    assert!(!game.is_over());

    // Straight ahead is the top wall, clockwise is the player's own trail
    // at (2, 1), counterclockwise is the left wall: the heuristic cannot
    // help, and the game ends.
    game.toggle_ai();
    game.update(100);
    assert!(game.is_over());
    assert_eq!(Some(PlayerId::Two), game.winner());
    assert_eq!(Direction::Up, game.get_player_one().moving_direction());
}

#[test]
fn test_restart_is_idempotent() {
    let mut game = Game::new(35, 25);
    game.handle_direction_intent(PlayerId::Two, Direction::Down);
    game.toggle_ai();
    // Drive player one into the right wall: from (4, 3) it reaches
    // (33, 3) after 29 moves and collides on the next evaluation.
    for _ in 0..30 {
        game.update(100);
    }
    assert!(game.is_over());

    game.restart();
    let head_one = game.get_player_one().head();
    let head_two = game.get_player_two().head();
    let len_one = game.get_player_one().trail_len();
    let len_two = game.get_player_two().trail_len();
    let dir_one = game.get_player_one().moving_direction();
    let dir_two = game.get_player_two().moving_direction();
    let time_one = game.get_player_one().time_waited();
    let time_two = game.get_player_two().time_waited();
    let over = game.is_over();
    let winner = game.winner();
    let ai = game.ai_enabled();

    game.restart();
    assert_eq!(head_one, game.get_player_one().head());
    assert_eq!(head_two, game.get_player_two().head());
    assert_eq!(len_one, game.get_player_one().trail_len());
    assert_eq!(len_two, game.get_player_two().trail_len());
    assert_eq!(dir_one, game.get_player_one().moving_direction());
    assert_eq!(dir_two, game.get_player_two().moving_direction());
    assert_eq!(time_one, game.get_player_one().time_waited());
    assert_eq!(time_two, game.get_player_two().time_waited());
    assert_eq!(over, game.is_over());
    assert_eq!(winner, game.winner());
    assert_eq!(ai, game.ai_enabled());

    // And the state really is the fixed fresh one.
    assert_eq!(Block { x: 4, y: 3 }, head_one);
    assert_eq!(Block { x: 31, y: 20 }, head_two);
    assert_eq!(3, len_one);
    assert_eq!(3, len_two);
    assert!(!over);
    assert_eq!(None, winner);
    assert!(!ai);
}
