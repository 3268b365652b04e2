use bloxide::block::Block;
use bloxide::game::board_supports_players;
use bloxide::game::check_would_collide;
use bloxide::game::Game;
use bloxide::game::PlayerId;
use bloxide::game::PLAYER_SPEED;
use bloxide::player::Direction;
use bloxide::player::Player;

#[test]
fn test_new() {
    let game = Game::new(35, 25);
    assert_eq!(35, game.get_width());
    assert_eq!(25, game.get_height());
    assert_eq!(
        Block { x: 5, y: 3 },
        game.get_player_one().next_head_position()
    );
    assert_eq!(
        Block { x: 31, y: 19 },
        game.get_player_two().next_head_position()
    );
    assert_eq!(false, game.is_over());
}

#[test]
fn test_update() {
    let mut game = Game::new(35, 25);
    game.update(80);
    assert_eq!(80, game.get_player_one().time_waited());

    game.update(80);
    assert_eq!(160 - PLAYER_SPEED, game.get_player_one().time_waited());
}

#[test]
fn test_is_out_of_bounds() {
    let game = Game::new(35, 25);
    assert!(game.is_out_of_bounds(Block { x: 0, y: 0 }));
    assert!(game.is_out_of_bounds(Block { x: 15, y: 24 }));
    assert!(!game.is_out_of_bounds(Block { x: 15, y: 15 }));
    assert!(!game.is_out_of_bounds(Block { x: 1, y: 1 }));
}

#[test]
fn test_direction_intents() {
    let mut game = Game::new(35, 25);
    game.update(PLAYER_SPEED + 100);
    game.handle_direction_intent(PlayerId::One, Direction::Down);
    game.handle_direction_intent(PlayerId::One, Direction::Right);
    game.handle_direction_intent(PlayerId::Two, Direction::Left);

    assert_eq!(
        Block { x: 5, y: 4 },
        game.get_player_one().next_head_position()
    );
    assert_eq!(
        Block { x: 30, y: 19 },
        game.get_player_two().next_head_position()
    );
}

#[test]
fn test_board_supports_players() {
    assert!(board_supports_players(35, 25));
    assert!(board_supports_players(9, 6));
    assert!(board_supports_players(6, 9));
    assert!(board_supports_players(9, 8));
    assert!(!board_supports_players(8, 8));
    assert!(!board_supports_players(5, 40));
    assert!(!board_supports_players(40, 5));
    assert!(!board_supports_players(0, 0));
}

#[test]
fn test_initial_placement_is_apart_and_off_walls() {
    let game = Game::new(35, 25);
    let one = game.get_player_one();
    let two = game.get_player_two();
    assert_eq!(Block { x: 4, y: 3 }, one.head());
    assert_eq!(Block { x: 31, y: 20 }, two.head());
    for i in 0..one.trail_len() {
        let b = one.trail_block(i);
        assert!(!game.is_out_of_bounds(b));
        assert!(!two.trail_covers_location(b));
    }
    for j in 0..two.trail_len() {
        let b = two.trail_block(j);
        assert!(!game.is_out_of_bounds(b));
        assert!(!one.trail_covers_location(b));
    }
}

#[test]
fn test_check_would_collide() {
    let one = Player::player_1();
    let two = Player::player_2(35, 25);
    // The wall ring collides for anyone.
    assert!(check_would_collide(35, 25, &one, &two, Block { x: 0, y: 5 }));
    assert!(check_would_collide(35, 25, &one, &two, Block { x: 34, y: 5 }));
    // The mover's own trail collides.
    assert!(check_would_collide(35, 25, &one, &two, Block { x: 2, y: 3 }));
    // The other player's trail collides.
    assert!(check_would_collide(
        35,
        25,
        &one,
        &two,
        Block { x: 31, y: 20 }
    ));
    // An empty interior cell does not.
    assert!(!check_would_collide(
        35,
        25,
        &one,
        &two,
        Block { x: 10, y: 10 }
    ));
}

#[test]
fn test_toggle_ai_gates_player_one_intents() {
    let mut game = Game::new(35, 25);
    game.update(PLAYER_SPEED);
    game.toggle_ai();
    assert!(game.ai_enabled());

    game.handle_direction_intent(PlayerId::One, Direction::Down);
    assert_eq!(Direction::Right, game.get_player_one().moving_direction());
    game.handle_direction_intent(PlayerId::Two, Direction::Left);
    assert_eq!(Direction::Left, game.get_player_two().moving_direction());

    game.toggle_ai();
    assert!(!game.ai_enabled());
    game.handle_direction_intent(PlayerId::One, Direction::Down);
    assert_eq!(Direction::Down, game.get_player_one().moving_direction());
}
