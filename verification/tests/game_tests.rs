use battleship::board::Board;
use battleship::board::Cell;
use battleship::board::Position;
use battleship::error::GameError;
use battleship::game::Game;
use battleship::player::AttackOutcome;
use battleship::player::Player;

fn pos(row: usize, col: usize, board_size: usize) -> Position {
    Position::new(row, col, board_size).unwrap()
}

fn player_with_board(board_size: usize, ship_count: u32) -> Player {
    Player {
        name: String::from("tester"),
        board: Board::new(board_size).unwrap(),
        valid_ship_count: ship_count,
    }
}

#[test]
fn place_ship_then_second_placement_fails() {
    let mut player = player_with_board(3, 1);
    let p = pos(1, 2, 3);
    player.place_ship(&p).unwrap();
    assert_eq!(player.board.get_cell(&p), Cell::Ship);
    assert_eq!(player.place_ship(&p).unwrap_err(), GameError::ShipAlreadyPlaced);
    assert_eq!(player.board.get_cell(&p), Cell::Ship);
}

#[test]
fn edit_board_allows_non_ship_overwrites() {
    let mut player = player_with_board(3, 1);
    let p = pos(0, 0, 3);
    player.place_ship(&p).unwrap();
    player.edit_board(&p, Cell::Hit).unwrap();
    assert_eq!(player.board.get_cell(&p), Cell::Hit);
}

#[test]
fn resolve_attack_hit_decrements_count() {
    let mut player = player_with_board(3, 2);
    let p = pos(0, 0, 3);
    player.place_ship(&p).unwrap();
    let outcome = player.resolve_attack(&p);
    assert_eq!(outcome, AttackOutcome::Hit);
    assert_eq!(player.board.get_cell(&p), Cell::Hit);
    assert_eq!(player.valid_ship_count, 1);
}

#[test]
fn resolve_attack_miss_keeps_count() {
    let mut player = player_with_board(3, 2);
    player.place_ship(&pos(0, 0, 3)).unwrap();
    let p = pos(1, 1, 3);
    let outcome = player.resolve_attack(&p);
    assert_eq!(outcome, AttackOutcome::Miss);
    assert_eq!(player.board.get_cell(&p), Cell::Miss);
    assert_eq!(player.valid_ship_count, 2);
}

#[test]
fn is_hit_reads_without_mutation() {
    let mut player = player_with_board(3, 1);
    let p = pos(2, 0, 3);
    player.place_ship(&p).unwrap();
    assert!(player.is_hit(&p));
    assert!(!player.is_hit(&pos(0, 2, 3)));
    assert_eq!(player.board.get_cell(&p), Cell::Ship);
    assert_eq!(player.valid_ship_count, 1);
}

#[test]
fn game_new_rejects_zero_board() {
    let r = Game::new(String::from("A"), String::from("B"), 0, 1);
    assert_eq!(r.unwrap_err(), GameError::OutOfBounds);
}

#[test]
fn game_new_starts_fresh() {
    let game = Game::new(String::from("A"), String::from("B"), 3, 2).unwrap();
    assert_eq!(game.player1.name, "A");
    assert_eq!(game.player2.name, "B");
    assert_eq!(game.player1.valid_ship_count, 2);
    assert_eq!(game.player2.valid_ship_count, 2);
    assert_eq!(game.board_size, 3);
    assert_eq!(game.num_ships, 2);
    assert_eq!(game.turn, 0);
    assert!(game.is_running);
    assert_eq!(game.player1.board.render(true), "OOO\nOOO\nOOO\n");
    assert_eq!(game.player2.board.render(true), "OOO\nOOO\nOOO\n");
}

#[test]
fn winning_attack_ends_the_game() {
    let mut game = Game::new(String::from("A"), String::from("B"), 3, 1).unwrap();
    game.place_ship(0, &pos(0, 0, 3)).unwrap();
    game.place_ship(1, &pos(2, 2, 3)).unwrap();
    let outcome = game.attack(&pos(2, 2, 3));
    assert_eq!(outcome, AttackOutcome::Hit);
    assert_eq!(game.player2.valid_ship_count, 0);
    assert!(!game.is_running);
    assert_eq!(game.turn, 0);
    assert_eq!(game.active_player().name, "A");
}

#[test]
fn missed_attack_advances_the_turn() {
    let mut game = Game::new(String::from("A"), String::from("B"), 3, 1).unwrap();
    game.place_ship(0, &pos(0, 0, 3)).unwrap();
    game.place_ship(1, &pos(2, 2, 3)).unwrap();
    let outcome = game.attack(&pos(1, 1, 3));
    assert_eq!(outcome, AttackOutcome::Miss);
    assert_eq!(game.player2.valid_ship_count, 1);
    assert!(game.is_running);
    assert_eq!(game.turn, 1);
    assert_eq!(game.active_player().name, "B");
}

#[test]
fn turn_parity_selects_the_active_player() {
    let mut game = Game::new(String::from("A"), String::from("B"), 3, 5).unwrap();
    game.place_ship(0, &pos(0, 0, 3)).unwrap();
    game.place_ship(1, &pos(0, 0, 3)).unwrap();
    let expected = ["A", "B", "A", "B", "A"];
    for (n, name) in expected.iter().enumerate() {
        assert_eq!(game.turn, n);
        assert_eq!(&game.active_player().name, name);
        let outcome = game.attack(&pos(2, 2, 3));
        assert_eq!(outcome, AttackOutcome::Miss);
    }
    assert!(game.is_running);
    assert_eq!(game.turn, 5);
    assert_eq!(game.active_player().name, "B");
}

#[test]
fn repeat_attack_on_resolved_cell_is_a_miss() {
    let mut game = Game::new(String::from("A"), String::from("B"), 3, 2).unwrap();
    game.place_ship(0, &pos(0, 0, 3)).unwrap();
    game.place_ship(0, &pos(0, 1, 3)).unwrap();
    game.place_ship(1, &pos(0, 0, 3)).unwrap();
    game.place_ship(1, &pos(0, 1, 3)).unwrap();
    let first = game.attack(&pos(0, 0, 3));
    assert_eq!(first, AttackOutcome::Hit);
    let reply = game.attack(&pos(2, 2, 3));
    assert_eq!(reply, AttackOutcome::Miss);
    let second = game.attack(&pos(0, 0, 3));
    assert_eq!(second, AttackOutcome::Miss);
    assert_eq!(game.player2.valid_ship_count, 1);
    assert_eq!(game.player2.board.get_cell(&pos(0, 0, 3)), Cell::Miss);
}

#[test]
fn target_player_is_the_other_player() {
    let mut game = Game::new(String::from("A"), String::from("B"), 3, 1).unwrap();
    game.place_ship(0, &pos(0, 0, 3)).unwrap();
    game.place_ship(1, &pos(0, 0, 3)).unwrap();
    assert_eq!(game.target_player().name, "B");
    game.attack(&pos(1, 1, 3));
    assert_eq!(game.target_player().name, "A");
}
