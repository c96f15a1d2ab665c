use battleship::board::Board;
use battleship::board::Cell;
use battleship::board::Index;
use battleship::board::Position;
use battleship::error::GameError;

fn pos(row: usize, col: usize, board_size: usize) -> Position {
    Position::new(row, col, board_size).unwrap()
}

#[test]
fn index_new_in_range_round_trips() {
    for raw in 0..5 {
        let index = Index::new(raw, 5).unwrap();
        assert_eq!(index.value(), raw);
    }
}

#[test]
fn index_new_out_of_bounds() {
    assert_eq!(Index::new(5, 5).unwrap_err(), GameError::OutOfBounds);
    assert_eq!(Index::new(6, 5).unwrap_err(), GameError::OutOfBounds);
    assert_eq!(Index::new(100, 5).unwrap_err(), GameError::OutOfBounds);
    assert_eq!(Index::new(0, 0).unwrap_err(), GameError::OutOfBounds);
}

#[test]
fn position_new_validates_both_coordinates() {
    let p = pos(1, 2, 3);
    assert_eq!(p.0.value(), 1);
    assert_eq!(p.1.value(), 2);
    assert_eq!(Position::new(3, 0, 3).unwrap_err(), GameError::OutOfBounds);
    assert_eq!(Position::new(0, 3, 3).unwrap_err(), GameError::OutOfBounds);
}

#[test]
fn board_new_all_empty() {
    let board = Board::new(4).unwrap();
    assert_eq!(board.size(), 4);
    for row in 0..4 {
        for col in 0..4 {
            assert_eq!(board.get_cell(&pos(row, col, 4)), Cell::Empty);
        }
    }
}

#[test]
fn board_new_zero_rejected() {
    assert_eq!(Board::new(0).unwrap_err(), GameError::OutOfBounds);
}

#[test]
fn set_cell_changes_only_the_target() {
    let mut board = Board::new(3).unwrap();
    board.set_cell(&pos(1, 1, 3), Cell::Ship);
    for row in 0..3 {
        for col in 0..3 {
            let expected = if row == 1 && col == 1 { Cell::Ship } else { Cell::Empty };
            assert_eq!(board.get_cell(&pos(row, col, 3)), expected);
        }
    }
}

#[test]
fn render_shows_and_hides_ships() {
    let mut board = Board::new(2).unwrap();
    board.set_cell(&pos(0, 0, 2), Cell::Ship);
    assert_eq!(board.render(true), "SO\nOO\n");
    assert_eq!(board.render(false), "OO\nOO\n");
}

#[test]
fn render_hit_and_miss_glyphs() {
    let mut board = Board::new(2).unwrap();
    board.set_cell(&pos(0, 1, 2), Cell::Hit);
    board.set_cell(&pos(1, 0, 2), Cell::Miss);
    assert_eq!(board.render(true), "OH\nMO\n");
    assert_eq!(board.render(false), "OH\nMO\n");
}

#[test]
fn render_twice_is_identical() {
    let mut board = Board::new(3).unwrap();
    board.set_cell(&pos(0, 2, 3), Cell::Ship);
    board.set_cell(&pos(2, 1, 3), Cell::Hit);
    let first = board.render(true);
    let second = board.render(true);
    assert_eq!(first, second);
    let hidden_first = board.render(false);
    let hidden_second = board.render(false);
    assert_eq!(hidden_first, hidden_second);
}

#[test]
fn error_messages() {
    assert_eq!(GameError::OutOfBounds.message(), "Index out of bounds");
    assert_eq!(GameError::ShipAlreadyPlaced.message(), "Ship already placed");
    assert_eq!(GameError::MalformedInput.message(), "Invalid input");
}
