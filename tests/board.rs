use tictactoe::board::{symbol_text, Board, Cell, MoveError};

fn board_of(rows: [[Cell; 3]; 3]) -> Board {
    Board { cells: rows }
}

const E: Cell = Cell::Empty;
const X: Cell = Cell::X;
const O: Cell = Cell::O;

#[test]
fn new_board_is_empty() {
    let b = Board::new();
    assert_eq!(b.cells, [[E; 3]; 3]);
}

#[test]
fn move_sets_only_target_cell() {
    let mut b = Board::new();
    assert_eq!(b.make_move(1, 2, X), Ok(()));
    assert_eq!(b.cells, [[E, E, E], [E, E, X], [E, E, E]]);
}

#[test]
fn out_of_range_leaves_board_unchanged() {
    let mut b = board_of([[X, O, E], [E, X, E], [O, E, E]]);
    let before = b.cells;
    for (r, c) in [(3, 0), (0, 3), (3, 3), (7, 1), (usize::MAX, 0), (0, usize::MAX)] {
        assert_eq!(b.make_move(r, c, O), Err(MoveError::OutOfRange));
        assert_eq!(b.cells, before);
    }
}

#[test]
fn out_of_range_on_full_board() {
    let mut b = board_of([[X, O, X], [X, O, O], [O, X, X]]);
    assert_eq!(b.make_move(3, 1, X), Err(MoveError::OutOfRange));
    assert_eq!(b.make_move(1, 5, O), Err(MoveError::OutOfRange));
}

#[test]
fn occupied_cell_is_refused_and_kept() {
    let mut b = Board::new();
    assert_eq!(b.make_move(1, 1, X), Ok(()));
    let before = b.cells;
    assert_eq!(b.make_move(1, 1, O), Err(MoveError::CellOccupied));
    assert_eq!(b.cells[1][1], X);
    assert_eq!(b.cells, before);
}

#[test]
fn empty_board_has_no_winner() {
    assert_eq!(Board::new().check_winner(), None);
}

#[test]
fn no_line_means_no_winner() {
    let b = board_of([[X, O, X], [X, O, O], [O, X, X]]);
    assert_eq!(b.check_winner(), None);
    let b = board_of([[X, X, E], [O, O, E], [E, E, E]]);
    assert_eq!(b.check_winner(), None);
}

#[test]
fn top_row_of_x_wins() {
    let b = board_of([[X, X, X], [E, E, E], [E, E, E]]);
    assert_eq!(b.check_winner(), Some(X));
}

#[test]
fn main_diagonal_of_o_wins() {
    let b = board_of([[O, E, E], [E, O, E], [E, E, O]]);
    assert_eq!(b.check_winner(), Some(O));
}

#[test]
fn every_line_is_detected() {
    let lines = [
        [(0, 0), (0, 1), (0, 2)],
        [(1, 0), (1, 1), (1, 2)],
        [(2, 0), (2, 1), (2, 2)],
        [(0, 0), (1, 0), (2, 0)],
        [(0, 1), (1, 1), (2, 1)],
        [(0, 2), (1, 2), (2, 2)],
        [(0, 0), (1, 1), (2, 2)],
        [(0, 2), (1, 1), (2, 0)],
    ];
    for line in lines {
        let mut b = Board::new();
        for (r, c) in line {
            b.cells[r][c] = O;
        }
        assert_eq!(b.check_winner(), Some(O));
    }
}

#[test]
fn full_board_is_full() {
    let b = board_of([[X, O, X], [X, O, O], [O, X, X]]);
    assert!(b.is_full());
}

#[test]
fn one_empty_cell_is_not_full() {
    for r in 0..3 {
        for c in 0..3 {
            let mut b = board_of([[X, O, X], [X, O, O], [O, X, X]]);
            b.cells[r][c] = E;
            assert!(!b.is_full());
        }
    }
    assert!(!Board::new().is_full());
}

#[test]
fn render_pads_each_symbol() {
    let b = board_of([[X, E, O], [E, E, E], [O, X, E]]);
    assert_eq!(b.render(), " X     O \n         \n O  X    \n");
    assert_eq!(Board::new().render(), "         \n         \n         \n");
}

#[test]
fn symbols_of_cells() {
    assert_eq!(symbol_text(E), "   ");
    assert_eq!(symbol_text(X), " X ");
    assert_eq!(symbol_text(O), " O ");
}

#[test]
fn error_messages() {
    assert_eq!(
        MoveError::OutOfRange.message(),
        "Invalid move: Row and column out of range."
    );
    assert_eq!(
        MoveError::CellOccupied.message(),
        "Invalid move: Cell already occupied."
    );
}
