use tetris::board::Board;
use tetris::piece::Piece;
use tetris::shapes::Tetromino;

const KINDS: [Tetromino; 7] = [
    Tetromino::O,
    Tetromino::T,
    Tetromino::L,
    Tetromino::J,
    Tetromino::S,
    Tetromino::Z,
    Tetromino::I,
];

fn piece(kind: Tetromino, column: u8, row: u8, rotation: u8) -> Piece {
    Piece { kind, column, row, rotation }
}

fn filled_cells(board: &Board) -> Vec<(usize, usize)> {
    let mut cells = Vec::new();
    for r in 0..20 {
        for c in 0..10 {
            if board.cell(r, c).is_some() {
                cells.push((r, c));
            }
        }
    }
    cells
}

#[test]
fn shapes_have_four_distinct_cells_in_a_tight_box() {
    for kind in KINDS {
        for rotation in 0..4u8 {
            let cells = kind.filled(rotation);
            for i in 0..4 {
                for j in (i + 1)..4 {
                    assert_ne!(cells[i], cells[j]);
                }
            }
            let max_row = cells.iter().map(|c| c.0).max().unwrap() as usize;
            let max_col = cells.iter().map(|c| c.1).max().unwrap() as usize;
            assert_eq!(cells.iter().map(|c| c.0).min().unwrap(), 0);
            assert_eq!(cells.iter().map(|c| c.1).min().unwrap(), 0);
            assert_eq!(kind.height(rotation), max_row + 1);
            assert_eq!(kind.width(rotation), max_col + 1);
        }
    }
}

#[test]
fn widths_and_heights_of_the_line_piece() {
    assert_eq!(Tetromino::I.width(0), 4);
    assert_eq!(Tetromino::I.height(0), 1);
    assert_eq!(Tetromino::I.width(1), 1);
    assert_eq!(Tetromino::I.height(1), 4);
    assert_eq!(Tetromino::T.width(1), 2);
    assert_eq!(Tetromino::T.height(1), 3);
}

#[test]
fn piece_cells_are_offsets_from_its_origin() {
    let p = piece(Tetromino::T, 4, 7, 0);
    assert_eq!(p.filled(), [(7, 4), (7, 5), (7, 6), (8, 5)]);
}

#[test]
fn collision_with_walls_cells_and_open_sky() {
    let mut board = Board::new();
    assert!(!board.check_collision(piece(Tetromino::O, 0, 0, 0)));
    assert!(board.check_collision(piece(Tetromino::O, 9, 0, 0)));
    assert!(board.check_collision(piece(Tetromino::I, 7, 5, 0)));
    assert!(!board.check_collision(piece(Tetromino::I, 6, 5, 0)));
    // Rows at 20 and above are open space.
    assert!(!board.check_collision(piece(Tetromino::O, 4, 19, 0)));
    assert!(!board.check_collision(piece(Tetromino::O, 4, 25, 0)));
    // Above the grid nothing collides, not even past the wall.
    assert!(!board.check_collision(piece(Tetromino::O, 9, 25, 0)));
    // A cell past the wall in row 19 still collides.
    assert!(board.check_collision(piece(Tetromino::O, 9, 19, 0)));
    board.place_unchecked(piece(Tetromino::O, 4, 0, 0));
    assert!(board.check_collision(piece(Tetromino::T, 3, 1, 0)));
    assert!(!board.check_collision(piece(Tetromino::T, 3, 2, 0)));
}

#[test]
fn square_hard_drop_on_empty_board() {
    let mut board = Board::new();
    board.hard_drop(piece(Tetromino::O, 3, 18, 0));
    assert_eq!(filled_cells(&board), vec![(0, 3), (0, 4), (1, 3), (1, 4)]);
    assert_eq!(board.cell(0, 3), Some(Tetromino::O));
}

#[test]
fn hard_drop_lands_on_the_stack() {
    let mut board = Board::new();
    board.hard_drop(piece(Tetromino::O, 3, 18, 0));
    board.hard_drop(piece(Tetromino::O, 4, 18, 0));
    let cells = filled_cells(&board);
    assert_eq!(cells.len(), 8);
    assert!(cells.contains(&(2, 4)) && cells.contains(&(3, 5)));
}

#[test]
fn hard_drop_with_column_off_the_grid_does_nothing() {
    let mut board = Board::new();
    board.place_unchecked(piece(Tetromino::O, 0, 0, 0));
    board.hard_drop(piece(Tetromino::O, 10, 18, 0));
    assert_eq!(filled_cells(&board).len(), 4);
}

#[test]
fn lock_out_empties_the_board() {
    let mut board = Board::new();
    // A column of squares at columns 0..2 up to row 18.
    let mut row = 0;
    while row < 18 {
        board.place_unchecked(piece(Tetromino::O, 0, row, 0));
        row += 2;
    }
    assert_eq!(filled_cells(&board).len(), 36);
    // A vertical line piece over that column cannot fit below the top.
    board.hard_drop(piece(Tetromino::I, 0, 19, 1));
    assert!(filled_cells(&board).is_empty());
}

#[test]
fn drop_reports_landing_row() {
    let mut board = Board::new();
    board.place_unchecked(piece(Tetromino::I, 0, 4, 0));
    let mut p = piece(Tetromino::O, 1, 15, 0);
    assert!(board.drop(&mut p));
    assert_eq!(p.row, 5);
    let mut q = piece(Tetromino::O, 6, 15, 0);
    assert!(board.drop(&mut q));
    assert_eq!(q.row, 0);
    let mut off = piece(Tetromino::O, 12, 15, 0);
    assert!(!board.drop(&mut off));
    assert_eq!(off.row, 15);
}

#[test]
fn drop_stops_under_an_overhang_from_above() {
    let mut board = Board::new();
    // An overhang at row 5 over columns 0..4, with open space below it.
    board.place_unchecked(piece(Tetromino::I, 0, 5, 0));
    let mut p = piece(Tetromino::O, 0, 3, 0);
    assert!(board.drop(&mut p));
    assert_eq!(p.row, 0);
    let mut above = piece(Tetromino::O, 0, 15, 0);
    assert!(board.drop(&mut above));
    assert_eq!(above.row, 6);
}

#[test]
fn full_row_is_cleared_and_rows_above_settle() {
    let mut board = Board::new();
    board.place_unchecked(piece(Tetromino::I, 0, 0, 0));
    board.place_unchecked(piece(Tetromino::I, 4, 0, 0));
    board.place_unchecked(piece(Tetromino::O, 8, 0, 0));
    board.place_unchecked(piece(Tetromino::T, 3, 2, 0));
    assert_eq!(filled_cells(&board).len(), 16);
    board.clear_lines();
    let cells = filled_cells(&board);
    assert_eq!(cells.len(), 6);
    assert_eq!(cells, vec![(0, 8), (0, 9), (1, 3), (1, 4), (1, 5), (2, 4)]);
}

#[test]
fn two_full_rows_clear_at_once() {
    let mut board = Board::new();
    for column in [0u8, 2, 4, 6, 8] {
        board.place_unchecked(piece(Tetromino::O, column, 0, 0));
    }
    board.place_unchecked(piece(Tetromino::T, 0, 2, 0));
    assert_eq!(filled_cells(&board).len(), 24);
    board.clear_lines();
    assert_eq!(filled_cells(&board), vec![(0, 0), (0, 1), (0, 2), (1, 1)]);
}

#[test]
fn clearing_a_board_without_full_rows_changes_nothing() {
    let mut board = Board::new();
    board.place_unchecked(piece(Tetromino::S, 2, 0, 0));
    let before = filled_cells(&board);
    board.clear_lines();
    assert_eq!(filled_cells(&board), before);
}

fn row_zero_without_column_six() -> Board {
    let mut board = Board::new();
    board.place_unchecked(piece(Tetromino::I, 0, 0, 0));
    board.place_unchecked(piece(Tetromino::I, 2, 0, 0));
    // Cells at column 10 lie off the grid and are left out.
    board.place_unchecked(piece(Tetromino::I, 7, 0, 0));
    board
}

#[test]
fn vertical_line_completes_row_zero() {
    let mut board = row_zero_without_column_six();
    assert_eq!(filled_cells(&board).len(), 9);
    assert!(board.cell(0, 6).is_none());
    board.hard_drop(piece(Tetromino::I, 6, 16, 1));
    // Row 0 is cleared; the three upper cells of the line settle one row.
    assert_eq!(filled_cells(&board), vec![(0, 6), (1, 6), (2, 6)]);
}

#[test]
fn horizontal_line_filling_the_gap_empties_the_board() {
    let mut board = Board::new();
    board.place_unchecked(piece(Tetromino::I, 0, 0, 0));
    board.place_unchecked(piece(Tetromino::I, 2, 0, 0));
    board.hard_drop(piece(Tetromino::I, 6, 18, 0));
    assert!(filled_cells(&board).is_empty());
}

#[test]
fn place_checked_merges_only_a_colliding_piece() {
    let mut board = Board::new();
    assert!(!board._place_checked(piece(Tetromino::O, 0, 0, 0)));
    assert!(filled_cells(&board).is_empty());
    board.place_unchecked(piece(Tetromino::O, 0, 0, 0));
    assert!(board._place_checked(piece(Tetromino::T, 0, 1, 0)));
    assert_eq!(filled_cells(&board).len(), 6);
    assert_eq!(board.cell(1, 1), Some(Tetromino::T));
}
