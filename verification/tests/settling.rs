use tetris::board::Board;
use tetris::pieces::{Cell, Piece, Tetromino};
use tetris::utils::{Direction, Position, Rotation};

fn lock(board: &mut Board, tetromino: Tetromino, row: isize, col: isize) -> u64 {
    let piece = Piece::new(tetromino, Position { row, col });
    assert!(board.add_piece(piece));
    let points = board.incorporate_piece();
    assert!(!board.has_piece());
    points
}

fn lock_flat_i(board: &mut Board, row: isize, col: isize) -> u64 {
    let mut piece = Piece::new(Tetromino::I, Position { row, col });
    piece.rotate(&Rotation::Clockwise);
    assert!(board.add_piece(piece));
    board.incorporate_piece()
}

fn solid_cells(board: &Board) -> Vec<(usize, usize, Cell)> {
    let mut cells = Vec::new();
    for row in 0..20 {
        for col in 0..10 {
            let cell = board.get_cell_at(row, col);
            if cell != Cell::Black {
                cells.push((row, col, cell));
            }
        }
    }
    cells
}

#[test]
fn new_board_is_empty() {
    let board = Board::new();
    assert!(!board.has_piece());
    assert!(board.get_piece().is_none());
    assert_eq!(solid_cells(&board), vec![]);
}

#[test]
fn single_row_is_cleared_and_rows_above_sink() {
    let mut board = Board::new();

    assert_eq!(0, lock(&mut board, Tetromino::S, 17, 5));
    assert_eq!(0, lock(&mut board, Tetromino::Z, 17, 2));
    assert_eq!(0, lock(&mut board, Tetromino::L, 17, 0));
    assert_eq!(0, lock(&mut board, Tetromino::J, 17, 7));
    assert_eq!(0, lock(&mut board, Tetromino::I, 16, -1));

    assert_eq!(Cell::Red, board.get_cell_at(18, 2));
    assert_eq!(Cell::Green, board.get_cell_at(18, 7));
    assert_eq!(Cell::Orange, board.get_cell_at(19, 2));
    assert_eq!(Cell::Blue, board.get_cell_at(19, 7));

    assert_eq!(40, lock(&mut board, Tetromino::I, 16, 8));

    assert_eq!(Cell::Orange, board.get_cell_at(18, 1));
    assert_eq!(Cell::Black, board.get_cell_at(18, 2));
    assert_eq!(Cell::Black, board.get_cell_at(18, 7));
    assert_eq!(Cell::Red, board.get_cell_at(19, 2));
    assert_eq!(Cell::Green, board.get_cell_at(19, 7));
    assert_eq!(
        solid_cells(&board),
        vec![
            (17, 0, Cell::Brown),
            (17, 9, Cell::Brown),
            (18, 0, Cell::Brown),
            (18, 1, Cell::Orange),
            (18, 8, Cell::Blue),
            (18, 9, Cell::Brown),
            (19, 0, Cell::Brown),
            (19, 1, Cell::Orange),
            (19, 2, Cell::Red),
            (19, 3, Cell::Red),
            (19, 6, Cell::Green),
            (19, 7, Cell::Green),
            (19, 8, Cell::Blue),
            (19, 9, Cell::Brown),
        ]
    );
}

#[test]
fn two_rows_are_cleared_at_once() {
    let mut board = Board::new();

    lock(&mut board, Tetromino::S, 17, 5);
    lock(&mut board, Tetromino::Z, 17, 2);
    lock(&mut board, Tetromino::L, 17, 0);
    lock(&mut board, Tetromino::J, 17, 7);
    lock(&mut board, Tetromino::I, 16, -1);
    lock(&mut board, Tetromino::O, 16, 3);

    assert_eq!(Cell::Brown, board.get_cell_at(17, 0));
    assert_eq!(Cell::Orange, board.get_cell_at(17, 1));
    assert_eq!(Cell::Yellow, board.get_cell_at(17, 4));
    assert_eq!(Cell::Blue, board.get_cell_at(17, 8));
    assert_eq!(Cell::Red, board.get_cell_at(18, 2));
    assert_eq!(Cell::Green, board.get_cell_at(18, 7));
    assert_eq!(Cell::Orange, board.get_cell_at(19, 2));
    assert_eq!(Cell::Blue, board.get_cell_at(19, 7));

    assert_eq!(100, lock(&mut board, Tetromino::I, 16, 8));

    assert_eq!(Cell::Brown, board.get_cell_at(19, 0));
    assert_eq!(Cell::Orange, board.get_cell_at(19, 1));
    assert_eq!(Cell::Yellow, board.get_cell_at(19, 4));
    assert_eq!(Cell::Black, board.get_cell_at(19, 7));
    assert_eq!(Cell::Blue, board.get_cell_at(19, 8));
    assert_eq!(Cell::Brown, board.get_cell_at(19, 9));
    assert_eq!(
        solid_cells(&board),
        vec![
            (18, 0, Cell::Brown),
            (18, 9, Cell::Brown),
            (19, 0, Cell::Brown),
            (19, 1, Cell::Orange),
            (19, 4, Cell::Yellow),
            (19, 5, Cell::Yellow),
            (19, 8, Cell::Blue),
            (19, 9, Cell::Brown),
        ]
    );
}

#[test]
fn bottom_rows_filled_by_a_piece_in_column_five() {
    let mut board = Board::new();

    lock(&mut board, Tetromino::O, 17, -1);
    lock(&mut board, Tetromino::O, 17, 1);
    lock(&mut board, Tetromino::I, 16, 3);
    lock(&mut board, Tetromino::O, 17, 5);
    lock(&mut board, Tetromino::O, 17, 7);
    for col in 0..10 {
        let expected = if col == 5 { Cell::Black } else { Cell::Yellow };
        if col != 4 {
            assert_eq!(expected, board.get_cell_at(18, col));
            assert_eq!(expected, board.get_cell_at(19, col));
        }
    }

    assert_eq!(100, lock(&mut board, Tetromino::I, 16, 4));

    assert_eq!(
        solid_cells(&board),
        vec![
            (18, 4, Cell::Brown),
            (18, 5, Cell::Brown),
            (19, 4, Cell::Brown),
            (19, 5, Cell::Brown),
        ]
    );
    for col in 0..10 {
        assert_eq!(Cell::Black, board.get_cell_at(0, col));
        assert_eq!(Cell::Black, board.get_cell_at(1, col));
    }
}

#[test]
fn rows_that_are_not_neighbours_are_cleared_together() {
    let mut board = Board::new();

    lock(&mut board, Tetromino::O, 13, 0);
    assert_eq!(0, lock_flat_i(&mut board, 15, 0));
    assert_eq!(0, lock_flat_i(&mut board, 15, 6));
    assert_eq!(0, lock_flat_i(&mut board, 18, 0));
    assert_eq!(0, lock_flat_i(&mut board, 18, 6));
    lock(&mut board, Tetromino::I, 16, 3);

    assert_eq!(100, lock(&mut board, Tetromino::I, 16, 4));

    assert_eq!(
        solid_cells(&board),
        vec![
            (16, 1, Cell::Yellow),
            (16, 2, Cell::Yellow),
            (17, 1, Cell::Yellow),
            (17, 2, Cell::Yellow),
            (18, 4, Cell::Brown),
            (18, 5, Cell::Brown),
            (19, 4, Cell::Brown),
            (19, 5, Cell::Brown),
        ]
    );
}

#[test]
fn three_rows_earn_three_hundred_points() {
    let mut board = Board::new();

    for col in 0..7 {
        assert_eq!(0, lock(&mut board, Tetromino::I, 16, col - 1));
    }
    assert_eq!(0, lock(&mut board, Tetromino::J, 17, 7));
    assert_eq!(0, lock(&mut board, Tetromino::I, 15, 6));

    assert_eq!(300, lock(&mut board, Tetromino::I, 16, 8));

    assert_eq!(
        solid_cells(&board),
        vec![
            (18, 7, Cell::Brown),
            (19, 0, Cell::Brown),
            (19, 1, Cell::Brown),
            (19, 2, Cell::Brown),
            (19, 3, Cell::Brown),
            (19, 4, Cell::Brown),
            (19, 5, Cell::Brown),
            (19, 6, Cell::Brown),
            (19, 7, Cell::Brown),
            (19, 9, Cell::Brown),
        ]
    );
}

#[test]
fn four_rows_earn_twelve_hundred_points() {
    let mut board = Board::new();

    for col in 0..9 {
        assert_eq!(0, lock(&mut board, Tetromino::I, 16, col - 1));
    }
    assert_eq!(1200, lock(&mut board, Tetromino::I, 16, 8));
    assert_eq!(solid_cells(&board), vec![]);
}

#[test]
fn top_row_is_cleared_too() {
    let mut board = Board::new();

    assert_eq!(0, lock_flat_i(&mut board, -1, 0));
    assert_eq!(0, lock_flat_i(&mut board, -1, 4));
    assert_eq!(40, lock(&mut board, Tetromino::O, -1, 7));
    assert_eq!(solid_cells(&board), vec![(1, 8, Cell::Yellow), (1, 9, Cell::Yellow)]);
}

#[test]
fn settling_without_a_piece_does_nothing() {
    let mut board = Board::new();
    lock(&mut board, Tetromino::T, 17, 0);
    let before = solid_cells(&board);
    assert_eq!(0, board.incorporate_piece());
    assert_eq!(before, solid_cells(&board));
    assert_eq!(
        before,
        vec![
            (18, 0, Cell::Purple),
            (18, 1, Cell::Purple),
            (18, 2, Cell::Purple),
            (19, 1, Cell::Purple),
        ]
    );
}

#[test]
fn spawn_collision_leaves_the_slot_empty() {
    let mut board = Board::new();

    lock(&mut board, Tetromino::O, 15, 3);
    let piece_l = Piece::new(Tetromino::L, Position { row: 14, col: 4 });
    assert!(!board.add_piece(piece_l));
    assert!(!board.has_piece());
    assert_eq!(
        solid_cells(&board),
        vec![
            (16, 4, Cell::Yellow),
            (16, 5, Cell::Yellow),
            (17, 4, Cell::Yellow),
            (17, 5, Cell::Yellow),
        ]
    );
}

#[test]
fn second_piece_is_refused_while_one_falls() {
    let mut board = Board::new();
    assert!(board.add_piece(Piece::new(Tetromino::O, Position { row: 0, col: 0 })));
    assert!(!board.add_piece(Piece::new(Tetromino::O, Position { row: 10, col: 5 })));
    let piece = board.get_piece().unwrap();
    assert_eq!(0, piece.get_position().row);
    assert_eq!(0, piece.get_position().col);
}

#[test]
fn piece_far_from_the_board_is_refused() {
    let mut board = Board::new();
    for (row, col) in [
        (isize::MAX, 0),
        (isize::MIN, 0),
        (0, isize::MAX),
        (0, isize::MIN),
        (isize::MAX, isize::MAX),
        (20, 3),
        (-4, 3),
        (5, 10),
        (5, -4),
    ] {
        assert!(!board.add_piece(Piece::new(Tetromino::T, Position { row, col })));
        assert!(!board.has_piece());
    }
}

#[test]
fn bottom_edge_of_the_board() {
    let mut board = Board::new();
    assert!(!board.add_piece(Piece::new(Tetromino::O, Position { row: 18, col: 3 })));
    assert!(board.add_piece(Piece::new(Tetromino::O, Position { row: 17, col: 3 })));
}

#[test]
fn drop_and_lock_i_piece() {
    let mut board = Board::new();

    let piece = Piece::new(Tetromino::I, Position { row: 15, col: 0 });
    assert!(board.add_piece(piece));
    assert_eq!((true, 0), board.move_piece(Direction::Down));
    assert!(board.has_piece());
    assert_eq!(16, board.get_piece().unwrap().get_position().row);
    assert_eq!((false, 0), board.move_piece(Direction::Down));
    assert!(!board.has_piece());
    assert_eq!(
        solid_cells(&board),
        vec![
            (16, 1, Cell::Brown),
            (17, 1, Cell::Brown),
            (18, 1, Cell::Brown),
            (19, 1, Cell::Brown),
        ]
    );
}

#[test]
fn blocked_sideways_move_does_not_lock() {
    let mut board = Board::new();

    assert!(board.add_piece(Piece::new(Tetromino::O, Position { row: 9, col: -1 })));
    assert_eq!((false, 0), board.move_piece(Direction::Left));
    assert!(board.has_piece());
    assert_eq!(-1, board.get_piece().unwrap().get_position().col);
    assert_eq!((true, 0), board.move_piece(Direction::Right));
    assert_eq!(0, board.get_piece().unwrap().get_position().col);
    assert_eq!((true, 0), board.move_piece(Direction::Up));
    assert_eq!(8, board.get_piece().unwrap().get_position().row);
    for _ in 0..7 {
        assert_eq!((true, 0), board.move_piece(Direction::Right));
    }
    assert_eq!((false, 0), board.move_piece(Direction::Right));
    assert!(board.has_piece());
    assert_eq!(7, board.get_piece().unwrap().get_position().col);
}

#[test]
fn blocked_upward_move_does_not_lock() {
    let mut board = Board::new();
    assert!(board.add_piece(Piece::new(Tetromino::O, Position { row: -1, col: 3 })));
    assert_eq!((false, 0), board.move_piece(Direction::Up));
    assert!(board.has_piece());
}

#[test]
fn commands_without_a_piece_do_nothing() {
    let mut board = Board::new();
    assert_eq!((false, 0), board.move_piece(Direction::Down));
    assert_eq!((false, 0), board.move_piece(Direction::Left));
    assert!(!board.rotate_piece(Rotation::Clockwise));
    assert_eq!(0, board.land_piece());
    assert_eq!(solid_cells(&board), vec![]);
}

#[test]
fn completing_move_down_reports_the_points() {
    let mut board = Board::new();

    lock_flat_i(&mut board, 18, 0);
    lock_flat_i(&mut board, 18, 4);
    assert!(board.add_piece(Piece::new(Tetromino::O, Position { row: 17, col: 7 })));
    assert_eq!((false, 40), board.move_piece(Direction::Down));
    assert_eq!(solid_cells(&board), vec![(19, 8, Cell::Yellow), (19, 9, Cell::Yellow)]);
}

#[test]
fn falling_piece_is_shown_over_the_locked_cells() {
    let mut board = Board::new();

    lock(&mut board, Tetromino::O, 17, 3);
    assert!(board.add_piece(Piece::new(Tetromino::T, Position { row: 15, col: 3 })));
    assert_eq!(
        solid_cells(&board),
        vec![
            (16, 3, Cell::Purple),
            (16, 4, Cell::Purple),
            (16, 5, Cell::Purple),
            (17, 4, Cell::Purple),
            (18, 4, Cell::Yellow),
            (18, 5, Cell::Yellow),
            (19, 4, Cell::Yellow),
            (19, 5, Cell::Yellow),
        ]
    );
}

#[test]
fn land_piece_without_a_clear_earns_nothing() {
    let mut board = Board::new();

    assert!(board.add_piece(Piece::new(Tetromino::O, Position { row: -1, col: 3 })));
    assert_eq!(0, board.land_piece());
    assert!(!board.has_piece());
    assert_eq!(
        solid_cells(&board),
        vec![
            (18, 4, Cell::Yellow),
            (18, 5, Cell::Yellow),
            (19, 4, Cell::Yellow),
            (19, 5, Cell::Yellow),
        ]
    );
}

#[test]
fn land_piece_adds_the_distance_to_a_clear() {
    let mut board = Board::new();

    lock_flat_i(&mut board, 18, 0);
    lock_flat_i(&mut board, 18, 6);
    assert!(board.add_piece(Piece::new(Tetromino::O, Position { row: -1, col: 3 })));
    assert_eq!(40 + 18 + 1, board.land_piece());
    assert_eq!(solid_cells(&board), vec![(19, 4, Cell::Yellow), (19, 5, Cell::Yellow)]);
}

#[test]
fn land_piece_on_the_floor_adds_one_to_a_clear() {
    let mut board = Board::new();

    for col in 0..9 {
        lock(&mut board, Tetromino::I, 16, col - 1);
    }
    assert!(board.add_piece(Piece::new(Tetromino::I, Position { row: 16, col: 8 })));
    assert_eq!(1200 + 0 + 1, board.land_piece());
}

#[test]
fn land_piece_stops_on_locked_cells() {
    let mut board = Board::new();

    lock(&mut board, Tetromino::O, 17, 3);
    assert!(board.add_piece(Piece::new(Tetromino::I, Position { row: 0, col: 3 })));
    assert_eq!(0, board.land_piece());
    assert_eq!(
        solid_cells(&board),
        vec![
            (14, 4, Cell::Brown),
            (15, 4, Cell::Brown),
            (16, 4, Cell::Brown),
            (17, 4, Cell::Brown),
            (18, 4, Cell::Yellow),
            (18, 5, Cell::Yellow),
            (19, 4, Cell::Yellow),
            (19, 5, Cell::Yellow),
        ]
    );
}

fn count_solid(board: &Board) -> usize {
    solid_cells(board).len()
}

#[test]
fn board_with_cells_shows_the_cells() {
    let mut cells = [[Cell::Black; 10]; 20];
    cells[0][0] = Cell::Red;
    cells[7][3] = Cell::Blue;
    cells[19][9] = Cell::Green;
    let board = Board::with_cells(cells);
    assert!(!board.has_piece());
    assert_eq!(
        solid_cells(&board),
        vec![(0, 0, Cell::Red), (7, 3, Cell::Blue), (19, 9, Cell::Green)]
    );
}

#[test]
fn rows_15_and_19_are_cleared_together() {
    let mut cells = [[Cell::Black; 10]; 20];
    cells[15] = [Cell::Red; 10];
    cells[19] = [Cell::Blue; 10];
    cells[2][4] = Cell::Purple;
    cells[14][0] = Cell::Green;
    cells[16][1] = Cell::Orange;
    cells[17][2] = Cell::Yellow;
    cells[18][3] = Cell::Brown;
    let mut board = Board::with_cells(cells);
    let before = count_solid(&board);

    assert_eq!(100, board.collapse_completed_rows());

    assert_eq!(
        solid_cells(&board),
        vec![
            (4, 4, Cell::Purple),
            (16, 0, Cell::Green),
            (17, 1, Cell::Orange),
            (18, 2, Cell::Yellow),
            (19, 3, Cell::Brown),
        ]
    );
    assert_eq!(before - 20, count_solid(&board));
    assert_eq!(0, board.collapse_completed_rows());
}

#[test]
fn collapse_without_a_full_row_changes_nothing() {
    let mut cells = [[Cell::Black; 10]; 20];
    cells[19] = [Cell::Blue; 10];
    cells[19][5] = Cell::Black;
    cells[0][0] = Cell::Red;
    let mut board = Board::with_cells(cells);
    let before = solid_cells(&board);
    assert_eq!(0, board.collapse_completed_rows());
    assert_eq!(before, solid_cells(&board));
}

#[test]
fn collapse_counts_one_to_four_rows() {
    let points = [0, 40, 100, 300, 1200];
    let full_rows = [1, 4, 7, 10];
    let red_row = [0, 1, 2, 3, 4];
    let green_row = [5, 5, 5, 6, 7];
    for full in 0..5 {
        let mut cells = [[Cell::Black; 10]; 20];
        for row in &full_rows[..full] {
            cells[*row] = [Cell::Orange; 10];
        }
        cells[0][7] = Cell::Red;
        cells[5][7] = Cell::Green;
        let mut board = Board::with_cells(cells);
        assert_eq!(points[full], board.collapse_completed_rows());
        assert_eq!(
            solid_cells(&board),
            vec![(red_row[full], 7, Cell::Red), (green_row[full], 7, Cell::Green)]
        );
    }
}

#[test]
fn overlap_of_any_piece_with_any_grid() {
    let empty = [[Cell::Black; 10]; 20];
    let mut cells = empty;
    cells[10][4] = Cell::Red;
    let at = |row: isize, col: isize| Piece::new(Tetromino::O, Position { row, col });

    assert!(!Board::does_piece_overlap(&empty, &at(9, 3)));
    assert!(Board::does_piece_overlap(&cells, &at(9, 3)));
    assert!(!Board::does_piece_overlap(&cells, &at(9, 4)));
    assert!(!Board::does_piece_overlap(&cells, &at(10, 3)));
    assert!(!Board::does_piece_overlap(&empty, &at(-1, -1)));
    assert!(!Board::does_piece_overlap(&empty, &at(17, 7)));
    assert!(Board::does_piece_overlap(&empty, &at(-2, 3)));
    assert!(Board::does_piece_overlap(&empty, &at(18, 3)));
    assert!(Board::does_piece_overlap(&empty, &at(9, -2)));
    assert!(Board::does_piece_overlap(&empty, &at(9, 8)));
    assert!(Board::does_piece_overlap(&empty, &at(30, 3)));
    assert!(Board::does_piece_overlap(&empty, &at(-30, 3)));
    assert!(Board::does_piece_overlap(&empty, &at(3, 30)));
    assert!(Board::does_piece_overlap(&empty, &at(3, -30)));
    assert!(Board::does_piece_overlap(&empty, &at(isize::MAX, isize::MAX)));
    assert!(Board::does_piece_overlap(&empty, &at(isize::MIN, isize::MIN)));
    assert!(Board::does_piece_overlap(&empty, &at(isize::MAX - 1, 3)));
    assert_eq!(cells[10][4], Cell::Red);
}

#[test]
fn piece_on_the_board_or_not() {
    let at = |row: isize, col: isize| Piece::new(Tetromino::I, Position { row, col });

    assert!(Board::is_piece_on_the_board(&at(0, -1)));
    assert!(Board::is_piece_on_the_board(&at(16, 8)));
    assert!(!Board::is_piece_on_the_board(&at(-1, 3)));
    assert!(!Board::is_piece_on_the_board(&at(17, 3)));
    assert!(!Board::is_piece_on_the_board(&at(5, -2)));
    assert!(!Board::is_piece_on_the_board(&at(5, 9)));
    assert!(!Board::is_piece_on_the_board(&at(isize::MAX, 0)));
    assert!(!Board::is_piece_on_the_board(&at(0, isize::MIN)));
}
