use tetris::utils::{
    is_within_bounds, to_board_coord, to_isize, to_piece_coord, to_usize, Position,
};

#[test]
fn position_new_sets_row_and_column() {
    let pos = Position::new(-7, 12);
    assert_eq!(-7, pos.row);
    assert_eq!(12, pos.col);
    assert_eq!(Position { row: -7, col: 12 }, pos);
}

#[test]
fn board_coord_adds_the_position() {
    assert_eq!((5, 9), to_board_coord(&Position::new(3, 6), 2, 3));
    assert_eq!((-1, 20), to_board_coord(&Position::new(-4, 20), 3, 0));
    assert_eq!((0, 0), to_board_coord(&Position::new(0, 0), 0, 0));
}

#[test]
fn piece_coord_subtracts_the_position() {
    assert_eq!((2, 3), to_piece_coord(&Position::new(3, 6), 5, 9));
    assert_eq!((7, -20), to_piece_coord(&Position::new(-4, 20), 3, 0));
}

#[test]
fn coordinates_convert_back_and_forth() {
    let pos = Position::new(-2, 5);
    for row in 0..4 {
        for col in 0..4 {
            let (board_row, board_col) = to_board_coord(&pos, row, col);
            if board_row >= 0 {
                let (u_row, u_col) = to_usize(board_row, board_col);
                assert_eq!((row as isize, col as isize), to_piece_coord(&pos, u_row, u_col));
            }
        }
    }
}

#[test]
fn to_isize_keeps_what_fits() {
    assert_eq!((0, 19), to_isize(0, 19));
    assert_eq!((isize::MAX, 1), to_isize(isize::MAX as usize, 1));
    assert_eq!((-1, isize::MIN), to_isize(usize::MAX, isize::MAX as usize + 1));
}

#[test]
fn to_usize_keeps_what_is_not_negative() {
    assert_eq!((0, 19), to_usize(0, 19));
    assert_eq!((isize::MAX as usize, 1), to_usize(isize::MAX, 1));
    assert_eq!((usize::MAX, isize::MAX as usize + 1), to_usize(-1, isize::MIN));
}

#[test]
fn bounds_are_half_open() {
    assert!(is_within_bounds(0, 0, 20));
    assert!(is_within_bounds(19, 0, 20));
    assert!(!is_within_bounds(20, 0, 20));
    assert!(!is_within_bounds(-1, 0, 20));
    assert!(!is_within_bounds(5, 5, 5));
    assert!(is_within_bounds(-3, -3, -2));
}
