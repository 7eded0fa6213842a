//! Coordinates, directions and the conversion between the coordinates of a
//! piece and those of the board.

use vstd::prelude::*;

verus! {

/// A direction on the board. Rows grow downwards, columns to the right.
#[derive(Clone, Copy, Debug, PartialEq, Eq, Structural)]
pub enum Direction {
    Up,
    Down,
    Left,
    Right,
}

/// The sense of a quarter turn.
#[derive(Clone, Copy, Debug, PartialEq, Eq, Structural)]
pub enum Rotation {
    Clockwise,
    CounterClockwise,
}

/// A row and a column. Both are signed: the top-left corner of a piece may
/// lie above or to the left of the board while its solid cells are on it.
#[derive(Clone, Copy, Debug, PartialEq, Eq, Structural)]
pub struct Position {
    pub row: isize,
    pub col: isize,
}

impl Position {
    pub fn new(row: isize, col: isize) -> (pos: Self)
        ensures
            pos.row == row,
            pos.col == col,
    {
        Self { row, col }
    }
}

/// The board coordinate of the piece-local cell `(piece_row, piece_col)` of a
/// piece whose top-left corner is at `(row, col)`.
pub open spec fn board_coord(row: int, col: int, piece_row: int, piece_col: int) -> (int, int) {
    (piece_row + row, piece_col + col)
}

/// The piece-local coordinate of the board cell `(board_row, board_col)` for
/// a piece whose top-left corner is at `(row, col)`.
pub open spec fn piece_coord(row: int, col: int, board_row: int, board_col: int) -> (int, int) {
    (board_row - row, board_col - col)
}

/// Converts piece coordinates into board coordinates, by adding the
/// position of the piece's top-left corner.
///
/// The result need not be a cell of the board: check it before indexing.
pub fn to_board_coord(pos: &Position, piece_row: usize, piece_col: usize) -> (coord: (
    isize,
    isize,
))
    requires
        piece_row <= isize::MAX,
        piece_col <= isize::MAX,
        piece_row + pos.row <= isize::MAX,
        piece_col + pos.col <= isize::MAX,
    ensures
        (coord.0 as int, coord.1 as int) == board_coord(
            pos.row as int,
            pos.col as int,
            piece_row as int,
            piece_col as int,
        ),
{
    let (i_pr, i_pc) = to_isize(piece_row, piece_col);
    (i_pr + pos.row, i_pc + pos.col)
}

/// Converts board coordinates into piece coordinates, by subtracting the
/// position of the piece's top-left corner.
///
/// The result need not be a cell of the piece: check it before indexing.
pub fn to_piece_coord(pos: &Position, board_row: usize, board_col: usize) -> (coord: (
    isize,
    isize,
))
    requires
        board_row <= isize::MAX,
        board_col <= isize::MAX,
        board_row - pos.row <= isize::MAX,
        board_col - pos.col <= isize::MAX,
    ensures
        (coord.0 as int, coord.1 as int) == piece_coord(
            pos.row as int,
            pos.col as int,
            board_row as int,
            board_col as int,
        ),
{
    let (i_br, i_bc) = to_isize(board_row, board_col);
    (i_br - pos.row, i_bc - pos.col)
}

/// Reinterprets two unsigned values as signed ones. A value that fits is
/// kept; a larger one wraps around.
pub fn to_isize(col: usize, row: usize) -> (pair: (isize, isize))
    ensures
        pair.0 == col as isize,
        pair.1 == row as isize,
        col <= isize::MAX ==> pair.0 == col,
        row <= isize::MAX ==> pair.1 == row,
{
    (#[verifier::truncate] (col as isize), #[verifier::truncate] (row as isize))
}

/// Reinterprets two signed values as unsigned ones. A value that is not
/// negative is kept; a negative one wraps around.
pub fn to_usize(col: isize, row: isize) -> (pair: (usize, usize))
    ensures
        pair.0 == col as usize,
        pair.1 == row as usize,
        col >= 0 ==> pair.0 == col,
        row >= 0 ==> pair.1 == row,
{
    (#[verifier::truncate] (col as usize), #[verifier::truncate] (row as usize))
}

/// Whether `val` lies in the half-open range from `min` to `max`.
pub fn is_within_bounds(val: isize, min: isize, max: isize) -> (within: bool)
    ensures
        within == (min <= val < max),
{
    val >= min && val < max
}

} // verus!
