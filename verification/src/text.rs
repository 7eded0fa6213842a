//! The board and the pieces as text: one symbol for each cell, one line for
//! each row.

use crate::board::{shown_cell, BoardView, BOARD_HEIGHT, BOARD_WIDTH};
use crate::pieces::{template_cell, Cell, Tetromino, SHAPE_SIZE};
use vstd::prelude::*;

verus! {

/// `String::push` appends one character to the string.
pub assume_specification[ String::push ](text: &mut String, ch: char)
    ensures
        final(text)@ == old(text)@.push(ch),
;

/// The symbol of the wall around the board.
pub const BRICK: char = '\u{1F9F1}';

/// Length of a line of a piece's text: its cells and the line break.
pub const PIECE_LINE: usize = 5;

/// Length of a line of the board's text: its cells, the wall on both sides
/// and the line break.
pub const BOARD_LINE: usize = 13;

/// The symbol of a cell: a square of the cell's colour.
pub open spec fn cell_symbol(cell: Cell) -> char {
    match cell {
        Cell::Black => '\u{2B1B}',
        Cell::Blue => '\u{1F7E6}',
        Cell::Brown => '\u{1F7EB}',
        Cell::Green => '\u{1F7E9}',
        Cell::Orange => '\u{1F7E7}',
        Cell::Purple => '\u{1F7EA}',
        Cell::Red => '\u{1F7E5}',
        Cell::Yellow => '\u{1F7E8}',
    }
}

/// The text of a tetromino: the four rows of its template, a line each.
pub open spec fn piece_text(t: Tetromino) -> Seq<char> {
    Seq::new(
        (SHAPE_SIZE * PIECE_LINE) as nat,
        |i: int|
            if i % (PIECE_LINE as int) == SHAPE_SIZE {
                '\n'
            } else {
                cell_symbol(template_cell(t, i / (PIECE_LINE as int), i % (PIECE_LINE as int)))
            },
    )
}

/// The text of a board: a line for each row, showing the cells between two
/// bricks, and below them a line of bricks.
pub open spec fn board_text(board: BoardView) -> Seq<char> {
    Seq::new(
        ((BOARD_HEIGHT + 1) * BOARD_LINE) as nat,
        |i: int|
            {
                let row = i / (BOARD_LINE as int);
                let at = i % (BOARD_LINE as int);
                if at == BOARD_WIDTH + 2 {
                    '\n'
                } else if row == BOARD_HEIGHT || at == 0 || at == BOARD_WIDTH + 1 {
                    BRICK
                } else {
                    cell_symbol(shown_cell(board.cells, board.piece, row, at - 1))
                }
            },
    )
}

impl Cell {
    /// The symbol of the cell.
    pub fn symbol(&self) -> (symbol: char)
        ensures
            symbol == cell_symbol(*self),
    {
        match self {
            Cell::Black => '\u{2B1B}',
            Cell::Blue => '\u{1F7E6}',
            Cell::Brown => '\u{1F7EB}',
            Cell::Green => '\u{1F7E9}',
            Cell::Orange => '\u{1F7E7}',
            Cell::Purple => '\u{1F7EA}',
            Cell::Red => '\u{1F7E5}',
            Cell::Yellow => '\u{1F7E8}',
        }
    }
}

} // verus!
