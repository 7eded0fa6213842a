//! Cells, the seven tetrominoes and the falling piece.

use crate::text::{piece_text, PIECE_LINE};
use crate::utils::{is_within_bounds, to_piece_coord, Direction, Position, Rotation};
use vstd::prelude::*;

verus! {

/// Side of the square that holds the shape of a piece.
pub const SHAPE_SIZE: usize = 4;

/// Number of tetrominoes.
pub const SHAPE_COUNT: usize = 7;

/// What a square of the board or of a piece holds: nothing (`Black`), or the
/// colour of the tetromino that filled it.
#[derive(Clone, Copy, Debug, PartialEq, Eq, Structural)]
pub enum Cell {
    Black,
    Blue,
    Brown,
    Green,
    Orange,
    Purple,
    Red,
    Yellow,
}

impl Default for Cell {
    fn default() -> (cell: Self)
        ensures
            cell == Cell::Black,
    {
        Cell::Black
    }
}

/// The seven shapes.
#[derive(Clone, Copy, Debug, PartialEq, Eq, Structural)]
pub enum Tetromino {
    I,
    J,
    L,
    O,
    S,
    T,
    Z,
}

/// The colour of a tetromino's solid cells.
pub open spec fn color(t: Tetromino) -> Cell {
    match t {
        Tetromino::I => Cell::Brown,
        Tetromino::J => Cell::Blue,
        Tetromino::L => Cell::Orange,
        Tetromino::O => Cell::Yellow,
        Tetromino::S => Cell::Green,
        Tetromino::T => Cell::Purple,
        Tetromino::Z => Cell::Red,
    }
}

/// Whether the cell `(r, c)` of a tetromino's template is solid. The
/// template is the shape as it spawns, drawn in a 4 by 4 square.
pub open spec fn template_filled(t: Tetromino, r: int, c: int) -> bool {
    match t {
        Tetromino::I => c == 1 && 0 <= r <= 3,
        Tetromino::J => (c == 1 && 0 <= r <= 2) || (r == 2 && c == 0),
        Tetromino::L => (c == 1 && 0 <= r <= 2) || (r == 2 && c == 2),
        Tetromino::O => 1 <= r <= 2 && 1 <= c <= 2,
        Tetromino::S => (r == 1 && 1 <= c <= 2) || (r == 2 && 0 <= c <= 1),
        Tetromino::T => (r == 1 && 0 <= c <= 2) || (r == 2 && c == 1),
        Tetromino::Z => (r == 1 && 0 <= c <= 1) || (r == 2 && 1 <= c <= 2),
    }
}

/// The cell `(r, c)` of a tetromino's template.
pub open spec fn template_cell(t: Tetromino, r: int, c: int) -> Cell {
    if template_filled(t, r, c) {
        color(t)
    } else {
        Cell::Black
    }
}

/// Side of the square within which a tetromino turns: `I` and `O` turn in
/// the whole 4 by 4 square, the others in its top-left 3 by 3 corner.
pub open spec fn active_size(t: Tetromino) -> int {
    match t {
        Tetromino::I | Tetromino::O => 4,
        _ => 3,
    }
}

/// The template cell that a quarter-turned shape shows at `(r, c)`: where
/// the cell at `(r, c)` of an `n` by `n` square comes from once the square
/// has been turned clockwise from `Up` to `o`.
pub open spec fn turn_source(o: Direction, n: int, r: int, c: int) -> (int, int) {
    match o {
        Direction::Up => (r, c),
        Direction::Right => (n - 1 - c, r),
        Direction::Down => (n - 1 - r, n - 1 - c),
        Direction::Left => (c, n - 1 - r),
    }
}

/// The cell `(r, c)` of a tetromino's template turned to orientation `o`.
/// `Up` is the template itself; `Right`, `Down` and `Left` are one, two and
/// three clockwise quarter turns of its active square. Outside that square
/// every cell is empty.
pub open spec fn rotated_cell(t: Tetromino, o: Direction, r: int, c: int) -> Cell {
    let n = active_size(t);
    if 0 <= r < n && 0 <= c < n {
        let (from_r, from_c) = turn_source(o, n, r, c);
        template_cell(t, from_r, from_c)
    } else {
        Cell::Black
    }
}

/// The orientation that follows `o` after a quarter turn.
pub open spec fn turned(o: Direction, rotation: Rotation) -> Direction {
    match rotation {
        Rotation::Clockwise => match o {
            Direction::Up => Direction::Right,
            Direction::Right => Direction::Down,
            Direction::Down => Direction::Left,
            Direction::Left => Direction::Up,
        },
        Rotation::CounterClockwise => match o {
            Direction::Up => Direction::Left,
            Direction::Left => Direction::Down,
            Direction::Down => Direction::Right,
            Direction::Right => Direction::Up,
        },
    }
}

/// Where a tetromino spawns, as the row and column of its top-left corner.
pub open spec fn spawn_position(t: Tetromino) -> (int, int) {
    match t {
        Tetromino::I | Tetromino::L => (0, 3),
        Tetromino::J => (0, 4),
        _ => (-1, 3),
    }
}

/// The tetromino that a number stands for: 1 to 7 name `I` to `Z` in
/// alphabetical order, any other number names `O`.
pub open spec fn tetromino_of(value: usize) -> Tetromino {
    if value == 1 {
        Tetromino::I
    } else if value == 2 {
        Tetromino::J
    } else if value == 3 {
        Tetromino::L
    } else if value == 5 {
        Tetromino::S
    } else if value == 6 {
        Tetromino::T
    } else if value == 7 {
        Tetromino::Z
    } else {
        Tetromino::O
    }
}

impl From<usize> for Tetromino {
    fn from(value: usize) -> (t: Self) {
        match value {
            1 => Self::I,
            2 => Self::J,
            3 => Self::L,
            4 => Self::O,
            5 => Self::S,
            6 => Self::T,
            7 => Self::Z,
            _ => Self::O,
        }
    }
}

impl vstd::std_specs::convert::FromSpecImpl<usize> for Tetromino {
    open spec fn obeys_from_spec() -> bool {
        true
    }

    open spec fn from_spec(value: usize) -> Self {
        tetromino_of(value)
    }
}

impl Tetromino {
    pub fn get_count() -> (count: usize)
        ensures
            count == SHAPE_COUNT,
    {
        SHAPE_COUNT
    }

    pub fn get_spawn_position(&self) -> (pos: Position)
        ensures
            (pos.row as int, pos.col as int) == spawn_position(*self),
    {
        match self {
            Self::I | Self::L => Position::new(0, 3),
            Self::J => Position::new(0, 4),
            _ => Position::new(-1, 3),
        }
    }

    fn get_shape(&self) -> (shape: [[Cell; SHAPE_SIZE]; SHAPE_SIZE])
        ensures
            forall|r: int, c: int|
                0 <= r < SHAPE_SIZE && 0 <= c < SHAPE_SIZE ==> shape[r][c] == template_cell(
                    *self,
                    r,
                    c,
                ),
    {
        let black = Cell::Black;

        match self {
            Tetromino::I => {
                let brown = Cell::Brown;
                [
                    [black, brown, black, black],
                    [black, brown, black, black],
                    [black, brown, black, black],
                    [black, brown, black, black],
                ]
            },
            Tetromino::J => {
                let blue = Cell::Blue;
                [
                    [black, blue, black, black],
                    [black, blue, black, black],
                    [blue, blue, black, black],
                    [black, black, black, black],
                ]
            },
            Tetromino::L => {
                let orange = Cell::Orange;
                [
                    [black, orange, black, black],
                    [black, orange, black, black],
                    [black, orange, orange, black],
                    [black, black, black, black],
                ]
            },
            Tetromino::O => {
                let yellow = Cell::Yellow;
                [
                    [black, black, black, black],
                    [black, yellow, yellow, black],
                    [black, yellow, yellow, black],
                    [black, black, black, black],
                ]
            },
            Tetromino::S => {
                let green = Cell::Green;
                [
                    [black, black, black, black],
                    [black, green, green, black],
                    [green, green, black, black],
                    [black, black, black, black],
                ]
            },
            Tetromino::T => {
                let purple = Cell::Purple;
                [
                    [black, black, black, black],
                    [purple, purple, purple, black],
                    [black, purple, black, black],
                    [black, black, black, black],
                ]
            },
            Tetromino::Z => {
                let red = Cell::Red;
                [
                    [black, black, black, black],
                    [red, red, black, black],
                    [black, red, red, black],
                    [black, black, black, black],
                ]
            },
        }
    }
}

/// What a piece is: which tetromino, how it is turned, and where the
/// top-left corner of its 4 by 4 square lies on the board.
pub struct PieceView {
    pub tetromino: Tetromino,
    pub orientation: Direction,
    pub row: int,
    pub col: int,
}

impl PieceView {
    /// The cell `(r, c)` of the piece's square.
    pub open spec fn cell(self, r: int, c: int) -> Cell {
        rotated_cell(self.tetromino, self.orientation, r, c)
    }

    /// Whether `(r, c)` is a cell of the piece's square and is solid.
    pub open spec fn filled(self, r: int, c: int) -> bool {
        0 <= r < SHAPE_SIZE && 0 <= c < SHAPE_SIZE && self.cell(r, c) != Cell::Black
    }

    /// Whether the board cell `(board_row, board_col)` lies under the piece's
    /// square, solid there or not.
    pub open spec fn covers(self, board_row: int, board_col: int) -> bool {
        0 <= board_row - self.row < SHAPE_SIZE && 0 <= board_col - self.col < SHAPE_SIZE
    }

    /// The piece moved by one cell.
    pub open spec fn slide(self, direction: Direction) -> PieceView {
        match direction {
            Direction::Up => PieceView { row: self.row - 1, ..self },
            Direction::Down => PieceView { row: self.row + 1, ..self },
            Direction::Left => PieceView { col: self.col - 1, ..self },
            Direction::Right => PieceView { col: self.col + 1, ..self },
        }
    }

    /// The piece turned by a quarter turn, in place.
    pub open spec fn rotate(self, rotation: Rotation) -> PieceView {
        PieceView { orientation: turned(self.orientation, rotation), ..self }
    }
}

impl PieceView {
    /// Every piece has a solid cell, however it is turned.
    pub proof fn lemma_has_solid_cell(self)
        ensures
            exists|r: int, c: int| self.filled(r, c),
    {
        let (r, c): (int, int) = if active_size(self.tetromino) == 3 {
            (1, 1)
        } else {
            match self.orientation {
                Direction::Up => (1, 1),
                Direction::Right => (1, 2),
                Direction::Down => (2, 2),
                Direction::Left => (2, 1),
            }
        };
        assert(self.filled(r, c));
    }
}

/// Four quarter turns in one sense bring a piece back: it is the same
/// tetromino at the same place, turned as before, and shows the same cells.
pub proof fn lemma_four_turns_restore(p: PieceView, rotation: Rotation)
    ensures
        p.rotate(rotation).rotate(rotation).rotate(rotation).rotate(rotation) == p,
        forall|r: int, c: int|
            p.rotate(rotation).rotate(rotation).rotate(rotation).rotate(rotation).cell(r, c)
                == p.cell(r, c),
{
}

/// A quarter turn and the opposite quarter turn bring a piece back: it is
/// the same tetromino at the same place, turned as before, and shows the
/// same cells.
pub proof fn lemma_turn_and_back(p: PieceView)
    ensures
        p.rotate(Rotation::Clockwise).rotate(Rotation::CounterClockwise) == p,
        p.rotate(Rotation::CounterClockwise).rotate(Rotation::Clockwise) == p,
        forall|r: int, c: int|
            p.rotate(Rotation::Clockwise).rotate(Rotation::CounterClockwise).cell(r, c) == p.cell(
                r,
                c,
            ),
        forall|r: int, c: int|
            p.rotate(Rotation::CounterClockwise).rotate(Rotation::Clockwise).cell(r, c) == p.cell(
                r,
                c,
            ),
{
}

/// A clockwise turn shows, at each cell of the active square, what stood a
/// quarter turn before it: the shape computed from the template is the
/// previous shape turned.
pub proof fn lemma_clockwise_is_quarter_turn(p: PieceView, r: int, c: int)
    requires
        0 <= r < active_size(p.tetromino),
        0 <= c < active_size(p.tetromino),
    ensures
        p.rotate(Rotation::Clockwise).cell(r, c) == p.cell(active_size(p.tetromino) - 1 - c, r),
{
}

/// Sliding moves a piece and leaves tetromino, orientation and cells alone;
/// a slide and the opposite slide bring the piece back.
pub proof fn lemma_slide_and_back(p: PieceView)
    ensures
        p.slide(Direction::Left).slide(Direction::Right) == p,
        p.slide(Direction::Right).slide(Direction::Left) == p,
        p.slide(Direction::Up).slide(Direction::Down) == p,
        p.slide(Direction::Down).slide(Direction::Up) == p,
{
}

/// A tetromino on its way down: its shape is the tetromino's template turned
/// to the piece's orientation.
#[derive(Clone, Copy, Debug)]
pub struct Piece {
    position: Position,
    orientation: Direction,
    shape: [[Cell; SHAPE_SIZE]; SHAPE_SIZE],
    tetromino: Tetromino,
}

impl View for Piece {
    type V = PieceView;

    closed spec fn view(&self) -> PieceView {
        PieceView {
            tetromino: self.tetromino,
            orientation: self.orientation,
            row: self.position.row as int,
            col: self.position.col as int,
        }
    }
}

impl Piece {
    /// The stored shape is the one that tetromino and orientation determine.
    pub closed spec fn wf(&self) -> bool {
        forall|r: int, c: int|
            0 <= r < SHAPE_SIZE && 0 <= c < SHAPE_SIZE ==> self.shape[r][c] == rotated_cell(
                self.tetromino,
                self.orientation,
                r,
                c,
            )
    }

    pub fn new(tetromino: Tetromino, position: Position) -> (piece: Self)
        ensures
            piece.wf(),
            piece@ == (PieceView {
                tetromino,
                orientation: Direction::Up,
                row: position.row as int,
                col: position.col as int,
            }),
    {
        Self { position, orientation: Direction::Up, shape: tetromino.get_shape(), tetromino }
    }

    /// Moves the piece by one cell. The board is not consulted.
    pub fn slide(&mut self, direction: &Direction)
        requires
            old(self).wf(),
            isize::MIN <= old(self)@.slide(*direction).row <= isize::MAX,
            isize::MIN <= old(self)@.slide(*direction).col <= isize::MAX,
        ensures
            final(self).wf(),
            final(self)@ == old(self)@.slide(*direction),
    {
        match direction {
            Direction::Up => self.position.row -= 1,
            Direction::Down => self.position.row += 1,
            Direction::Left => self.position.col -= 1,
            Direction::Right => self.position.col += 1,
        }
    }

    /// Turns the piece by a quarter turn and recomputes its shape from the
    /// template.
    pub fn rotate(&mut self, rotation: &Rotation)
        ensures
            final(self).wf(),
            final(self)@ == old(self)@.rotate(*rotation),
    {
        self.orientation = match rotation {
            Rotation::Clockwise => match self.orientation {
                Direction::Up => Direction::Right,
                Direction::Down => Direction::Left,
                Direction::Left => Direction::Up,
                Direction::Right => Direction::Down,
            },
            Rotation::CounterClockwise => match self.orientation {
                Direction::Up => Direction::Left,
                Direction::Down => Direction::Right,
                Direction::Left => Direction::Down,
                Direction::Right => Direction::Up,
            },
        };

        self.rotate_shape();
    }

    /// The piece as text: its tetromino as it spawns, whatever way the piece
    /// is turned.
    pub fn to_string(&self) -> (text: String)
        ensures
            text@ == piece_text(self@.tetromino),
    {
        let shape = self.tetromino.get_shape();
        let mut text = String::new();
        for row in 0..SHAPE_SIZE
            invariant
                text@.len() == row * PIECE_LINE,
                forall|r: int, c: int|
                    0 <= r < SHAPE_SIZE && 0 <= c < SHAPE_SIZE ==> shape[r][c] == template_cell(
                        self.tetromino,
                        r,
                        c,
                    ),
                forall|i: int| 0 <= i < text@.len() ==> text@[i] == piece_text(self.tetromino)[i],
        {
            for col in 0..SHAPE_SIZE
                invariant
                    row < SHAPE_SIZE,
                    text@.len() == row * PIECE_LINE + col,
                    forall|r: int, c: int|
                        0 <= r < SHAPE_SIZE && 0 <= c < SHAPE_SIZE ==> shape[r][c]
                            == template_cell(self.tetromino, r, c),
                    forall|i: int|
                        0 <= i < text@.len() ==> text@[i] == piece_text(self.tetromino)[i],
            {
                text.push(shape[row][col].symbol());
            }
            text.push('\n');
        }
        assert(text@ =~= piece_text(self.tetromino));
        text
    }

    pub fn get_position(&self) -> (pos: &Position)
        ensures
            pos.row == self@.row,
            pos.col == self@.col,
    {
        &self.position
    }

    pub fn get_size(&self) -> (size: usize)
        ensures
            size == SHAPE_SIZE,
    {
        SHAPE_SIZE
    }

    pub fn get_cell_at(&self, row: usize, col: usize) -> (cell: &Cell)
        requires
            self.wf(),
            row < SHAPE_SIZE,
            col < SHAPE_SIZE,
        ensures
            *cell == self@.cell(row as int, col as int),
    {
        &self.shape[row][col]
    }

    pub fn has_cell_at(&self, row: usize, col: usize) -> (solid: bool)
        requires
            self.wf(),
            row < SHAPE_SIZE,
            col < SHAPE_SIZE,
        ensures
            solid == self@.filled(row as int, col as int),
    {
        *self.get_cell_at(row, col) != Cell::Black
    }

    /// Whether a board cell lies under the piece's square.
    pub fn is_inside(&self, row: usize, col: usize) -> (inside: bool)
        requires
            row <= isize::MAX,
            col <= isize::MAX,
            row - self@.row <= isize::MAX,
            col - self@.col <= isize::MAX,
        ensures
            inside == self@.covers(row as int, col as int),
    {
        let pos = self.get_position();
        let size = self.get_size();

        let (row, col) = to_piece_coord(pos, row, col);
        let i_size = size as isize;

        is_within_bounds(row, 0, i_size) && is_within_bounds(col, 0, i_size)
    }

    /// Recomputes the shape from the template and the orientation.
    fn rotate_shape(&mut self)
        ensures
            final(self).wf(),
            final(self)@ == old(self)@,
    {
        let template = self.tetromino.get_shape();
        let mut new_shape: [[Cell; SHAPE_SIZE]; SHAPE_SIZE] = [[Cell::Black; SHAPE_SIZE];
            SHAPE_SIZE];

        let piece_size: usize = match self.tetromino {
            Tetromino::I | Tetromino::O => SHAPE_SIZE,
            _ => SHAPE_SIZE - 1,
        };
        let tetromino = self.tetromino;
        let orientation = self.orientation;

        match orientation {
            Direction::Up => {
                self.shape = template;
            },
            _ => {
                for row in 0..piece_size
                    invariant
                        piece_size == active_size(tetromino),
                        orientation != Direction::Up,
                        forall|r: int, c: int|
                            0 <= r < SHAPE_SIZE && 0 <= c < SHAPE_SIZE ==> template[r][c]
                                == template_cell(tetromino, r, c),
                        forall|r: int, c: int|
                            0 <= r < SHAPE_SIZE && 0 <= c < SHAPE_SIZE ==> new_shape[r][c] == (if r
                                < piece_size && c < piece_size && turn_source(
                                orientation,
                                piece_size as int,
                                r,
                                c,
                            ).0 < row {
                                rotated_cell(tetromino, orientation, r, c)
                            } else {
                                Cell::Black
                            }),
                {
                    for col in 0..piece_size
                        invariant
                            row < piece_size,
                            piece_size == active_size(tetromino),
                            orientation != Direction::Up,
                            forall|r: int, c: int|
                                0 <= r < SHAPE_SIZE && 0 <= c < SHAPE_SIZE ==> template[r][c]
                                    == template_cell(tetromino, r, c),
                            forall|r: int, c: int|
                                0 <= r < SHAPE_SIZE && 0 <= c < SHAPE_SIZE ==> new_shape[r][c]
                                    == (if r < piece_size && c < piece_size && ({
                                    let from = turn_source(orientation, piece_size as int, r, c);
                                    from.0 < row || (from.0 == row && from.1 < col)
                                }) {
                                    rotated_cell(tetromino, orientation, r, c)
                                } else {
                                    Cell::Black
                                }),
                    {
                        match orientation {
                            Direction::Down => {
                                new_shape[piece_size - 1 - row][piece_size - 1 - col] =
                                    template[row][col];
                            },
                            Direction::Left => {
                                new_shape[piece_size - 1 - col][row] = template[row][col];
                            },
                            _ => {
                                new_shape[col][piece_size - 1 - row] = template[row][col];
                            },
                        }
                    }
                }
                self.shape = new_shape;
            },
        }
    }
}

} // verus!
