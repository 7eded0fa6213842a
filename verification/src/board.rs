//! The board: the grid of locked cells, the falling piece, and the rules by
//! which a piece spawns, slides, turns and settles.

use crate::pieces::{Cell, Piece, PieceView, SHAPE_SIZE};
use crate::rows::{
    blank_row, blank_rows, compacted, count_full, full_row, kept_rows, lemma_blank_row_kept,
    lemma_count_full_window, lemma_nothing_to_clear, lemma_pull_down, line_clear_points,
    pulled_down, Grid,
};
use crate::text::{board_text, BOARD_LINE, BRICK};
use crate::utils::{
    is_within_bounds, to_board_coord, to_isize, to_piece_coord, to_usize, Direction, Rotation,
};
use vstd::prelude::*;

verus! {

/// Number of columns of the board.
pub const BOARD_WIDTH: usize = 10;

/// Number of rows of the board.
pub const BOARD_HEIGHT: usize = 20;

/// Points for completing no row, one row, and so on up to four rows.
const LINE_CLEAR_POINTS: [u64; 5] = [0, 40, 100, 300, 1200];

/// Whether `(row, col)` is a cell of the board.
pub open spec fn inside_board(row: int, col: int) -> bool {
    0 <= row < BOARD_HEIGHT && 0 <= col < BOARD_WIDTH
}

/// Whether `cells` has the board's number of rows and columns.
pub open spec fn grid_shaped(cells: Grid) -> bool {
    &&& cells.len() == BOARD_HEIGHT
    &&& forall|r: int| 0 <= r < BOARD_HEIGHT ==> (#[trigger] cells[r]).len() == BOARD_WIDTH
}

/// The grid in which every cell is empty.
pub open spec fn empty_grid() -> Grid {
    Seq::new(BOARD_HEIGHT as nat, |r: int| Seq::new(BOARD_WIDTH as nat, |c: int| Cell::Black))
}

/// Whether every solid cell of the piece lies on the board.
pub open spec fn piece_on_board(p: PieceView) -> bool {
    forall|r: int, c: int| #[trigger] p.filled(r, c) ==> inside_board(p.row + r, p.col + c)
}

/// Whether the piece can be where it is: every solid cell of it lies on the
/// board, on a locked cell that is empty.
pub open spec fn piece_fits(cells: Grid, p: PieceView) -> bool {
    forall|r: int, c: int| #[trigger]
        p.filled(r, c) ==> inside_board(p.row + r, p.col + c) && cells[p.row + r][p.col + c]
            == Cell::Black
}

/// What the board shows at `(row, col)`: the piece's cell where the piece is
/// solid, the locked cell elsewhere.
pub open spec fn shown_cell(cells: Grid, piece: Option<PieceView>, row: int, col: int) -> Cell {
    match piece {
        Some(p) if p.filled(row - p.row, col - p.col) => p.cell(row - p.row, col - p.col),
        _ => cells[row][col],
    }
}

/// Whether the piece may move by one cell: it lies on the board, and where
/// the move takes it it fits.
pub open spec fn can_slide(cells: Grid, p: PieceView, direction: Direction) -> bool {
    piece_on_board(p) && piece_fits(cells, p.slide(direction))
}

/// Whether the piece may turn where it is: it lies on the board, and turned
/// it fits.
pub open spec fn can_rotate(cells: Grid, p: PieceView, rotation: Rotation) -> bool {
    piece_on_board(p) && piece_fits(cells, p.rotate(rotation))
}

/// Where a turn puts the piece: turned in place if that fits; else moved one
/// cell to the left and turned, if it can move there and turn there; else
/// the same one cell to the right. `None` if none of the three is possible.
pub open spec fn turn_outcome(cells: Grid, p: PieceView, rotation: Rotation) -> Option<PieceView> {
    if can_rotate(cells, p, rotation) {
        Some(p.rotate(rotation))
    } else if can_slide(cells, p, Direction::Left) && can_rotate(
        cells,
        p.slide(Direction::Left),
        rotation,
    ) {
        Some(p.slide(Direction::Left).rotate(rotation))
    } else if can_slide(cells, p, Direction::Right) && can_rotate(
        cells,
        p.slide(Direction::Right),
        rotation,
    ) {
        Some(p.slide(Direction::Right).rotate(rotation))
    } else {
        None
    }
}

/// How many cells the piece can fall before something stops it.
pub open spec fn fall_distance(cells: Grid, p: PieceView) -> nat
    decreases BOARD_HEIGHT - p.row,
{
    if can_slide(cells, p, Direction::Down) {
        proof {
            lemma_on_board_is_near(p);
        }
        1 + fall_distance(cells, p.slide(Direction::Down))
    } else {
        0
    }
}

/// The piece `distance` cells further down.
pub open spec fn dropped(p: PieceView, distance: nat) -> PieceView {
    PieceView { row: p.row + distance, ..p }
}

/// A piece that fits lies on the board.
pub proof fn lemma_fits_is_on_board(cells: Grid, p: PieceView)
    ensures
        piece_fits(cells, p) ==> piece_on_board(p) && -SHAPE_SIZE < p.row < BOARD_HEIGHT
            && -SHAPE_SIZE < p.col < BOARD_WIDTH,
{
    if piece_fits(cells, p) {
        assert forall|r: int, c: int| #[trigger] p.filled(r, c) implies inside_board(
            p.row + r,
            p.col + c,
        ) by {}
        lemma_on_board_is_near(p);
    }
}

/// The square of a piece that lies on the board touches the board.
pub proof fn lemma_on_board_is_near(p: PieceView)
    requires
        piece_on_board(p),
    ensures
        -SHAPE_SIZE < p.row < BOARD_HEIGHT,
        -SHAPE_SIZE < p.col < BOARD_WIDTH,
{
    p.lemma_has_solid_cell();
}

/// A piece that can fall lies above the bottom row, so it falls no further
/// than the rows below it.
pub proof fn lemma_fall_distance_bound(cells: Grid, p: PieceView)
    ensures
        fall_distance(cells, p) == 0 || fall_distance(cells, p) <= BOARD_HEIGHT - p.row,
        fall_distance(cells, p) > 0 ==> fall_distance(cells, p) == 1 + fall_distance(
            cells,
            p.slide(Direction::Down),
        ),
    decreases BOARD_HEIGHT - p.row,
{
    if can_slide(cells, p, Direction::Down) {
        lemma_on_board_is_near(p);
        lemma_fall_distance_bound(cells, p.slide(Direction::Down));
    }
}

/// A piece on the board fits at every cell of its fall and would not fit one
/// cell further down.
pub proof fn lemma_fall_ends_at_first_obstacle(cells: Grid, p: PieceView)
    requires
        piece_on_board(p),
    ensures
        forall|k: nat|
            0 < k <= fall_distance(cells, p) ==> piece_fits(cells, #[trigger] dropped(p, k)),
        !piece_fits(cells, dropped(p, fall_distance(cells, p) + 1)),
    decreases BOARD_HEIGHT - p.row,
{
    let below = p.slide(Direction::Down);
    assert(dropped(p, 1) == below);
    if can_slide(cells, p, Direction::Down) {
        lemma_on_board_is_near(p);
        lemma_fits_is_on_board(cells, below);
        lemma_fall_ends_at_first_obstacle(cells, below);
        assert forall|k: nat| 0 < k <= fall_distance(cells, p) implies piece_fits(
            cells,
            #[trigger] dropped(p, k),
        ) by {
            if k > 1 {
                assert(dropped(p, k) == dropped(below, (k - 1) as nat));
            }
        }
        assert(dropped(p, fall_distance(cells, p) + 1) == dropped(
            below,
            fall_distance(cells, below) + 1,
        ));
    }
}

/// The rows and columns of a grid of cells, as a sequence of rows.
pub open spec fn grid_view(board: [[Cell; BOARD_WIDTH]; BOARD_HEIGHT]) -> Grid {
    Seq::new(BOARD_HEIGHT as nat, |r: int| board[r]@)
}

/// What a board is: its locked cells, row by row from the top, and the
/// falling piece if there is one.
pub struct BoardView {
    pub cells: Grid,
    pub piece: Option<PieceView>,
}

impl BoardView {
    /// The grid has the board's shape, none of its rows is full, and the
    /// falling piece, if there is one, lies on the board and on empty cells
    /// only.
    pub open spec fn wf(self) -> bool {
        &&& grid_shaped(self.cells)
        &&& forall|r: int| 0 <= r < BOARD_HEIGHT ==> !full_row(#[trigger] self.cells[r])
        &&& self.piece matches Some(p) ==> piece_fits(self.cells, p)
    }

    /// What the board shows: the locked cells with the piece drawn over
    /// them.
    pub open spec fn shown(self) -> Grid {
        Seq::new(
            BOARD_HEIGHT as nat,
            |r: int| Seq::new(BOARD_WIDTH as nat, |c: int| shown_cell(self.cells, self.piece, r, c)),
        )
    }

    /// The board once its piece has settled: the piece's cells are locked,
    /// the rows this completed are gone, and no piece is falling.
    pub open spec fn settled(self) -> BoardView {
        BoardView { cells: compacted(self.shown()), piece: None }
    }

    /// The points that the settling of the piece earns.
    pub open spec fn settle_points(self) -> nat {
        line_clear_points(count_full(self.shown()))
    }
}

/// On a well-formed board no cell holds both a locked colour and a solid
/// cell of the falling piece, and every solid cell of the piece is a cell of
/// the board.
pub proof fn lemma_no_overlap(board: BoardView, p: PieceView, r: int, c: int)
    requires
        board.wf(),
        board.piece == Some(p),
        p.filled(r, c),
    ensures
        inside_board(p.row + r, p.col + c),
        board.cells[p.row + r][p.col + c] == Cell::Black,
        shown_cell(board.cells, board.piece, p.row + r, p.col + c) == p.cell(r, c),
{
}

/// A settling piece completes at most as many rows as it is tall.
pub proof fn lemma_settling_completes_few(board: BoardView)
    requires
        board.wf(),
    ensures
        count_full(board.shown()) <= SHAPE_SIZE,
{
    let shown = board.shown();
    match board.piece {
        Some(p) => {
            assert forall|r: int| 0 <= r < shown.len() && full_row(#[trigger] shown[r]) implies p.row
                <= r < p.row + SHAPE_SIZE by {
                if !(p.row <= r < p.row + SHAPE_SIZE) {
                    assert(shown[r] =~= board.cells[r]);
                }
            }
            lemma_count_full_window(shown, p.row);
        },
        None => {
            assert(shown =~~= board.cells);
            lemma_nothing_to_clear(shown);
        },
    }
}

/// The board of locked cells and the piece that falls over it.
pub struct Board {
    board: [[Cell; BOARD_WIDTH]; BOARD_HEIGHT],
    piece: Option<Piece>,
}

impl View for Board {
    type V = BoardView;

    closed spec fn view(&self) -> BoardView {
        BoardView {
            cells: grid_view(self.board),
            piece: match self.piece {
                Some(p) => Some(p@),
                None => None,
            },
        }
    }
}

// Public functions
impl Board {
    /// The falling piece, if there is one, has the shape of its tetromino
    /// and its square touches the board.
    pub closed spec fn piece_shaped(&self) -> bool {
        self.piece matches Some(p) ==> p.wf() && -SHAPE_SIZE < p@.row < BOARD_HEIGHT && -SHAPE_SIZE
            < p@.col < BOARD_WIDTH
    }

    /// What every board that this module hands out satisfies.
    pub open spec fn wf(&self) -> bool {
        self.piece_shaped() && self@.wf()
    }

    pub fn new() -> (board: Self)
        ensures
            board.wf(),
            board@ == (BoardView { cells: empty_grid(), piece: None }),
    {
        let board = Self { board: [[Cell::default(); BOARD_WIDTH]; BOARD_HEIGHT], piece: None };
        assert(board@.cells =~~= empty_grid());
        assert forall|r: int| 0 <= r < BOARD_HEIGHT implies !full_row(#[trigger] board@.cells[r]) by {
            assert(board@.cells[r][0] == Cell::Black);
        }
        board
    }

    /// A board with the given locked cells, on which no piece falls. It is
    /// well-formed once none of its rows is full.
    pub fn with_cells(cells: [[Cell; BOARD_WIDTH]; BOARD_HEIGHT]) -> (board: Self)
        ensures
            board@ == (BoardView { cells: grid_view(cells), piece: None }),
            board.piece_shaped(),
            grid_shaped(board@.cells),
    {
        Self { board: cells, piece: None }
    }

    /// The locked cells of every board have the board's rows and columns.
    pub proof fn lemma_cells_are_grid(&self)
        ensures
            grid_shaped(self@.cells),
    {
    }

    /// Puts a piece on the board, if there is none and the piece fits.
    pub fn add_piece(&mut self, piece: Piece) -> (added: bool)
        requires
            old(self).wf(),
            piece.wf(),
        ensures
            final(self).wf(),
            added == (old(self)@.piece is None && piece_fits(old(self)@.cells, piece@)),
            added ==> final(self)@ == (BoardView { piece: Some(piece@), ..old(self)@ }),
            !added ==> final(self)@ == old(self)@,
            added ==> piece_on_board(piece@),
    {
        if self.piece.is_none() && Self::is_piece_on_the_board(&piece) && !Self::does_piece_overlap(
            &self.board,
            &piece,
        ) {
            self.piece = Some(piece);
            true
        } else {
            false
        }
    }

    /// Moves the piece by one cell if it can move there. A piece that cannot
    /// move down settles; a piece that cannot move another way stays.
    /// Returns whether the piece moved, and the points its settling earned.
    pub fn move_piece(&mut self, direction: Direction) -> (result: (bool, u64))
        requires
            old(self).wf(),
        ensures
            final(self).wf(),
            match old(self)@.piece {
                Some(p) => if can_slide(old(self)@.cells, p, direction) {
                    &&& result == (true, 0u64)
                    &&& final(self)@ == (BoardView { piece: Some(p.slide(direction)), ..old(self)@ })
                    &&& piece_on_board(p.slide(direction))
                } else if direction == Direction::Down {
                    &&& result.0 == false
                    &&& result.1 == old(self)@.settle_points()
                    &&& final(self)@ == old(self)@.settled()
                } else {
                    &&& result == (false, 0u64)
                    &&& final(self)@ == old(self)@
                },
                None => result == (false, 0u64) && final(self)@ == old(self)@,
            },
    {
        let mut points: u64 = 0;

        if let Some(p) = self.piece.as_mut() {
            if Self::can_piece_slide(&self.board, p, &direction) {
                proof {
                    lemma_fits_is_on_board(grid_view(self.board), p@.slide(direction));
                }
                p.slide(&direction);
                return (true, 0);
            }
            if direction == Direction::Down {
                points = self.incorporate_piece();
            }
        }

        (false, points)
    }

    /// Drops the piece as far as it falls and settles it there. Returns the
    /// points of the settling, to which a settling that completes a row adds
    /// the distance fallen and one.
    pub fn land_piece(&mut self) -> (points: u64)
        requires
            old(self).wf(),
        ensures
            final(self).wf(),
            match old(self)@.piece {
                Some(p) => {
                    let distance = fall_distance(old(self)@.cells, p);
                    let resting = BoardView { piece: Some(dropped(p, distance)), ..old(self)@ };
                    &&& final(self)@ == resting.settled()
                    &&& points == if resting.settle_points() > 0 {
                        resting.settle_points() + distance + 1
                    } else {
                        0
                    }
                },
                None => points == 0 && final(self)@ == old(self)@,
            },
    {
        let mut lines_dropped: u64 = 0;
        proof {
            if let Some(p) = self@.piece {
                lemma_fall_distance_bound(self@.cells, p);
                lemma_on_board_is_near(p);
            }
        }

        loop
            invariant
                self.wf(),
                self@.cells == old(self)@.cells,
                old(self)@.piece matches Some(p) ==> fall_distance(old(self)@.cells, p)
                    < BOARD_HEIGHT + SHAPE_SIZE,
                match old(self)@.piece {
                    Some(p) => {
                        &&& self@.piece == Some(dropped(p, lines_dropped as nat))
                        &&& lines_dropped + fall_distance(self@.cells, dropped(p, lines_dropped as nat))
                            == fall_distance(old(self)@.cells, p)
                    },
                    None => self@.piece is None && lines_dropped == 0,
                },
                lines_dropped <= BOARD_HEIGHT + SHAPE_SIZE,
            decreases
                    match self@.piece {
                        Some(p) => fall_distance(self@.cells, p),
                        None => 0,
                    },
        {
            proof {
                if let Some(p) = self@.piece {
                    lemma_fall_distance_bound(self@.cells, p);
                }
            }
            let (moved, mut points) = self.move_piece(Direction::Down);
            if moved {
                lines_dropped += 1;
            } else {
                if points > 0 {
                    points = points + lines_dropped + 1;
                }
                return points;
            }
        }
    }

    /// Turns the piece by a quarter turn: where it is if it fits there
    /// turned, else one cell to the left, else one cell to the right. A
    /// piece that fits in none of the three places stays as it was.
    pub fn rotate_piece(&mut self, rotation: Rotation) -> (rotated: bool)
        requires
            old(self).wf(),
        ensures
            final(self).wf(),
            final(self)@.cells == old(self)@.cells,
            match old(self)@.piece {
                Some(p) => match turn_outcome(old(self)@.cells, p, rotation) {
                    Some(q) => rotated && final(self)@.piece == Some(q) && piece_on_board(q),
                    None => !rotated && final(self)@ == old(self)@,
                },
                None => !rotated && final(self)@ == old(self)@,
            },
    {
        if let Some(p) = self.piece.as_mut() {
            // Check if 'in-place' rotation is allowed, and rotate if true
            proof {
                let cells = grid_view(self.board);
                lemma_fits_is_on_board(cells, p@);
                lemma_fits_is_on_board(cells, p@.rotate(rotation));
                lemma_fits_is_on_board(cells, p@.slide(Direction::Left).rotate(rotation));
                lemma_fits_is_on_board(cells, p@.slide(Direction::Right).rotate(rotation));
            }
            if Self::can_piece_rotate(&self.board, p, &rotation) {
                p.rotate(&rotation);
                return true;
            }
            if Self::can_piece_slide(&self.board, p, &Direction::Left) {
                p.slide(&Direction::Left);
                // Try sliding the piece to the left, and attempt a rotation there
                if Self::can_piece_rotate(&self.board, p, &rotation) {
                    p.rotate(&rotation);
                    return true;
                }
                p.slide(&Direction::Right);  // undo the slide
            }
            if Self::can_piece_slide(&self.board, p, &Direction::Right) {
                p.slide(&Direction::Right);
                // Try sliding the piece to the right, and attempt a rotation there
                if Self::can_piece_rotate(&self.board, p, &rotation) {
                    p.rotate(&rotation);
                    return true;
                }
                p.slide(&Direction::Left);  // undo the slide
            }
        }

        false
    }

    /// The falling piece, if there is one.
    pub fn get_piece(&self) -> (piece: Option<Piece>)
        requires
            self.wf(),
        ensures
            match piece {
                Some(p) => p.wf() && self@.piece == Some(p@),
                None => self@.piece is None,
            },
    {
        self.piece
    }

    /// Settles the piece where it is: locks its solid cells into the grid,
    /// removes the rows this completes and returns their points. Without a
    /// piece nothing happens.
    pub fn incorporate_piece(&mut self) -> (points: u64)
        requires
            old(self).wf(),
        ensures
            final(self).wf(),
            match old(self)@.piece {
                Some(p) => final(self)@ == old(self)@.settled() && points == old(
                    self,
                )@.settle_points(),
                None => final(self)@ == old(self)@ && points == 0,
            },
    {
        if let Some(piece) = self.piece {
            let pos = piece.get_position();
            let size = piece.get_size();
            let ghost before = self@;

            for row in 0..size
                invariant
                    size == SHAPE_SIZE,
                    self.piece == Some(piece),
                    self.piece_shaped(),
                    before == old(self)@,
                    before.piece == Some(piece@),
                    old(self).wf(),
                    pos.row == piece@.row,
                    pos.col == piece@.col,
                    forall|r: int, c: int|
                        inside_board(r, c) ==> grid_view(self.board)[r][c] == if 0 <= r - piece@.row
                            < row {
                            shown_cell(before.cells, before.piece, r, c)
                        } else {
                            before.cells[r][c]
                        },
            {
                for col in 0..size
                    invariant
                        size == SHAPE_SIZE,
                        row < size,
                        self.piece == Some(piece),
                        self.piece_shaped(),
                        before == old(self)@,
                        before.piece == Some(piece@),
                        old(self).wf(),
                        pos.row == piece@.row,
                        pos.col == piece@.col,
                        forall|r: int, c: int|
                            inside_board(r, c) ==> grid_view(self.board)[r][c] == if 0 <= r
                                - piece@.row < row || (r - piece@.row == row && c - piece@.col
                                < col) {
                                shown_cell(before.cells, before.piece, r, c)
                            } else {
                                before.cells[r][c]
                            },
                {
                    let (i_br, i_bc) = to_board_coord(pos, row, col);

                    if Self::inside_board(i_br, i_bc) {
                        let (u_br, u_bc) = to_usize(i_br, i_bc);
                        let cell = self.get_cell_at(u_br, u_bc);
                        self.board[u_br][u_bc] = cell;
                    }
                }
            }
            proof {
                assert forall|r: int| 0 <= r < BOARD_HEIGHT implies grid_view(self.board)[r]
                    == before.shown()[r] by {
                    assert forall|c: int| 0 <= c < BOARD_WIDTH implies grid_view(self.board)[r][c]
                        == before.shown()[r][c] by {
                        assert(inside_board(r, c));
                    }
                    assert(grid_view(self.board)[r] =~= before.shown()[r]);
                }
                assert(grid_view(self.board) =~= before.shown());
                lemma_settling_completes_few(before);
            }

            self.remove_piece();

            self.collapse_completed_rows()
        } else {
            0
        }
    }

    /// Removes the full rows of a board on which no piece falls, lets the
    /// rows above them sink, and returns the points for the rows removed.
    /// More rows than a piece is tall are never full at once.
    pub fn collapse_completed_rows(&mut self) -> (points: u64)
        requires
            old(self)@.piece is None,
            count_full(old(self)@.cells) <= SHAPE_SIZE,
        ensures
            final(self).wf(),
            final(self)@ == (BoardView { cells: compacted(old(self)@.cells), piece: None }),
            points == line_clear_points(count_full(old(self)@.cells)),
    {
        let mut cleared_lines: usize = 0;
        let ghost start = grid_view(self.board);

        loop
            invariant
                self.piece == old(self).piece,
                start == grid_view(old(self).board),
                count_full(start) <= SHAPE_SIZE,
                kept_rows(grid_view(self.board)) == blank_rows(cleared_lines as nat) + kept_rows(
                    start,
                ),
                count_full(grid_view(self.board)) + cleared_lines == count_full(start),
            ensures
                forall|r: int|
                    0 <= r < BOARD_HEIGHT ==> !full_row(#[trigger] grid_view(self.board)[r]),
            decreases count_full(grid_view(self.board)),
        {
            let mut repeat = false;
            let ghost pass_start = grid_view(self.board);

            let mut row = BOARD_HEIGHT;
            while row > 0
                invariant
                    row <= BOARD_HEIGHT,
                    self.piece == old(self).piece,
                    count_full(start) <= SHAPE_SIZE,
                    kept_rows(grid_view(self.board)) == blank_rows(cleared_lines as nat)
                        + kept_rows(start),
                    count_full(grid_view(self.board)) + cleared_lines == count_full(start),
                    !repeat ==> forall|r: int|
                        row <= r < BOARD_HEIGHT ==> !full_row(#[trigger] grid_view(self.board)[r]),
                    !repeat ==> grid_view(self.board) == pass_start,
                    repeat ==> count_full(grid_view(self.board)) < count_full(pass_start),
                decreases row,
            {
                row -= 1;
                if self.is_row_full(row) {
                    let ghost full = grid_view(self.board);
                    repeat = true;
                    cleared_lines += 1;

                    let mut pull_row = row + 1;
                    while pull_row > 0
                        invariant
                            pull_row <= row + 1,
                            row < BOARD_HEIGHT,
                            full.len() == BOARD_HEIGHT,
                            self.piece == old(self).piece,
                            forall|r: int|
                                0 <= r < BOARD_HEIGHT ==> #[trigger] grid_view(self.board)[r]
                                    == if pull_row <= r <= row {
                                    pulled_down(full, row as int)[r]
                                } else {
                                    full[r]
                                },
                        decreases pull_row,
                    {
                        pull_row -= 1;
                        self.lower_row(pull_row);
                    }
                    proof {
                        assert(grid_view(self.board) =~= pulled_down(full, row as int));
                        lemma_pull_down(full, row as int);
                        assert(blank_rows(cleared_lines as nat) =~= seq![blank_row()] + blank_rows(
                            (cleared_lines - 1) as nat,
                        ));
                    }
                }
            }

            if !repeat {
                break ;
            }
        }
        proof {
            lemma_nothing_to_clear(grid_view(self.board));
            assert(grid_view(self.board) =~= compacted(start));
        }

        LINE_CLEAR_POINTS[cleared_lines]
    }

    /// What the board shows at a cell: the piece's cell where the piece is
    /// solid, the locked cell elsewhere.
    pub fn get_cell_at(&self, board_row: usize, board_col: usize) -> (cell: Cell)
        requires
            self.piece_shaped(),
            board_row < BOARD_HEIGHT,
            board_col < BOARD_WIDTH,
        ensures
            cell == shown_cell(self@.cells, self@.piece, board_row as int, board_col as int),
    {
        if let Some(piece) = self.piece.as_ref() {
            let pos = piece.get_position();

            let result = if piece.is_inside(board_row, board_col) {
                let (i_pr, i_pc) = to_piece_coord(pos, board_row, board_col);
                // we are already inside the piece, so the piece-coordinates should be proper
                let (u_pr, u_pc) = to_usize(i_pr, i_pc);
                let piece_cell = if piece.has_cell_at(u_pr, u_pc) {
                    *piece.get_cell_at(u_pr, u_pc)
                } else {
                    self.board[board_row][board_col]
                };
                piece_cell
            } else {
                self.board[board_row][board_col]
            };

            result
        } else {
            self.board[board_row][board_col]
        }
    }

    /// The board as text: each row between two bricks, with the piece drawn
    /// over the locked cells, and a line of bricks below.
    pub fn to_string(&self) -> (text: String)
        requires
            self.wf(),
        ensures
            text@ == board_text(self@),
    {
        let mut text = String::new();
        for row in 0..BOARD_HEIGHT
            invariant
                self.piece_shaped(),
                text@.len() == row * BOARD_LINE,
                forall|i: int| 0 <= i < text@.len() ==> text@[i] == board_text(self@)[i],
        {
            text.push(BRICK);
            for col in 0..BOARD_WIDTH
                invariant
                    self.piece_shaped(),
                    row < BOARD_HEIGHT,
                    text@.len() == row * BOARD_LINE + 1 + col,
                    forall|i: int| 0 <= i < text@.len() ==> text@[i] == board_text(self@)[i],
            {
                let cell = self.get_cell_at(row, col);
                text.push(cell.symbol());
            }
            text.push(BRICK);
            text.push('\n');
        }

        for at in 0..BOARD_WIDTH + 2
            invariant
                text@.len() == BOARD_HEIGHT * BOARD_LINE + at,
                forall|i: int| 0 <= i < text@.len() ==> text@[i] == board_text(self@)[i],
        {
            text.push(BRICK);
        }
        text.push('\n');
        assert(text@ =~= board_text(self@));
        text
    }

    pub fn has_piece(&self) -> (has: bool)
        ensures
            has == self@.piece is Some,
    {
        self.piece.is_some()
    }
}

// Helpers of the rules
impl Board {
    fn remove_piece(&mut self)
        ensures
            final(self).piece is None,
            final(self).board == old(self).board,
    {
        self.piece = None;
    }

    fn can_piece_slide(
        board: &[[Cell; BOARD_WIDTH]; BOARD_HEIGHT],
        piece: &Piece,
        direction: &Direction,
    ) -> (can: bool)
        requires
            piece.wf(),
        ensures
            can == can_slide(grid_view(*board), piece@, *direction),
    {
        proof {
            lemma_fits_is_on_board(grid_view(*board), piece@.slide(*direction));
        }
        if Self::is_piece_on_the_board(piece) {
            let mut virt_piece = *piece;
            virt_piece.slide(direction);

            !Self::does_piece_overlap(board, &virt_piece)
        } else {
            false
        }
    }

    fn can_piece_rotate(
        board: &[[Cell; BOARD_WIDTH]; BOARD_HEIGHT],
        piece: &Piece,
        rotation: &Rotation,
    ) -> (can: bool)
        requires
            piece.wf(),
        ensures
            can == can_rotate(grid_view(*board), piece@, *rotation),
    {
        if Self::is_piece_on_the_board(piece) {
            let mut virt_piece = *piece;
            virt_piece.rotate(rotation);

            !Self::does_piece_overlap(board, &virt_piece)
        } else {
            false
        }
    }

    /// Whether no cell of a row of the grid is empty.
    fn is_row_full(&self, row: usize) -> (full: bool)
        requires
            row < BOARD_HEIGHT,
        ensures
            full == full_row(grid_view(self.board)[row as int]),
    {
        for col in 0..BOARD_WIDTH
            invariant
                row < BOARD_HEIGHT,
                forall|c: int| 0 <= c < col ==> grid_view(self.board)[row as int][c] != Cell::Black,
        {
            if self.board[row][col] == Cell::Black {
                return false;
            }
        }

        true
    }

    /// Gives a row the cells of the row above it, and empties the top row.
    fn lower_row(&mut self, row: usize)
        requires
            row < BOARD_HEIGHT,
        ensures
            final(self).piece == old(self).piece,
            grid_view(final(self).board) == grid_view(old(self).board).update(
                row as int,
                if row == 0 {
                    blank_row()
                } else {
                    grid_view(old(self).board)[row - 1]
                },
            ),
    {
        for col in 0..BOARD_WIDTH
            invariant
                row < BOARD_HEIGHT,
                self.piece == old(self).piece,
                forall|r: int|
                    0 <= r < BOARD_HEIGHT && r != row ==> self.board[r] == old(self).board[r],
                forall|c: int|
                    0 <= c < BOARD_WIDTH ==> self.board[row as int][c] == if c < col {
                        if row == 0 {
                            Cell::Black
                        } else {
                            old(self).board[row - 1][c]
                        }
                    } else {
                        old(self).board[row as int][c]
                    },
        {
            if row == 0 {
                self.board[row][col] = Cell::Black
            } else {
                self.board[row][col] = self.board[row - 1][col];
            }
        }
        assert(grid_view(self.board) =~~= grid_view(old(self).board).update(
            row as int,
            if row == 0 {
                blank_row()
            } else {
                grid_view(old(self).board)[row - 1]
            },
        ));
    }

    /// Whether the piece overlaps a locked cell or the outside of the board.
    pub fn does_piece_overlap(board: &[[Cell; BOARD_WIDTH]; BOARD_HEIGHT], piece: &Piece) -> (overlap:
        bool)
        requires
            piece.wf(),
        ensures
            overlap == !piece_fits(grid_view(*board), piece@),
    {
        let pos = piece.get_position();
        let size = piece.get_size();

        // A square that does not touch the board has all its cells off it.
        if !Self::is_square_on_the_board(piece) {
            proof {
                piece@.lemma_has_solid_cell();
            }
            return true;
        }
        for row in 0..size
            invariant
                piece.wf(),
                size == SHAPE_SIZE,
                pos.row == piece@.row,
                pos.col == piece@.col,
                -SHAPE_SIZE < piece@.row < BOARD_HEIGHT,
                -SHAPE_SIZE < piece@.col < BOARD_WIDTH,
                forall|r: int, c: int|
                    0 <= r < row && #[trigger] piece@.filled(r, c) ==> inside_board(
                        piece@.row + r,
                        piece@.col + c,
                    ) && grid_view(*board)[piece@.row + r][piece@.col + c] == Cell::Black,
        {
            for col in 0..size
                invariant
                    piece.wf(),
                    size == SHAPE_SIZE,
                    row < size,
                    pos.row == piece@.row,
                    pos.col == piece@.col,
                    -SHAPE_SIZE < piece@.row < BOARD_HEIGHT,
                    -SHAPE_SIZE < piece@.col < BOARD_WIDTH,
                    forall|r: int, c: int|
                        (0 <= r < row || (r == row && 0 <= c < col)) && #[trigger] piece@.filled(
                            r,
                            c,
                        ) ==> inside_board(piece@.row + r, piece@.col + c) && grid_view(
                            *board,
                        )[piece@.row + r][piece@.col + c] == Cell::Black,
            {
                if piece.has_cell_at(row, col) {
                    let (i_nbr, i_nbc) = to_board_coord(pos, row, col);

                    if Self::inside_board(i_nbr, i_nbc) {
                        let (u_nbr, u_nbc) = to_usize(i_nbr, i_nbc);
                        if board[u_nbr][u_nbc] != Cell::Black {
                            assert(piece@.filled(row as int, col as int));
                            return true;
                        }
                    } else {
                        assert(piece@.filled(row as int, col as int));
                        return true;
                    }
                }
            }
        }

        false
    }

    fn inside_board(row: isize, col: isize) -> (inside: bool)
        ensures
            inside == inside_board(row as int, col as int),
    {
        let (i_height, i_width) = to_isize(BOARD_HEIGHT, BOARD_WIDTH);

        is_within_bounds(row, 0, i_height) && is_within_bounds(col, 0, i_width)
    }

    /// Whether the square of the piece touches the board: some cell of the
    /// square, solid or not, is a cell of the board.
    fn is_square_on_the_board(piece: &Piece) -> (touches: bool)
        ensures
            touches == (-SHAPE_SIZE < piece@.row < BOARD_HEIGHT && -SHAPE_SIZE < piece@.col
                < BOARD_WIDTH),
    {
        let pos = piece.get_position();
        let (i_height, i_width) = to_isize(BOARD_HEIGHT, BOARD_WIDTH);
        let i_size = piece.get_size() as isize;

        is_within_bounds(pos.row, 1 - i_size, i_height) && is_within_bounds(
            pos.col,
            1 - i_size,
            i_width,
        )
    }

    /// Whether every solid cell of the piece lies on the board.
    pub fn is_piece_on_the_board(piece: &Piece) -> (on_board: bool)
        requires
            piece.wf(),
        ensures
            on_board == piece_on_board(piece@),
            on_board ==> -SHAPE_SIZE < piece@.row < BOARD_HEIGHT && -SHAPE_SIZE < piece@.col
                < BOARD_WIDTH,
    {
        let pos = piece.get_position();
        let size = piece.get_size();

        // A square that does not touch the board has no cell on it.
        if !Self::is_square_on_the_board(piece) {
            proof {
                piece@.lemma_has_solid_cell();
            }
            return false;
        }
        for row in 0..size
            invariant
                piece.wf(),
                size == SHAPE_SIZE,
                pos.row == piece@.row,
                pos.col == piece@.col,
                -SHAPE_SIZE < piece@.row < BOARD_HEIGHT,
                -SHAPE_SIZE < piece@.col < BOARD_WIDTH,
                forall|r: int, c: int|
                    0 <= r < row && #[trigger] piece@.filled(r, c) ==> inside_board(
                        piece@.row + r,
                        piece@.col + c,
                    ),
        {
            for col in 0..size
                invariant
                    piece.wf(),
                    size == SHAPE_SIZE,
                    row < size,
                    pos.row == piece@.row,
                    pos.col == piece@.col,
                    -SHAPE_SIZE < piece@.row < BOARD_HEIGHT,
                    -SHAPE_SIZE < piece@.col < BOARD_WIDTH,
                    forall|r: int, c: int|
                        (0 <= r < row || (r == row && 0 <= c < col)) && #[trigger] piece@.filled(
                            r,
                            c,
                        ) ==> inside_board(piece@.row + r, piece@.col + c),
            {
                if piece.has_cell_at(row, col) {
                    let (i_br, i_bc) = to_board_coord(pos, row, col);
                    if !Self::inside_board(i_br, i_bc) {
                        assert(piece@.filled(row as int, col as int));
                        return false;
                    }
                }
            }
        }

        true
    }
}

} // verus!
