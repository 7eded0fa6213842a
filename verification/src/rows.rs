//! Completed rows: which rows of a grid are full, what the grid looks like
//! once they are gone, and what their removal is worth.

use crate::board::{BOARD_HEIGHT, BOARD_WIDTH};
use crate::pieces::{Cell, SHAPE_SIZE};
use vstd::prelude::*;

verus! {

/// A grid of cells, row by row from the top.
pub type Grid = Seq<Seq<Cell>>;

/// A row is full when none of its cells is empty.
pub open spec fn full_row(row: Seq<Cell>) -> bool {
    forall|c: int| 0 <= c < row.len() ==> #[trigger] row[c] != Cell::Black
}

/// The test that picks the full rows.
pub open spec fn is_full() -> spec_fn(Seq<Cell>) -> bool {
    |row: Seq<Cell>| full_row(row)
}

/// The test that picks the rows that are not full.
pub open spec fn is_kept() -> spec_fn(Seq<Cell>) -> bool {
    |row: Seq<Cell>| !full_row(row)
}

/// Number of full rows.
pub open spec fn count_full(rows: Grid) -> nat {
    rows.filter(is_full()).len()
}

/// The rows that are not full, in their order.
pub open spec fn kept_rows(rows: Grid) -> Grid {
    rows.filter(is_kept())
}

/// A row of the board's width in which every cell is empty.
pub open spec fn blank_row() -> Seq<Cell> {
    Seq::new(BOARD_WIDTH as nat, |c: int| Cell::Black)
}

/// `count` empty rows.
pub open spec fn blank_rows(count: nat) -> Grid {
    Seq::new(count, |r: int| blank_row())
}

/// The grid without its full rows: the other rows keep their order and sink
/// to the bottom, and as many empty rows as were removed fill the top.
pub open spec fn compacted(rows: Grid) -> Grid {
    blank_rows(count_full(rows)) + kept_rows(rows)
}

/// The grid after row `row` was taken out: the rows above it have moved down
/// by one and the top row is empty.
pub open spec fn pulled_down(rows: Grid, row: int) -> Grid {
    Seq::new(
        rows.len(),
        |r: int|
            if r == 0 {
                blank_row()
            } else if r <= row {
                rows[r - 1]
            } else {
                rows[r]
            },
    )
}

/// Points for the rows that one settling piece completes.
pub open spec fn line_clear_points(lines: nat) -> nat {
    if lines == 0 {
        0
    } else if lines == 1 {
        40
    } else if lines == 2 {
        100
    } else if lines == 3 {
        300
    } else {
        1200
    }
}

/// The test that picks the cells that are not empty.
pub open spec fn is_solid() -> spec_fn(Cell) -> bool {
    |cell: Cell| cell != Cell::Black
}

/// Number of cells of a row that are not empty.
pub open spec fn count_solid_in(row: Seq<Cell>) -> nat {
    row.filter(is_solid()).len()
}

/// Number of cells of a grid that are not empty.
pub open spec fn count_solid(rows: Grid) -> nat
    decreases rows.len(),
{
    if rows.len() == 0 {
        0
    } else {
        count_solid(rows.drop_last()) + count_solid_in(rows.last())
    }
}

/// An empty row is not full.
pub proof fn lemma_blank_row_kept()
    ensures
        !full_row(blank_row()),
        blank_row().len() == BOARD_WIDTH,
{
    assert(blank_row()[0] == Cell::Black);
}

proof fn lemma_filter_one<A>(x: A, pred: spec_fn(A) -> bool)
    ensures
        seq![x].filter(pred) == if pred(x) {
            seq![x]
        } else {
            Seq::<A>::empty()
        },
{
    reveal_with_fuel(Seq::filter, 2);
    assert(seq![x].drop_last() =~= Seq::<A>::empty());
    assert(Seq::<A>::empty().push(x) =~= seq![x]);
}

/// Taking a full row out removes that row and nothing else: the rows that
/// are not full stay as they were, below one more empty row.
pub proof fn lemma_pull_down(rows: Grid, row: int)
    requires
        0 <= row < rows.len(),
        full_row(rows[row]),
    ensures
        kept_rows(pulled_down(rows, row)) == seq![blank_row()] + kept_rows(rows),
        count_full(pulled_down(rows, row)) + 1 == count_full(rows),
{
    let above = rows.take(row);
    let gone = seq![rows[row]];
    let below = rows.skip(row + 1);
    let blank = seq![blank_row()];
    lemma_blank_row_kept();
    assert(rows =~= above + gone + below);
    assert(pulled_down(rows, row) =~= blank + above + below);
    lemma_filter_one(rows[row], is_kept());
    lemma_filter_one(rows[row], is_full());
    lemma_filter_one(blank_row(), is_kept());
    lemma_filter_one(blank_row(), is_full());
    Seq::filter_distributes_over_add(above, gone, is_kept());
    Seq::filter_distributes_over_add(above + gone, below, is_kept());
    Seq::filter_distributes_over_add(blank, above, is_kept());
    Seq::filter_distributes_over_add(blank + above, below, is_kept());
    Seq::filter_distributes_over_add(above, gone, is_full());
    Seq::filter_distributes_over_add(above + gone, below, is_full());
    Seq::filter_distributes_over_add(blank, above, is_full());
    Seq::filter_distributes_over_add(blank + above, below, is_full());
    assert(kept_rows(pulled_down(rows, row)) =~= seq![blank_row()] + kept_rows(rows));
}

/// A grid without a full row is its own compaction.
pub proof fn lemma_nothing_to_clear(rows: Grid)
    requires
        forall|r: int| 0 <= r < rows.len() ==> !full_row(#[trigger] rows[r]),
    ensures
        count_full(rows) == 0,
        kept_rows(rows) == rows,
        compacted(rows) == rows,
    decreases rows.len(),
{
    reveal(Seq::filter);
    if rows.len() > 0 {
        lemma_nothing_to_clear(rows.drop_last());
        assert(rows.drop_last().push(rows.last()) =~= rows);
    }
    assert(compacted(rows) =~= rows);
}

/// Full rows that all lie at or below row `top` are no more than the rows
/// from `top` down.
proof fn lemma_count_full_below(rows: Grid, top: int)
    requires
        forall|r: int| 0 <= r < rows.len() && full_row(#[trigger] rows[r]) ==> top <= r,
    ensures
        count_full(rows) == 0 || count_full(rows) <= rows.len() - top,
    decreases rows.len(),
{
    reveal(Seq::filter);
    if rows.len() > 0 {
        lemma_count_full_below(rows.drop_last(), top);
    }
}

/// Full rows that all lie among the rows that a piece's square covers are
/// no more than the square is tall.
pub proof fn lemma_count_full_window(rows: Grid, top: int)
    requires
        forall|r: int|
            0 <= r < rows.len() && full_row(#[trigger] rows[r]) ==> top <= r < top + SHAPE_SIZE,
    ensures
        count_full(rows) <= SHAPE_SIZE,
    decreases rows.len(),
{
    reveal(Seq::filter);
    if rows.len() > 0 {
        lemma_count_full_window(rows.drop_last(), top);
        lemma_count_full_below(rows.drop_last(), top);
    }
}

/// Every row is either full or kept.
pub proof fn lemma_full_or_kept(rows: Grid)
    ensures
        count_full(rows) + kept_rows(rows).len() == rows.len(),
    decreases rows.len(),
{
    reveal(Seq::filter);
    if rows.len() > 0 {
        lemma_full_or_kept(rows.drop_last());
    }
}

/// Compaction keeps the number of rows, leaves no full row, and puts an
/// empty row at the top for each row it removed.
pub proof fn lemma_compacted_shape(rows: Grid)
    ensures
        compacted(rows).len() == rows.len(),
        forall|r: int| 0 <= r < count_full(rows) ==> compacted(rows)[r] == blank_row(),
        forall|r: int| 0 <= r < rows.len() ==> !full_row(#[trigger] compacted(rows)[r]),
{
    lemma_full_or_kept(rows);
    lemma_blank_row_kept();
    assert forall|r: int| 0 <= r < rows.len() implies !full_row(#[trigger] compacted(rows)[r]) by {
        if r >= count_full(rows) {
            rows.lemma_filter_pred(is_kept(), r - count_full(rows));
        }
    }
}

/// A row that is not full sinks by as many rows as there are full rows
/// below it.
pub proof fn lemma_compacted_row(rows: Grid, row: int)
    requires
        0 <= row < rows.len(),
        !full_row(rows[row]),
    ensures
        0 <= row + count_full(rows.skip(row + 1)) < rows.len(),
        compacted(rows)[row + count_full(rows.skip(row + 1))] == rows[row],
{
    let above = rows.take(row);
    let this = seq![rows[row]];
    let below = rows.skip(row + 1);
    assert(rows =~= above + this + below);
    lemma_filter_one(rows[row], is_kept());
    lemma_filter_one(rows[row], is_full());
    Seq::filter_distributes_over_add(above, this, is_kept());
    Seq::filter_distributes_over_add(above + this, below, is_kept());
    Seq::filter_distributes_over_add(above, this, is_full());
    Seq::filter_distributes_over_add(above + this, below, is_full());
    lemma_full_or_kept(above);
    lemma_full_or_kept(below);
    lemma_full_or_kept(rows);
}

/// The full rows from row `from` down are the full rows below it and, if it
/// is full, row `from` itself.
pub proof fn lemma_count_full_from(rows: Grid, from: int)
    requires
        0 <= from < rows.len(),
    ensures
        count_full(rows.skip(from)) == count_full(rows.skip(from + 1)) + if full_row(rows[from]) {
            1nat
        } else {
            0nat
        },
{
    let this = seq![rows[from]];
    assert(rows.skip(from) =~= this + rows.skip(from + 1));
    lemma_filter_one(rows[from], is_full());
    Seq::filter_distributes_over_add(this, rows.skip(from + 1), is_full());
}

/// Where rows `upper` and `lower` are the full rows, that many full rows lie
/// at or below row `from`.
proof fn lemma_count_two_full(rows: Grid, upper: int, lower: int, from: int)
    requires
        0 <= upper < lower < rows.len(),
        0 <= from <= rows.len(),
        forall|r: int|
            0 <= r < rows.len() ==> (full_row(#[trigger] rows[r]) <==> r == upper || r == lower),
    ensures
        count_full(rows.skip(from)) == if from <= upper {
            2nat
        } else if from <= lower {
            1nat
        } else {
            0nat
        },
    decreases rows.len() - from,
{
    if from < rows.len() {
        lemma_count_two_full(rows, upper, lower, from + 1);
        lemma_count_full_from(rows, from);
    } else {
        lemma_nothing_to_clear(rows.skip(from));
    }
}

/// Two full rows, neighbours or not, are cleared together and earn the
/// points of two rows: the rows above both sink by two, the rows between
/// them by one, the rows below them stay, and the top two rows are empty.
pub proof fn lemma_two_rows_cleared(rows: Grid, upper: int, lower: int)
    requires
        0 <= upper < lower < rows.len(),
        forall|r: int|
            0 <= r < rows.len() ==> (full_row(#[trigger] rows[r]) <==> r == upper || r == lower),
    ensures
        count_full(rows) == 2,
        line_clear_points(count_full(rows)) == 100,
        compacted(rows).len() == rows.len(),
        compacted(rows)[0] == blank_row(),
        compacted(rows)[1] == blank_row(),
        forall|r: int| 0 <= r < upper ==> compacted(rows)[r + 2] == rows[r],
        forall|r: int| upper < r < lower ==> compacted(rows)[r + 1] == rows[r],
        forall|r: int| lower < r < rows.len() ==> compacted(rows)[r] == rows[r],
        forall|r: int| 0 <= r < rows.len() ==> !full_row(#[trigger] compacted(rows)[r]),
        (forall|r: int| 0 <= r < rows.len() ==> (#[trigger] rows[r]).len() == BOARD_WIDTH)
            ==> count_solid(compacted(rows)) + 2 * BOARD_WIDTH == count_solid(rows),
{
    lemma_count_two_full(rows, upper, lower, 0);
    assert(rows.skip(0) =~= rows);
    lemma_compacted_shape(rows);
    if forall|r: int| 0 <= r < rows.len() ==> (#[trigger] rows[r]).len() == BOARD_WIDTH {
        lemma_clearing_takes_full_rows(rows);
    }
    assert forall|r: int| 0 <= r < upper implies compacted(rows)[r + 2] == rows[r] by {
        lemma_compacted_row(rows, r);
        lemma_count_two_full(rows, upper, lower, r + 1);
    }
    assert forall|r: int| upper < r < lower implies compacted(rows)[r + 1] == rows[r] by {
        lemma_compacted_row(rows, r);
        lemma_count_two_full(rows, upper, lower, r + 1);
    }
    assert forall|r: int| lower < r < rows.len() implies compacted(rows)[r] == rows[r] by {
        lemma_compacted_row(rows, r);
        lemma_count_two_full(rows, upper, lower, r + 1);
    }
}

/// In a full row every cell counts, in an empty row none.
pub proof fn lemma_count_solid_in(row: Seq<Cell>)
    ensures
        full_row(row) ==> count_solid_in(row) == row.len(),
        (forall|c: int| 0 <= c < row.len() ==> row[c] == Cell::Black) ==> count_solid_in(row) == 0,
    decreases row.len(),
{
    reveal(Seq::filter);
    if row.len() > 0 {
        lemma_count_solid_in(row.drop_last());
    }
}

/// The solid cells of two grids, one above the other, add up.
pub proof fn lemma_count_solid_add(above: Grid, below: Grid)
    ensures
        count_solid(above + below) == count_solid(above) + count_solid(below),
    decreases below.len(),
{
    if below.len() == 0 {
        assert(above + below =~= above);
    } else {
        assert((above + below).drop_last() =~= above + below.drop_last());
        lemma_count_solid_add(above, below.drop_last());
    }
}

/// Empty rows hold no solid cell.
pub proof fn lemma_count_solid_blank(count: nat)
    ensures
        count_solid(blank_rows(count)) == 0,
    decreases count,
{
    if count > 0 {
        assert(blank_rows(count).drop_last() =~= blank_rows((count - 1) as nat));
        lemma_count_solid_blank((count - 1) as nat);
        lemma_count_solid_in(blank_row());
    }
}

/// The solid cells of a grid are those of its rows that are not full and a
/// whole row for each full row.
proof fn lemma_count_solid_kept(rows: Grid)
    requires
        forall|r: int| 0 <= r < rows.len() ==> (#[trigger] rows[r]).len() == BOARD_WIDTH,
    ensures
        count_solid(rows) == count_solid(kept_rows(rows)) + count_full(rows) * BOARD_WIDTH,
    decreases rows.len(),
{
    reveal(Seq::filter);
    if rows.len() > 0 {
        let init = rows.drop_last();
        lemma_count_solid_kept(init);
        lemma_count_solid_in(rows.last());
        if !full_row(rows.last()) {
            assert(kept_rows(init).push(rows.last()).drop_last() =~= kept_rows(init));
        }
    }
}

/// Clearing takes away the cells of the full rows and no other: a whole row
/// of solid cells for each row cleared.
pub proof fn lemma_clearing_takes_full_rows(rows: Grid)
    requires
        forall|r: int| 0 <= r < rows.len() ==> (#[trigger] rows[r]).len() == BOARD_WIDTH,
    ensures
        count_solid(compacted(rows)) + count_full(rows) * BOARD_WIDTH == count_solid(rows),
{
    lemma_count_solid_kept(rows);
    lemma_count_solid_add(blank_rows(count_full(rows)), kept_rows(rows));
    lemma_count_solid_blank(count_full(rows));
}

} // verus!
