//! Counting the ants of a dynasty on a grid, and how single-cell writes
//! change that count.
use crate::environment::{Cell, DynastyId};
use vstd::prelude::*;

verus! {

/// The cell at column `x` of row `y`.
pub open spec fn cell_at(cells: Seq<Vec<Cell>>, x: int, y: int) -> Cell {
    cells[y]@[x]
}

/// Whether `c` is a living ant of dynasty `d`.
pub open spec fn is_ant_of(c: Cell, d: DynastyId) -> bool {
    c matches Cell::Ant { dynasty_id, .. } && dynasty_id == d
}

pub open spec fn indicator(b: bool) -> int {
    if b {
        1
    } else {
        0
    }
}

/// Number of ants of dynasty `d` in a row.
pub open spec fn ants_in_row(row: Seq<Cell>, d: DynastyId) -> nat
    decreases row.len(),
{
    if row.len() == 0 {
        0
    } else {
        ants_in_row(row.drop_last(), d) + indicator(is_ant_of(row.last(), d)) as nat
    }
}

/// Number of ants of dynasty `d` on a grid of rows.
pub open spec fn ants_in_grid(rows: Seq<Vec<Cell>>, d: DynastyId) -> nat
    decreases rows.len(),
{
    if rows.len() == 0 {
        0
    } else {
        ants_in_grid(rows.drop_last(), d) + ants_in_row(rows.last()@, d)
    }
}

pub proof fn lemma_row_update(row: Seq<Cell>, i: int, c: Cell, d: DynastyId)
    requires
        0 <= i < row.len(),
    ensures
        ants_in_row(row.update(i, c), d) == ants_in_row(row, d) - indicator(is_ant_of(row[i], d))
            + indicator(is_ant_of(c, d)),
    decreases row.len(),
{
    let new_row = row.update(i, c);
    if i == row.len() - 1 {
        assert(new_row.drop_last() =~= row.drop_last());
    } else {
        lemma_row_update(row.drop_last(), i, c, d);
        assert(new_row.drop_last() =~= row.drop_last().update(i, c));
    }
}

pub proof fn lemma_grid_update(rows: Seq<Vec<Cell>>, j: int, row: Vec<Cell>, d: DynastyId)
    requires
        0 <= j < rows.len(),
    ensures
        ants_in_grid(rows.update(j, row), d) == ants_in_grid(rows, d) - ants_in_row(rows[j]@, d)
            + ants_in_row(row@, d),
    decreases rows.len(),
{
    let new_rows = rows.update(j, row);
    if j == rows.len() - 1 {
        assert(new_rows.drop_last() =~= rows.drop_last());
    } else {
        lemma_grid_update(rows.drop_last(), j, row, d);
        assert(new_rows.drop_last() =~= rows.drop_last().update(j, row));
    }
}

/// Writing `c` at `(x, y)` changes the count of each dynasty by what leaves
/// and what arrives there.
pub proof fn lemma_cell_write(
    rows: Seq<Vec<Cell>>,
    new_rows: Seq<Vec<Cell>>,
    x: int,
    y: int,
    c: Cell,
    d: DynastyId,
)
    requires
        0 <= y < rows.len(),
        0 <= x < rows[y].len(),
        new_rows == rows.update(y, new_rows[y]),
        new_rows[y]@ == rows[y]@.update(x, c),
    ensures
        ants_in_grid(new_rows, d) == ants_in_grid(rows, d) - indicator(
            is_ant_of(cell_at(rows, x, y), d),
        ) + indicator(is_ant_of(c, d)),
{
    lemma_grid_update(rows, y, new_rows[y], d);
    lemma_row_update(rows[y]@, x, c, d);
}

/// An ant of `d` on a row is counted.
pub proof fn lemma_row_counts_ant(row: Seq<Cell>, i: int, d: DynastyId)
    requires
        0 <= i < row.len(),
        is_ant_of(row[i], d),
    ensures
        ants_in_row(row, d) >= 1,
    decreases row.len(),
{
    if i < row.len() - 1 {
        lemma_row_counts_ant(row.drop_last(), i, d);
    }
}

/// An ant of `d` on a grid is counted.
pub proof fn lemma_grid_counts_ant(rows: Seq<Vec<Cell>>, x: int, y: int, d: DynastyId)
    requires
        0 <= y < rows.len(),
        0 <= x < rows[y].len(),
        is_ant_of(cell_at(rows, x, y), d),
    ensures
        ants_in_grid(rows, d) >= 1,
    decreases rows.len(),
{
    if y < rows.len() - 1 {
        assert(cell_at(rows.drop_last(), x, y) == cell_at(rows, x, y));
        lemma_grid_counts_ant(rows.drop_last(), x, y, d);
    } else {
        lemma_row_counts_ant(rows[y]@, x, d);
    }
}

/// A row without ants of `d` counts none.
pub proof fn lemma_row_without_ants(row: Seq<Cell>, d: DynastyId)
    requires
        forall|i: int| 0 <= i < row.len() ==> !is_ant_of(#[trigger] row[i], d),
    ensures
        ants_in_row(row, d) == 0,
    decreases row.len(),
{
    if row.len() > 0 {
        lemma_row_without_ants(row.drop_last(), d);
    }
}

/// A grid without ants of `d` counts none.
pub proof fn lemma_grid_without_ants(rows: Seq<Vec<Cell>>, d: DynastyId)
    requires
        forall|x: int, y: int|
            0 <= y < rows.len() && 0 <= x < rows[y].len() ==> !is_ant_of(
                #[trigger] cell_at(rows, x, y),
                d,
            ),
    ensures
        ants_in_grid(rows, d) == 0,
    decreases rows.len(),
{
    if rows.len() > 0 {
        let last = rows.len() - 1;
        assert forall|i: int| 0 <= i < rows[last]@.len() implies !is_ant_of(
            #[trigger] rows[last]@[i],
            d,
        ) by {
            assert(cell_at(rows, i, last) == rows[last]@[i]);
        }
        lemma_row_without_ants(rows[last]@, d);
        let prefix = rows.drop_last();
        assert forall|x: int, y: int|
            0 <= y < prefix.len() && 0 <= x < prefix[y].len() implies !is_ant_of(
            #[trigger] cell_at(prefix, x, y),
            d,
        ) by {
            assert(cell_at(prefix, x, y) == cell_at(rows, x, y));
        }
        lemma_grid_without_ants(prefix, d);
    }
}

} // verus!
