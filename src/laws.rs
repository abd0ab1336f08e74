//! Laws of single transitions of the world, stated over the rules.
use crate::census::{ants_in_grid, cell_at, lemma_grid_counts_ant};
use crate::environment::{Ant, AntMove, Cell, Direction, Dynasty, DynastyId, FoodUnit, Reward};
use crate::environment::ANT_SPAWN_COST;
use crate::rules::{
    ant_cell, decayed_stock, fresh_ant, in_grid, is_square, may_spawn, neighbour, nest_ticked,
    opposite, resolved, scanned, spawn_slot, with_load,
};
use vstd::prelude::*;

verus! {

/// An ant whose time is up when scanned becomes food worth its load plus
/// half the spawn cost, and its dynasty, whose count matches its ants on
/// the grid, counts one ant less.
pub proof fn ant_death(
    old_cells: Seq<Vec<Cell>>,
    old_dynasties: Seq<Dynasty>,
    new_cells: Seq<Vec<Cell>>,
    new_dynasties: Seq<Dynasty>,
    size: int,
    x: int,
    y: int,
    moved: Option<AntMove>,
    d: DynastyId,
    carried: FoodUnit,
    facing: Direction,
    reward: Reward,
)
    requires
        is_square(old_cells, size),
        in_grid(size, x, y),
        d < old_dynasties.len(),
        old_dynasties[d as int].ants == ants_in_grid(old_cells, d),
        cell_at(old_cells, x, y) == (Cell::Ant {
            dynasty_id: d,
            carries_food: carried,
            direction: facing,
            ttl: 0,
            reward,
        }),
        scanned(old_cells, old_dynasties, new_cells, new_dynasties, x, y, moved),
    ensures
        moved is None,
        cell_at(new_cells, x, y) == Cell::Food((carried + ANT_SPAWN_COST / 2) as FoodUnit),
        new_dynasties[d as int].ants == old_dynasties[d as int].ants - 1,
        new_dynasties[d as int].food == old_dynasties[d as int].food,
{
    lemma_grid_counts_ant(old_cells, x, y, d);
}

/// An ant that moves towards an enemy ant facing it fights a fight that
/// nobody wins: both stay where they are, and no dynasty loses an ant.
pub proof fn head_on_block(
    old_cells: Seq<Vec<Cell>>,
    old_dynasties: Seq<Dynasty>,
    new_cells: Seq<Vec<Cell>>,
    new_dynasties: Seq<Dynasty>,
    size: int,
    x: int,
    y: int,
    ant: Ant,
    dir: Direction,
)
    requires
        is_square(old_cells, size),
        in_grid(size, x, y),
        in_grid(size, neighbour(dir, x, y).0, neighbour(dir, x, y).1),
        cell_at(old_cells, neighbour(dir, x, y).0, neighbour(dir, x, y).1) matches Cell::Ant {
            dynasty_id,
            direction,
            ..
        } && dynasty_id != ant.dynasty_id && direction == opposite(dir),
        resolved(old_cells, old_dynasties, new_cells, new_dynasties, size, x, y, ant, dir),
    ensures
        new_dynasties == old_dynasties,
        cell_at(new_cells, x, y) == ant_cell(
            with_load(ant, dir, ant.carries_food as int, Reward::PenaltyForBreathing),
        ),
        cell_at(new_cells, neighbour(dir, x, y).0, neighbour(dir, x, y).1) == cell_at(
            old_cells,
            neighbour(dir, x, y).0,
            neighbour(dir, x, y).1,
        ),
{
}

/// A nest whose dynasty may spawn, with grass among the three cells below
/// it, puts a fresh ant on the first of them; its dynasty pays the spawn
/// cost, its stock then decays, and it counts one ant more. Nothing else on
/// the grid changes.
pub proof fn nest_spawn(
    old_cells: Seq<Vec<Cell>>,
    old_dynasties: Seq<Dynasty>,
    new_cells: Seq<Vec<Cell>>,
    new_dynasties: Seq<Dynasty>,
    size: int,
    x: int,
    y: int,
    d: DynastyId,
    slot: int,
)
    requires
        is_square(old_cells, size),
        1 <= x && x + 1 < size && 0 <= y && y + 1 < size,
        d < old_dynasties.len(),
        may_spawn(old_dynasties, d),
        spawn_slot(old_cells, x, y) == Some(slot),
        nest_ticked(old_cells, old_dynasties, new_cells, new_dynasties, x, y, d),
    ensures
        cell_at(new_cells, x - 1 + slot, y + 1) == fresh_ant(d),
        forall|i: int, j: int|
            in_grid(size, i, j) && !(i == x - 1 + slot && j == y + 1) ==> #[trigger] cell_at(
                new_cells,
                i,
                j,
            ) == cell_at(old_cells, i, j),
        new_dynasties[d as int].ants == old_dynasties[d as int].ants + 1,
        new_dynasties[d as int].food == decayed_stock(
            (old_dynasties[d as int].food - ANT_SPAWN_COST) as FoodUnit,
        ),
{
}

} // verus!
