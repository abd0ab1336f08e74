//! The rules of the world, stated over the grid and the dynasty ledger:
//! what the scan does to one cell, and what one ant's move does.
use crate::census::{cell_at, indicator};
use crate::environment::{
    Ant, AntMove, Cell, CellKind, Direction, Dynasty, DynastyId, FoodUnit, Reward, ANT_SPAWN_COST,
    ANT_TTL, BASE_FOOD_AMOUNT, FOOD_DECAY_RATE, MAX_ANTS_PER_DYNASTY, MAX_DYNASTY_FOOD_STOCK,
    MAX_FOOD_ANT_CAN_CARRY, NEST_MARGIN, TRAIL_TTL,
};
use vstd::prelude::*;

verus! {

/// The direction facing `d`.
pub open spec fn opposite(d: Direction) -> Direction {
    match d {
        Direction::North => Direction::South,
        Direction::South => Direction::North,
        Direction::West => Direction::East,
        Direction::East => Direction::West,
    }
}

/// The coordinates one move away from `(x, y)`; rows grow southwards.
pub open spec fn neighbour(d: Direction, x: int, y: int) -> (int, int) {
    match d {
        Direction::North => (x, y - 1),
        Direction::South => (x, y + 1),
        Direction::West => (x - 1, y),
        Direction::East => (x + 1, y),
    }
}

/// Whether `(x, y)` lies on a grid of side `size`.
pub open spec fn in_grid(size: int, x: int, y: int) -> bool {
    0 <= x < size && 0 <= y < size
}

/// A newly spawned ant of dynasty `d`.
pub open spec fn fresh_ant(d: DynastyId) -> Cell {
    Cell::Ant {
        dynasty_id: d,
        carries_food: 0,
        ttl: ANT_TTL,
        direction: Direction::South,
        reward: Reward::PenaltyForBreathing,
    }
}

/// A trail just left by an ant of dynasty `d`.
pub open spec fn fresh_trail(d: DynastyId) -> Cell {
    Cell::Trail { dynasty_id: d, ttl: TRAIL_TTL }
}

/// The cell holding `ant`.
pub open spec fn ant_cell(ant: Ant) -> Cell {
    Cell::Ant {
        dynasty_id: ant.dynasty_id,
        carries_food: ant.carries_food,
        direction: ant.direction,
        ttl: ant.ttl,
        reward: ant.reward,
    }
}

/// The category of a cell.
pub open spec fn kind_of(c: Cell) -> CellKind {
    match c {
        Cell::Grass => CellKind::Grass,
        Cell::Wall => CellKind::Wall,
        Cell::Ant { .. } => CellKind::Ant,
        Cell::Nest(_) => CellKind::Nest,
        Cell::Trail { .. } => CellKind::Trail,
        Cell::Food(_) => CellKind::Food,
    }
}

/// The dynasty a cell belongs to, if any.
pub open spec fn owner_of(c: Cell) -> Option<DynastyId> {
    match c {
        Cell::Ant { dynasty_id, .. } => Some(dynasty_id),
        Cell::Nest(d) => Some(d),
        Cell::Trail { dynasty_id, .. } => Some(dynasty_id),
        _ => None,
    }
}

/// What each cell kind may hold on a grid of side `size` with `n`
/// dynasties: ids name a dynasty, ants carry no more than they can, and a
/// nest has its three spawn cells below it on the grid.
pub open spec fn cell_fits(c: Cell, x: int, y: int, size: int, n: int) -> bool {
    match c {
        Cell::Nest(d) => d < n && 1 <= x && x + 1 < size && y + 1 < size,
        Cell::Trail { dynasty_id, .. } => dynasty_id < n,
        Cell::Ant { dynasty_id, carries_food, .. } => dynasty_id < n && carries_food
            <= MAX_FOOD_ANT_CAN_CARRY,
        _ => true,
    }
}

/// `cells` is a square grid of side `size`.
pub open spec fn is_square(cells: Seq<Vec<Cell>>, size: int) -> bool {
    &&& cells.len() == size
    &&& forall|y: int| 0 <= y < size ==> (#[trigger] cells[y]).len() == size
}

/// `after` is `before` with the cell at `(x, y)` replaced by `c`.
pub open spec fn replaced(before: Seq<Vec<Cell>>, after: Seq<Vec<Cell>>, x: int, y: int, c: Cell) -> bool {
    &&& after.len() == before.len()
    &&& forall|j: int| 0 <= j < before.len() ==> (#[trigger] after[j]).len() == before[j].len()
    &&& forall|i: int, j: int|
        0 <= j < before.len() && 0 <= i < before[j].len() ==> #[trigger] cell_at(after, i, j) == if i == x
            && j == y {
            c
        } else {
            cell_at(before, i, j)
        }
}

/// A food cell after one step of decay: it turns to grass once what would be
/// left falls below the decay rate.
pub open spec fn decayed_food(amount: FoodUnit) -> Cell {
    if amount < 2 * FOOD_DECAY_RATE {
        Cell::Grass
    } else {
        Cell::Food((amount - FOOD_DECAY_RATE) as FoodUnit)
    }
}

/// A trail after one step: it turns to grass once its time is up.
pub open spec fn cooled_trail(d: DynastyId, ttl: u16) -> Cell {
    if ttl == 0 {
        Cell::Grass
    } else {
        Cell::Trail { dynasty_id: d, ttl: (ttl - 1) as u16 }
    }
}

/// A nest stock after one step of decay, never below zero.
pub open spec fn decayed_stock(food: FoodUnit) -> FoodUnit {
    if food < FOOD_DECAY_RATE {
        0
    } else {
        (food - FOOD_DECAY_RATE) as FoodUnit
    }
}

/// The first grass cell among the three below the nest at `(x, y)`, as an
/// offset `i` of the cell `(x - 1 + i, y + 1)`.
pub open spec fn spawn_slot(cells: Seq<Vec<Cell>>, x: int, y: int) -> Option<int> {
    if cell_at(cells, x - 1, y + 1) == Cell::Grass {
        Some(0)
    } else if cell_at(cells, x, y + 1) == Cell::Grass {
        Some(1)
    } else if cell_at(cells, x + 1, y + 1) == Cell::Grass {
        Some(2)
    } else {
        None
    }
}

/// Whether the nest of dynasty `d` may spawn an ant this step: its dynasty
/// can pay for one, and has at most `MAX_ANTS_PER_DYNASTY` ants.
pub open spec fn may_spawn(dynasties: Seq<Dynasty>, d: DynastyId) -> bool {
    dynasties[d as int].food >= ANT_SPAWN_COST && dynasties[d as int].ants <= MAX_ANTS_PER_DYNASTY
}

/// One step of the nest of dynasty `d` at `(x, y)`: it spawns an ant on the
/// first grass cell below it if its dynasty can pay for one, and its stock
/// decays either way.
pub open spec fn nest_ticked(
    old_cells: Seq<Vec<Cell>>,
    old_dynasties: Seq<Dynasty>,
    new_cells: Seq<Vec<Cell>>,
    new_dynasties: Seq<Dynasty>,
    x: int,
    y: int,
    d: DynastyId,
) -> bool {
    let before = old_dynasties[d as int];
    let slot = if may_spawn(old_dynasties, d) {
        spawn_slot(old_cells, x, y)
    } else {
        None
    };
    match slot {
        Some(i) => {
            &&& replaced(old_cells, new_cells, x - 1 + i, y + 1, fresh_ant(d))
            &&& new_dynasties == old_dynasties.update(
                d as int,
                Dynasty {
                    id: before.id,
                    food: decayed_stock((before.food - ANT_SPAWN_COST) as FoodUnit),
                    ants: (before.ants + 1) as usize,
                },
            )
        },
        None => {
            &&& new_cells == old_cells
            &&& new_dynasties == old_dynasties.update(
                d as int,
                Dynasty { id: before.id, food: decayed_stock(before.food), ants: before.ants },
            )
        },
    }
}

/// The food spawn coefficient of one coordinate, in tenths: the bands
/// between the first and second and between the third and fourth fifths of
/// the grid are fertile.
pub open spec fn p_bonus(size: int, pos: int) -> int {
    let fifth = size / 5;
    if (fifth < pos && pos < 2 * fifth) || (3 * fifth < pos && pos < 4 * fifth) {
        15
    } else {
        0
    }
}

/// What one step of the scan does to the cell at `(x, y)`, except for grass,
/// whose food spawn is drawn; `moved` is the pending move it yields.
pub open spec fn scanned(
    old_cells: Seq<Vec<Cell>>,
    old_dynasties: Seq<Dynasty>,
    new_cells: Seq<Vec<Cell>>,
    new_dynasties: Seq<Dynasty>,
    x: int,
    y: int,
    moved: Option<AntMove>,
) -> bool {
    match cell_at(old_cells, x, y) {
        Cell::Grass => moved is None && new_dynasties == old_dynasties && (new_cells == old_cells || replaced(
            old_cells,
            new_cells,
            x,
            y,
            Cell::Food(BASE_FOOD_AMOUNT),
        )),
        Cell::Wall => moved is None && new_dynasties == old_dynasties && new_cells == old_cells,
        Cell::Food(amount) => moved is None && new_dynasties == old_dynasties && replaced(
            old_cells,
            new_cells,
            x,
            y,
            decayed_food(amount),
        ),
        Cell::Trail { dynasty_id, ttl } => moved is None && new_dynasties == old_dynasties
            && replaced(old_cells, new_cells, x, y, cooled_trail(dynasty_id, ttl)),
        Cell::Nest(d) => moved is None && nest_ticked(
            old_cells,
            old_dynasties,
            new_cells,
            new_dynasties,
            x,
            y,
            d,
        ),
        Cell::Ant { dynasty_id, carries_food, direction, ttl, reward } => if ttl == 0 {
            let before = old_dynasties[dynasty_id as int];
            &&& moved is None
            &&& replaced(
                old_cells,
                new_cells,
                x,
                y,
                Cell::Food((carries_food + ANT_SPAWN_COST / 2) as FoodUnit),
            )
            &&& new_dynasties == old_dynasties.update(
                dynasty_id as int,
                Dynasty { id: before.id, food: before.food, ants: (before.ants - 1) as usize },
            )
        } else {
            let ant = Ant { dynasty_id, carries_food, direction, ttl: (ttl - 1) as u16, reward };
            &&& moved == Some(AntMove { from: (x as usize, y as usize), ant })
            &&& new_dynasties == old_dynasties
            &&& replaced(old_cells, new_cells, x, y, ant_cell(ant))
        },
    }
}

/// `after` is `before` with `(x1, y1)` replaced by `c1` and `(x2, y2)` by `c2`.
pub open spec fn replaced_two(
    before: Seq<Vec<Cell>>,
    after: Seq<Vec<Cell>>,
    x1: int,
    y1: int,
    c1: Cell,
    x2: int,
    y2: int,
    c2: Cell,
) -> bool {
    &&& after.len() == before.len()
    &&& forall|j: int| 0 <= j < before.len() ==> (#[trigger] after[j]).len() == before[j].len()
    &&& forall|i: int, j: int|
        0 <= j < before.len() && 0 <= i < before[j].len() ==> #[trigger] cell_at(after, i, j) == if i == x2
            && j == y2 {
            c2
        } else if i == x1 && j == y1 {
            c1
        } else {
            cell_at(before, i, j)
        }
}

pub open spec fn min(a: int, b: int) -> int {
    if a <= b {
        a
    } else {
        b
    }
}

/// `ant` facing `dir`, carrying `food`, with `reward` for its last action.
pub open spec fn with_load(ant: Ant, dir: Direction, food: int, reward: Reward) -> Ant {
    Ant {
        dynasty_id: ant.dynasty_id,
        carries_food: food as FoodUnit,
        direction: dir,
        ttl: ant.ttl,
        reward,
    }
}

/// `dynasty` with its stock set to `food`.
pub open spec fn with_stock(dynasty: Dynasty, food: int) -> Dynasty {
    Dynasty { id: dynasty.id, food: food as FoodUnit, ants: dynasty.ants }
}

/// What happens when the ant from `(x, y)` moves towards `dir`: the cell it
/// leaves at its origin, the cell written at the target (if any), and the
/// dynasty ledger afterwards.
pub open spec fn resolution(
    cells: Seq<Vec<Cell>>,
    dynasties: Seq<Dynasty>,
    size: int,
    x: int,
    y: int,
    ant: Ant,
    dir: Direction,
) -> (Cell, Option<Cell>, Seq<Dynasty>) {
    let d = ant.dynasty_id;
    let carried = ant.carries_food as int;
    let room = MAX_FOOD_ANT_CAN_CARRY - carried;
    let stays = ant_cell(with_load(ant, dir, carried, Reward::PenaltyForBreathing));
    let t = neighbour(dir, x, y);
    if !in_grid(size, t.0, t.1) {
        (stays, None, dynasties)
    } else {
        match cell_at(cells, t.0, t.1) {
            Cell::Wall => (stays, None, dynasties),
            Cell::Grass => (fresh_trail(d), Some(stays), dynasties),
            Cell::Trail { .. } => (fresh_trail(d), Some(stays), dynasties),
            Cell::Food(amount) => {
                let taken = min(amount as int, room);
                let reward = if taken > 0 {
                    Reward::PickUpFood
                } else {
                    Reward::PenaltyForBreathing
                };
                let left = if amount - taken == 0 {
                    Cell::Grass
                } else {
                    Cell::Food((amount - taken) as FoodUnit)
                };
                (ant_cell(with_load(ant, dir, carried + taken, reward)), Some(left), dynasties)
            },
            Cell::Ant { dynasty_id, carries_food, direction, .. } => {
                if dynasty_id == d || direction == opposite(dir) {
                    (stays, None, dynasties)
                } else {
                    let winner = with_load(
                        ant,
                        dir,
                        carried + min(carries_food as int, room),
                        Reward::KillEnemy,
                    );
                    let loser = dynasties[dynasty_id as int];
                    (
                        fresh_trail(d),
                        Some(ant_cell(winner)),
                        dynasties.update(
                            dynasty_id as int,
                            Dynasty { id: loser.id, food: loser.food, ants: (loser.ants - 1) as usize },
                        ),
                    )
                }
            },
            Cell::Nest(e) => {
                let stock = dynasties[e as int];
                if e == d {
                    if carried > 0 && stock.food < MAX_DYNASTY_FOOD_STOCK - FOOD_DECAY_RATE {
                        (
                            ant_cell(with_load(ant, dir, 0, Reward::BringFoodToNest)),
                            None,
                            dynasties.update(
                                e as int,
                                with_stock(stock, min(stock.food + carried, MAX_DYNASTY_FOOD_STOCK as int)),
                            ),
                        )
                    } else {
                        (stays, None, dynasties)
                    }
                } else if stock.food > 0 {
                    let taken = min(stock.food as int, room);
                    (
                        ant_cell(with_load(ant, dir, carried + taken, Reward::LootEnemyNest)),
                        None,
                        dynasties.update(e as int, with_stock(stock, stock.food - taken)),
                    )
                } else {
                    (stays, None, dynasties)
                }
            },
        }
    }
}

/// The grid and ledger after the ant from `(x, y)` moved towards `dir`.
pub open spec fn resolved(
    old_cells: Seq<Vec<Cell>>,
    old_dynasties: Seq<Dynasty>,
    new_cells: Seq<Vec<Cell>>,
    new_dynasties: Seq<Dynasty>,
    size: int,
    x: int,
    y: int,
    ant: Ant,
    dir: Direction,
) -> bool {
    let (origin, target, ledger) = resolution(old_cells, old_dynasties, size, x, y, ant, dir);
    let t = neighbour(dir, x, y);
    &&& new_dynasties == ledger
    &&& match target {
        None => replaced(old_cells, new_cells, x, y, origin),
        Some(c) => replaced_two(old_cells, new_cells, t.0, t.1, c, x, y, origin),
    }
}

/// A pending move names a cell of the grid and a valid ant.
pub open spec fn move_fits(m: AntMove, size: int, n: int) -> bool {
    &&& in_grid(size, m.from.0 as int, m.from.1 as int)
    &&& m.ant.dynasty_id < n
    &&& m.ant.carries_food <= MAX_FOOD_ANT_CAN_CARRY
}

/// How many dynasties are not dead.
pub open spec fn alive_count(dynasties: Seq<Dynasty>) -> nat
    decreases dynasties.len(),
{
    if dynasties.len() == 0 {
        0
    } else {
        alive_count(dynasties.drop_last()) + indicator(!dynasties.last().spec_is_dead()) as nat
    }
}

/// The cell at `(x, y)` of a new world with `n` dynasties: the nest of
/// dynasty `i` stands on the diagonal at `NEST_MARGIN * i + NEST_MARGIN / 2`,
/// everything else is grass.
pub open spec fn initial_cell(x: int, y: int, n: int) -> Cell {
    if x == y && x % (NEST_MARGIN as int) == NEST_MARGIN / 2 && x / (NEST_MARGIN as int) < n {
        Cell::Nest((x / (NEST_MARGIN as int)) as DynastyId)
    } else {
        Cell::Grass
    }
}

} // verus!
