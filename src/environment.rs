//! The world: the grid of cells, the dynasty ledger and one step of the
//! simulation.
use crate::census::{
    ants_in_grid, cell_at, indicator, is_ant_of, lemma_cell_write, lemma_grid_without_ants,
};
use crate::dice::Dice;
use crate::dynasty::{picked, DynastyAgent};
use crate::rules::{
    alive_count, ant_cell, cell_fits, fresh_ant, fresh_trail, in_grid, initial_cell, is_square,
    kind_of, move_fits, neighbour, nest_ticked, opposite, owner_of, p_bonus, replaced, replaced_two,
    resolution, resolved, scanned, spawn_slot, with_stock,
};
use crate::trace::{
    lemma_pending_in_row_push, lemma_pending_push, pending, pending_in_row, resolves, reward_row,
    reward_trace, rewarded, scan_row, step_trace, Outcome, Snapshot,
};
use vstd::prelude::*;

verus! {

//--------------------------------- Constants --------------------------------//
/// How long before a trail goes cold.
pub const TRAIL_TTL: u16 = 150;

/// Food spawn chances are counted out of this many draws: a grass cell whose
/// position coefficient is `k` tenths turns into food with probability
/// `k / FOOD_SPAWN_ODDS`, i.e. one in a million per unit of coefficient.
pub const FOOD_SPAWN_ODDS: u64 = 10_000_000;

/// How much food is spawned.
pub const BASE_FOOD_AMOUNT: FoodUnit = 10000;

/// How much food cells and nest stocks lose per step.
pub const FOOD_DECAY_RATE: FoodUnit = 3;

/// How much food it costs a nest to spawn a new ant.
pub const ANT_SPAWN_COST: FoodUnit = 50;

/// How many steps a single ant lives.
pub const ANT_TTL: u16 = 3000;

/// Extra food a dynasty starts with, besides the cost of its first ant.
pub const INITIAL_DYNASTY_EXTRA_FOOD: FoodUnit = 2000;

/// How much food an ant can carry.
pub const MAX_FOOD_ANT_CAN_CARRY: FoodUnit = 300;

/// A nest spawns only while its dynasty has at most this many ants.
pub const MAX_ANTS_PER_DYNASTY: usize = 200;

/// How much food a dynasty can store.
pub const MAX_DYNASTY_FOOD_STOCK: usize = 5000;

/// A run is over once it is older than this many steps.
pub const MAX_ENVIRONMENT_AGE: usize = 20000;

/// Each dynasty needs this many cells of grid side for its nest.
pub const NEST_MARGIN: usize = 5;

/// The largest side of a grid; its cell count then fits a 32-bit index.
pub const MAX_GRID_SIZE: usize = 65535;

/// Dynasty ids are bytes.
pub const MAX_DYNASTIES: usize = 256;

//----------------------------------- Types ----------------------------------//
/// There can be multiple different warring dynasties in a game.
pub type DynastyId = u8;

/// Nutrients are measured as a counter.
pub type FoodUnit = usize;

/// A move an ant can make, which is also the way it faces afterwards.
#[derive(Clone, Copy, Debug, PartialEq, Eq, Structural)]
pub enum Direction {
    North,
    East,
    South,
    West,
}

/// The ant part of a `Cell::Ant`, as carried by a pending move.
#[derive(Clone, Copy, Debug, PartialEq, Eq, Structural)]
pub struct Ant {
    pub dynasty_id: DynastyId,
    pub carries_food: FoodUnit,
    pub direction: Direction,
    pub ttl: u16,
    /// Reward for the previous action, fed to the policy at the next one.
    pub reward: Reward,
}

/// The occupant of one grid location.
#[derive(Clone, Copy, Debug, PartialEq, Eq, Structural)]
pub enum Cell {
    Grass,
    Wall,
    Ant {
        dynasty_id: DynastyId,
        carries_food: FoodUnit,
        direction: Direction,
        ttl: u16,
        reward: Reward,
    },
    /// Where ants bring their food. Enemy ants loot it.
    Nest(DynastyId),
    /// Scent left behind a moving ant.
    Trail {
        dynasty_id: DynastyId,
        /// How long until the trail gets cold.
        ttl: u16,
    },
    /// A counter which describes the quantity of nutrition left.
    Food(FoodUnit),
}

/// What an ant's last action earned it.
#[derive(Clone, Copy, Debug, PartialEq, Eq, Structural)]
pub enum Reward {
    PickUpFood,
    BringFoodToNest,
    KillEnemy,
    PenaltyForBreathing,
    LootEnemyNest,
    Survivor,
}

/// One colony.
#[derive(Clone, Copy, Debug, PartialEq, Eq, Structural)]
pub struct Dynasty {
    /// The same as the index in the ledger.
    pub id: DynastyId,
    /// How much food the dynasty has stored.
    pub food: FoodUnit,
    /// How many ants of the dynasty are alive.
    pub ants: usize,
}

/// The category of a cell, as rendering and statistics see it.
#[derive(Clone, Copy, Debug, PartialEq, Eq, Structural)]
pub enum CellKind {
    Grass,
    Wall,
    Ant,
    Nest,
    Trail,
    Food,
}

/// Why a world cannot be built.
#[derive(Clone, Copy, Debug, PartialEq, Eq, Structural)]
pub enum WorldError {
    /// Fewer than two dynasties.
    TooFewDynasties,
    /// The grid side is not larger than `NEST_MARGIN` cells per dynasty.
    GridTooSmall,
}

/// The world: a square grid of cells, which is the only store of ant
/// state, and the ledger of dynasties.
pub struct Environment {
    /// The side of the square grid.
    pub size: usize,
    /// The grid: `cells[y][x]` is the cell at column `x` of row `y`.
    pub cells: Vec<Vec<Cell>>,
    /// The dynasty ledger, indexed by dynasty id.
    pub dynasties: Vec<Dynasty>,
    /// Time counter.
    pub steps: usize,
    /// Draws the spontaneous food spawns.
    pub rng: Dice,
}

/// An ant due to move this step, with where it stood when scanned.
#[derive(Clone, Copy, Debug)]
pub struct AntMove {
    pub from: (usize, usize),
    pub ant: Ant,
}

impl Environment {
    /// The invariant of a world between steps.
    pub open spec fn wf(&self) -> bool {
        &&& 0 < self.size <= MAX_GRID_SIZE
        &&& is_square(self.cells@, self.size as int)
        &&& 0 < self.dynasties.len() <= MAX_DYNASTIES
        &&& forall|x: int, y: int|
            in_grid(self.size as int, x, y) ==> cell_fits(
                #[trigger] cell_at(self.cells@, x, y),
                x,
                y,
                self.size as int,
                self.dynasties.len() as int,
            )
        &&& forall|i: int|
            0 <= i < self.dynasties.len() ==> {
                let d = #[trigger] self.dynasties@[i];
                &&& d.id == i
                &&& d.food <= MAX_DYNASTY_FOOD_STOCK
                &&& d.ants == ants_in_grid(self.cells@, i as DynastyId)
            }
    }

    /// The cell at column `x` of row `y`.
    pub open spec fn at(&self, x: int, y: int) -> Cell {
        cell_at(self.cells@, x, y)
    }
}

//------------------------------- Support impl -------------------------------//
impl Default for Cell {
    fn default() -> (c: Cell)
        ensures
            c == Cell::Grass,
    {
        Cell::Grass
    }
}

impl Dynasty {
    pub open spec fn founded(id: DynastyId) -> Dynasty {
        Dynasty { id, food: (ANT_SPAWN_COST + INITIAL_DYNASTY_EXTRA_FOOD) as FoodUnit, ants: 0 }
    }

    pub open spec fn spec_is_dead(&self) -> bool {
        self.ants == 0 && self.food == 0
    }

    pub fn new(id: DynastyId) -> (d: Dynasty)
        ensures
            d == Dynasty::founded(id),
    {
        Dynasty { id, food: ANT_SPAWN_COST + INITIAL_DYNASTY_EXTRA_FOOD, ants: 0 }
    }

    #[verifier::when_used_as_spec(spec_is_dead)]
    pub fn is_dead(&self) -> (dead: bool)
        ensures
            dead == (self.ants == 0 && self.food == 0),
    {
        self.ants == 0 && self.food == 0
    }
}

impl Cell {
    fn is_grass(&self) -> (g: bool)
        ensures
            g == (*self == Cell::Grass),
    {
        match self {
            Cell::Grass => true,
            _ => false,
        }
    }

    fn ant(dynasty_id: DynastyId) -> (c: Cell)
        ensures
            c == fresh_ant(dynasty_id),
    {
        Cell::Ant {
            dynasty_id,
            carries_food: 0,
            ttl: ANT_TTL,
            // Arbitrary choice of direction.
            direction: Direction::South,
            reward: Reward::PenaltyForBreathing,
        }
    }

    fn trail(dynasty_id: DynastyId) -> (c: Cell)
        ensures
            c == fresh_trail(dynasty_id),
    {
        Cell::Trail { dynasty_id, ttl: TRAIL_TTL }
    }
}

impl Cell {
    /// The category of this cell and the dynasty it belongs to, if any.
    pub fn classify(&self) -> (r: (CellKind, Option<DynastyId>))
        ensures
            r == (kind_of(*self), owner_of(*self)),
    {
        match self {
            Cell::Grass => (CellKind::Grass, None),
            Cell::Wall => (CellKind::Wall, None),
            Cell::Ant { dynasty_id, .. } => (CellKind::Ant, Some(*dynasty_id)),
            Cell::Nest(d) => (CellKind::Nest, Some(*d)),
            Cell::Trail { dynasty_id, .. } => (CellKind::Trail, Some(*dynasty_id)),
            Cell::Food(_) => (CellKind::Food, None),
        }
    }
}

impl From<Ant> for Cell {
    fn from(ant: Ant) -> (c: Cell) {
        Cell::Ant {
            carries_food: ant.carries_food,
            dynasty_id: ant.dynasty_id,
            direction: ant.direction,
            ttl: ant.ttl,
            reward: ant.reward,
        }
    }
}

impl vstd::std_specs::convert::FromSpecImpl<Ant> for Cell {
    open spec fn obeys_from_spec() -> bool {
        true
    }

    open spec fn from_spec(ant: Ant) -> Cell {
        ant_cell(ant)
    }
}

impl Direction {
    /// A direction drawn uniformly from the four.
    pub fn rand(rng: &mut Dice) -> Direction {
        Direction::from_draw(rng.below(4))
    }

    /// The direction for a number drawn from `[0, 4)`.
    pub fn from_draw(n: u64) -> (d: Direction)
        requires
            n < 4,
        ensures
            d == (if n == 0 {
                Direction::North
            } else if n == 1 {
                Direction::East
            } else if n == 2 {
                Direction::West
            } else {
                Direction::South
            }),
    {
        if n == 0 {
            Direction::North
        } else if n == 1 {
            Direction::East
        } else if n == 2 {
            Direction::West
        } else {
            Direction::South
        }
    }

    /// Where an ant at `(x, y)` gets to by moving this way on a grid of side
    /// `size`, or `None` if that is off the grid.
    pub fn new_coords(self, x: usize, y: usize, size: usize) -> (r: Option<(usize, usize)>)
        requires
            x < size,
            y < size,
        ensures
            match r {
                Some(p) => (p.0 as int, p.1 as int) == neighbour(self, x as int, y as int)
                    && in_grid(size as int, p.0 as int, p.1 as int),
                None => {
                    let q = neighbour(self, x as int, y as int);
                    !in_grid(size as int, q.0, q.1)
                },
            },
    {
        match self {
            Direction::North => if y > 0 {
                Some((x, y - 1))
            } else {
                None
            },
            Direction::South => if y < size - 1 {
                Some((x, y + 1))
            } else {
                None
            },
            Direction::West => if x > 0 {
                Some((x - 1, y))
            } else {
                None
            },
            Direction::East => if x < size - 1 {
                Some((x + 1, y))
            } else {
                None
            },
        }
    }

    /// West is the inverse of east, south the inverse of north.
    pub fn is_inverse(self, another: Direction) -> (r: bool)
        ensures
            r == (another == opposite(self)),
    {
        match self {
            Direction::North => another == Direction::South,
            Direction::South => another == Direction::North,
            Direction::West => another == Direction::East,
            Direction::East => another == Direction::West,
        }
    }
}

//------------------------------- World editing ------------------------------//
impl Environment {
    /// The food spawn coefficient of `(x, y)`, in tenths.
    fn position_based_p_coef(&self, x: usize, y: usize) -> (k: u64)
        ensures
            k == p_bonus(self.size as int, x as int) + p_bonus(self.size as int, y as int),
    {
        let fifth = self.size / 5;
        let bonus_x: u64 = if (fifth < x && x < 2 * fifth) || (3 * fifth < x && x < 4 * fifth) {
            15
        } else {
            0
        };
        let bonus_y: u64 = if (fifth < y && y < 2 * fifth) || (3 * fifth < y && y < 4 * fifth) {
            15
        } else {
            0
        };
        bonus_x + bonus_y
    }

    /// The first grass cell below the nest at `(x, y)`.
    fn find_spawn_slot(&self, x: usize, y: usize) -> (r: Option<usize>)
        requires
            is_square(self.cells@, self.size as int),
            1 <= x,
            x + 1 < self.size,
            y + 1 < self.size,
        ensures
            match r {
                Some(i) => spawn_slot(self.cells@, x as int, y as int) == Some(i as int),
                None => spawn_slot(self.cells@, x as int, y as int) is None,
            },
    {
        if self.cells[y + 1][x - 1].is_grass() {
            Some(0)
        } else if self.cells[y + 1][x].is_grass() {
            Some(1)
        } else if self.cells[y + 1][x + 1].is_grass() {
            Some(2)
        } else {
            None
        }
    }

    /// One step of the nest of dynasty `d` at `(x, y)`.
    fn nest_step(&mut self, x: usize, y: usize, d: DynastyId)
        requires
            old(self).wf(),
            in_grid(old(self).size as int, x as int, y as int),
            old(self).at(x as int, y as int) == Cell::Nest(d),
        ensures
            final(self).wf(),
            final(self).size == old(self).size,
            final(self).steps == old(self).steps,
            nest_ticked(
                old(self).cells@,
                old(self).dynasties@,
                final(self).cells@,
                final(self).dynasties@,
                x as int,
                y as int,
                d,
            ),
    {
        let di = d as usize;
        assert(cell_fits(self.at(x as int, y as int), x as int, y as int, self.size as int, self.dynasties.len() as int));
        let slot = if self.dynasties[di].food >= ANT_SPAWN_COST && self.dynasties[di].ants
            <= MAX_ANTS_PER_DYNASTY {
            self.find_spawn_slot(x, y)
        } else {
            None
        };
        let before = self.dynasties[di];
        match slot {
            Some(i) => {
                self.set_cell(x - 1 + i, y + 1, Cell::ant(d));
                let food = before.food - ANT_SPAWN_COST;
                self.dynasties[di] = Dynasty {
                    id: before.id,
                    food: food.saturating_sub(FOOD_DECAY_RATE),
                    ants: before.ants + 1,
                };
            },
            None => {
                // Decay the stock, so that a dynasty with no ants and
                // little food dies off.
                self.dynasties[di] = Dynasty {
                    id: before.id,
                    food: before.food.saturating_sub(FOOD_DECAY_RATE),
                    ants: before.ants,
                };
            },
        }
    }

    /// The ant from `(x, y)` stays there, as `moved`.
    fn stay(&mut self, x: usize, y: usize, moved: Ant)
        requires
            old(self).wf(),
            in_grid(old(self).size as int, x as int, y as int),
            is_ant_of(old(self).at(x as int, y as int), moved.dynasty_id),
            moved.carries_food <= MAX_FOOD_ANT_CAN_CARRY,
        ensures
            final(self).wf(),
            final(self).size == old(self).size,
            final(self).steps == old(self).steps,
            final(self).rng == old(self).rng,
            final(self).dynasties == old(self).dynasties,
            replaced(old(self).cells@, final(self).cells@, x as int, y as int, ant_cell(moved)),
    {
        self.set_cell(x, y, Cell::from(moved));
    }

    /// The ant from `(x, y)` enters `(new_x, new_y)` as `moved`, and leaves a
    /// fresh trail behind. If the target held an enemy ant, that ant dies.
    fn enter(&mut self, x: usize, y: usize, new_x: usize, new_y: usize, moved: Ant)
        requires
            old(self).wf(),
            in_grid(old(self).size as int, x as int, y as int),
            in_grid(old(self).size as int, new_x as int, new_y as int),
            x != new_x || y != new_y,
            is_ant_of(old(self).at(x as int, y as int), moved.dynasty_id),
            moved.carries_food <= MAX_FOOD_ANT_CAN_CARRY,
            match old(self).at(new_x as int, new_y as int) {
                Cell::Grass => true,
                Cell::Trail { .. } => true,
                Cell::Ant { dynasty_id, .. } => dynasty_id != moved.dynasty_id,
                _ => false,
            },
        ensures
            final(self).wf(),
            final(self).size == old(self).size,
            final(self).steps == old(self).steps,
            final(self).rng == old(self).rng,
            replaced_two(
                old(self).cells@,
                final(self).cells@,
                new_x as int,
                new_y as int,
                ant_cell(moved),
                x as int,
                y as int,
                fresh_trail(moved.dynasty_id),
            ),
            match old(self).at(new_x as int, new_y as int) {
                Cell::Ant { dynasty_id, .. } => {
                    let loser = old(self).dynasties@[dynasty_id as int];
                    final(self).dynasties@ == old(self).dynasties@.update(
                        dynasty_id as int,
                        Dynasty { id: loser.id, food: loser.food, ants: (loser.ants - 1) as usize },
                    )
                },
                _ => final(self).dynasties == old(self).dynasties,
            },
    {
        let target = self.cells[new_y][new_x];
        assert(cell_fits(target, new_x as int, new_y as int, self.size as int, self.dynasties.len() as int));
        self.set_cell(new_x, new_y, Cell::from(moved));
        self.set_cell(x, y, Cell::trail(moved.dynasty_id));
        if let Cell::Ant { dynasty_id, .. } = target {
            let ei = dynasty_id as usize;
            let loser = self.dynasties[ei];
            assert(ants_in_grid(self.cells@, dynasty_id) + 1 == loser.ants);
            self.dynasties[ei] = Dynasty { id: loser.id, food: loser.food, ants: loser.ants - 1 };
        }
    }

    /// The ant from `(x, y)` eats from the food at `(new_x, new_y)` without
    /// moving: it stays as `moved`, and `left` remains at the target.
    fn eat(&mut self, x: usize, y: usize, new_x: usize, new_y: usize, moved: Ant, left: Cell)
        requires
            old(self).wf(),
            in_grid(old(self).size as int, x as int, y as int),
            in_grid(old(self).size as int, new_x as int, new_y as int),
            x != new_x || y != new_y,
            is_ant_of(old(self).at(x as int, y as int), moved.dynasty_id),
            moved.carries_food <= MAX_FOOD_ANT_CAN_CARRY,
            old(self).at(new_x as int, new_y as int) is Food,
            left == Cell::Grass || left is Food,
        ensures
            final(self).wf(),
            final(self).size == old(self).size,
            final(self).steps == old(self).steps,
            final(self).rng == old(self).rng,
            final(self).dynasties == old(self).dynasties,
            replaced_two(
                old(self).cells@,
                final(self).cells@,
                new_x as int,
                new_y as int,
                left,
                x as int,
                y as int,
                ant_cell(moved),
            ),
    {
        self.set_cell(new_x, new_y, left);
        self.set_cell(x, y, Cell::from(moved));
    }

    /// Sets the stock of dynasty `e` to `food`.
    fn set_stock(&mut self, e: DynastyId, food: FoodUnit)
        requires
            old(self).wf(),
            e < old(self).dynasties.len(),
            food <= MAX_DYNASTY_FOOD_STOCK,
        ensures
            final(self).wf(),
            final(self).size == old(self).size,
            final(self).steps == old(self).steps,
            final(self).rng == old(self).rng,
            final(self).cells == old(self).cells,
            final(self).dynasties@ == old(self).dynasties@.update(
                e as int,
                with_stock(old(self).dynasties@[e as int], food as int),
            ),
    {
        let ei = e as usize;
        let stock = self.dynasties[ei];
        self.dynasties[ei] = Dynasty { id: stock.id, food, ants: stock.ants };
    }

    /// Resolves the move of `ant`, standing at `(x, y)`, towards `dir`
    /// against the target cell as it is now.
    fn apply_move(&mut self, x: usize, y: usize, ant: Ant, dir: Direction)
        requires
            old(self).wf(),
            in_grid(old(self).size as int, x as int, y as int),
            is_ant_of(old(self).at(x as int, y as int), ant.dynasty_id),
            ant.carries_food <= MAX_FOOD_ANT_CAN_CARRY,
        ensures
            final(self).wf(),
            final(self).size == old(self).size,
            final(self).steps == old(self).steps,
            final(self).rng == old(self).rng,
            resolved(
                old(self).cells@,
                old(self).dynasties@,
                final(self).cells@,
                final(self).dynasties@,
                old(self).size as int,
                x as int,
                y as int,
                ant,
                dir,
            ),
    {
        let d = ant.dynasty_id;
        let room = MAX_FOOD_ANT_CAN_CARRY - ant.carries_food;
        // By default the ant gets a negative reward, also known as penalty
        // for breathing.
        let mut moved = Ant {
            dynasty_id: d,
            carries_food: ant.carries_food,
            direction: dir,
            ttl: ant.ttl,
            reward: Reward::PenaltyForBreathing,
        };
        let (new_x, new_y) = match dir.new_coords(x, y, self.size) {
            Some(p) => p,
            None => {
                self.stay(x, y, moved);
                return;
            },
        };
        assert(in_grid(self.size as int, new_x as int, new_y as int));
        let target = self.cells[new_y][new_x];
        assert(target == self.at(new_x as int, new_y as int));
        assert(cell_fits(target, new_x as int, new_y as int, self.size as int, self.dynasties.len() as int));
        match target {
            Cell::Grass | Cell::Trail { .. } => {
                self.enter(x, y, new_x, new_y, moved);
            },
            Cell::Food(amount) => {
                // The ant eats where it stands and does not move.
                let taken = if amount < room {
                    amount
                } else {
                    room
                };
                if taken > 0 {
                    moved.reward = Reward::PickUpFood;
                }
                moved.carries_food = ant.carries_food + taken;
                let left = if amount - taken == 0 {
                    Cell::Grass
                } else {
                    Cell::Food(amount - taken)
                };
                self.eat(x, y, new_x, new_y, moved, left);
            },
            Cell::Ant { dynasty_id, carries_food, direction, .. } => {
                if dynasty_id == d || direction.is_inverse(dir) {
                    // Blocked by a friend, or a head-on fight that nobody
                    // wins.
                    self.stay(x, y, moved);
                } else {
                    // Our ant kills the enemy and feeds on its load.
                    let loot = if carries_food < room {
                        carries_food
                    } else {
                        room
                    };
                    moved.carries_food = ant.carries_food + loot;
                    moved.reward = Reward::KillEnemy;
                    self.enter(x, y, new_x, new_y, moved);
                }
            },
            Cell::Nest(e) => {
                let stock = self.dynasties[e as usize];
                if e == d {
                    // Stores the food if any and there is space in the nest.
                    if ant.carries_food > 0 && stock.food < MAX_DYNASTY_FOOD_STOCK
                        - FOOD_DECAY_RATE {
                        let stored = stock.food + ant.carries_food;
                        let food = if stored < MAX_DYNASTY_FOOD_STOCK {
                            stored
                        } else {
                            MAX_DYNASTY_FOOD_STOCK
                        };
                        self.set_stock(e, food);
                        moved.reward = Reward::BringFoodToNest;
                        moved.carries_food = 0;
                    }
                } else if stock.food > 0 {
                    // Loots the enemy nest as much as the ant can.
                    let taken = if stock.food < room {
                        stock.food
                    } else {
                        room
                    };
                    self.set_stock(e, stock.food - taken);
                    moved.carries_food = ant.carries_food + taken;
                    moved.reward = Reward::LootEnemyNest;
                }
                self.stay(x, y, moved);
            },
            Cell::Wall => {
                self.stay(x, y, moved);
            },
        }
    }

    /// A new world of side `size` with `dynasties` colonies, each with its
    /// founding stock and no ants, and its nest on the diagonal. Fails when
    /// there are fewer than two dynasties, or when the side is not larger
    /// than `NEST_MARGIN` cells per dynasty.
    pub fn new(size: usize, dynasties: u8, rng: Dice) -> (r: Result<Environment, WorldError>)
        requires
            size <= MAX_GRID_SIZE,
        ensures
            (r matches Err(e) && e == WorldError::TooFewDynasties) <==> dynasties < 2,
            (r matches Err(e) && e == WorldError::GridTooSmall) <==> (2 <= dynasties && size
                <= dynasties * NEST_MARGIN),
            r matches Ok(w) ==> {
                &&& w.wf()
                &&& w.size == size
                &&& w.steps == 0
                &&& w.dynasties@ == Seq::new(
                    dynasties as nat,
                    |i: int| Dynasty::founded(i as DynastyId),
                )
                &&& forall|x: int, y: int|
                    in_grid(size as int, x, y) ==> #[trigger] w.at(x, y) == initial_cell(
                        x,
                        y,
                        dynasties as int,
                    )
            },
    {
        if dynasties < 2 {
            return Err(WorldError::TooFewDynasties);
        }
        if size <= dynasties as usize * NEST_MARGIN {
            return Err(WorldError::GridTooSmall);
        }
        let mut ledger: Vec<Dynasty> = Vec::new();
        for id in 0..dynasties
            invariant
                ledger@ == Seq::new(id as nat, |i: int| Dynasty::founded(i as DynastyId)),
        {
            ledger.push(Dynasty::new(id));
            assert(ledger@ =~= Seq::new((id + 1) as nat, |i: int| Dynasty::founded(i as DynastyId)));
        }
        let mut cells: Vec<Vec<Cell>> = Vec::new();
        for y in 0..size
            invariant
                cells.len() == y,
                forall|j: int| 0 <= j < y ==> (#[trigger] cells@[j]).len() == size,
                forall|i: int, j: int|
                    0 <= j < y && 0 <= i < size ==> #[trigger] cell_at(cells@, i, j) == Cell::Grass,
        {
            let mut row: Vec<Cell> = Vec::new();
            for x in 0..size
                invariant
                    row.len() == x,
                    forall|i: int| 0 <= i < x ==> #[trigger] row@[i] == Cell::Grass,
            {
                row.push(Cell::default());
            }
            let ghost fresh = row@;
            let ghost before = cells@;
            cells.push(row);
            assert forall|i: int, j: int|
                0 <= j < y + 1 && 0 <= i < size implies #[trigger] cell_at(cells@, i, j)
                == Cell::Grass by {
                if j < y {
                    assert(cells@[j] == before[j]);
                    assert(cell_at(cells@, i, j) == cell_at(before, i, j));
                } else {
                    assert(cells@[j]@ == fresh);
                    assert(fresh[i] == Cell::Grass);
                }
            }
        }
        // Each dynasty's nest stands away from the edges, so that the cells
        // it spawns onto are on the grid.
        for id in 0..dynasties
            invariant
                2 <= dynasties,
                dynasties * NEST_MARGIN < size,
                is_square(cells@, size as int),
                forall|x: int, y: int|
                    in_grid(size as int, x, y) ==> #[trigger] cell_at(cells@, x, y) == initial_cell(
                        x,
                        y,
                        id as int,
                    ),
        {
            let site = id as usize * NEST_MARGIN + NEST_MARGIN / 2;
            let ghost before = cells@;
            cells[site][site] = Cell::Nest(id);
            assert forall|x: int, y: int| in_grid(size as int, x, y) implies #[trigger] cell_at(
                cells@,
                x,
                y,
            ) == initial_cell(x, y, id + 1) by {
                if x == site && y == site {
                    assert(x % 5 == 2 && x / 5 == id);
                } else {
                    assert(cell_at(cells@, x, y) == cell_at(before, x, y));
                    if x == y && x % 5 == 2 && x / 5 == id {
                        assert(x == 5 * (x / 5) + x % 5);
                    }
                }
            }
        }
        let world = Environment { size, cells, dynasties: ledger, steps: 0, rng };
        proof {
            assert forall|x: int, y: int| in_grid(size as int, x, y) implies cell_fits(
                #[trigger] cell_at(world.cells@, x, y),
                x,
                y,
                size as int,
                dynasties as int,
            ) by {
                if x == y && x % 5 == 2 && x / 5 < dynasties {
                    assert(x + 1 < size) by (nonlinear_arith)
                        requires
                            x == 5 * (x / 5) + 2,
                            x / 5 < dynasties,
                            dynasties * 5 < size,
                    ;
                }
            }
            assert forall|i: int| 0 <= i < dynasties implies #[trigger] ants_in_grid(
                world.cells@,
                i as DynastyId,
            ) == 0 by {
                assert forall|x: int, y: int|
                    0 <= y < world.cells@.len() && 0 <= x < world.cells@[y].len() implies !is_ant_of(
                    #[trigger] cell_at(world.cells@, x, y),
                    i as DynastyId,
                ) by {
                    assert(in_grid(size as int, x, y));
                }
                lemma_grid_without_ants(world.cells@, i as DynastyId);
            }
        }
        Ok(world)
    }

    /// Resolves one pending move: unless the ant was killed since it was
    /// scanned, its dynasty's policy picks a direction and the move is
    /// applied to the grid as it is now.
    fn move_ant(&mut self, dynasty_agent: &mut DynastyAgent, ant_move: AntMove)
        requires
            old(self).wf(),
            old(dynasty_agent).wf(),
            move_fits(ant_move, old(self).size as int, old(self).dynasties.len() as int),
        ensures
            final(self).wf(),
            final(self).size == old(self).size,
            final(self).steps == old(self).steps,
            final(self).rng == old(self).rng,
            final(dynasty_agent).wf(),
            final(dynasty_agent).dynasty_id == old(dynasty_agent).dynasty_id,
            final(dynasty_agent).exploration == old(dynasty_agent).exploration,
            ({
                let (x, y) = (ant_move.from.0 as int, ant_move.from.1 as int);
                if is_ant_of(old(self).at(x, y), ant_move.ant.dynasty_id) {
                    exists|dir: Direction|
                        #[trigger] resolved(
                            old(self).cells@,
                            old(self).dynasties@,
                            final(self).cells@,
                            final(self).dynasties@,
                            old(self).size as int,
                            x,
                            y,
                            ant_move.ant,
                            dir,
                        ) && picked(
                            *old(dynasty_agent),
                            *final(dynasty_agent),
                            x,
                            y,
                            ant_move.ant,
                            old(self).cells@,
                            dir,
                        )
                } else {
                    &&& final(self).cells == old(self).cells
                    &&& final(self).dynasties == old(self).dynasties
                    &&& final(self).size == old(self).size
                    &&& final(self).steps == old(self).steps
                    &&& final(self).rng == old(self).rng
                    &&& *final(dynasty_agent) == *old(dynasty_agent)
                }
            }),
    {
        let (x, y) = ant_move.from;
        let ant = ant_move.ant;
        // If the ant has been killed by another ant's move, skip the move.
        match self.cells[y][x] {
            Cell::Ant { dynasty_id, .. } => {
                if dynasty_id != ant.dynasty_id {
                    return;
                }
            },
            _ => {
                return;
            },
        }
        // Let the agent do its magic and spit out an action.
        let dir = dynasty_agent.pick_action(x, y, ant, &self.cells);
        self.apply_move(x, y, ant, dir);
    }

    /// Advances the world by one tick: scans every cell once in row-major
    /// order, then resolves the collected moves, the last scanned first.
    pub fn step(&mut self, dynasty_agents: &mut Vec<DynastyAgent>)
        requires
            old(self).wf(),
            old(self).steps < usize::MAX,
            old(dynasty_agents).len() == old(self).dynasties.len(),
            forall|i: int| 0 <= i < old(dynasty_agents).len() ==> (#[trigger] old(dynasty_agents)[i]).wf(),
        ensures
            final(self).wf(),
            final(self).steps == old(self).steps + 1,
            final(self).size == old(self).size,
            final(self).dynasties.len() == old(self).dynasties.len(),
            // The grid and ledger went through the scan of every cell and
            // the resolution of every pending move.
            exists|
                rows: Seq<Seq<Snapshot>>,
                emitted: Seq<Seq<Option<AntMove>>>,
                states: Seq<Outcome>,
            |
                #[trigger] step_trace(
                    (old(self).cells@, old(self).dynasties@),
                    old(dynasty_agents)@,
                    (final(self).cells@, final(self).dynasties@, final(dynasty_agents)@),
                    rows,
                    emitted,
                    states,
                    old(self).size as int,
                ),
            // Each dynasty counts exactly its ants on the grid, and stores
            // no more than its cap.
            forall|i: int|
                0 <= i < final(self).dynasties.len() ==> {
                    &&& (#[trigger] final(self).dynasties@[i]).ants == ants_in_grid(
                        final(self).cells@,
                        i as DynastyId,
                    )
                    &&& final(self).dynasties@[i].food <= MAX_DYNASTY_FOOD_STOCK
                },
            // No ant carries more than it can.
            forall|x: int, y: int|
                in_grid(final(self).size as int, x, y) ==> (#[trigger] final(self).at(x, y) matches Cell::Ant {
                    carries_food,
                    ..
                } ==> carries_food <= MAX_FOOD_ANT_CAN_CARRY),
            final(dynasty_agents).len() == old(dynasty_agents).len(),
            forall|i: int|
                0 <= i < final(dynasty_agents).len() ==> {
                    &&& (#[trigger] final(dynasty_agents)[i]).wf()
                    &&& final(dynasty_agents)[i].dynasty_id == old(dynasty_agents)[i].dynasty_id
                    &&& final(dynasty_agents)[i].exploration == old(dynasty_agents)[i].exploration
                },
    {
        self.steps = self.steps + 1;
        let size = self.size;
        let ghost n = self.dynasties.len() as int;
        let ghost start: Snapshot = (self.cells@, self.dynasties@);
        let ghost mut rows: Seq<Seq<Snapshot>> = seq![];
        let ghost mut emitted: Seq<Seq<Option<AntMove>>> = seq![];
        let mut ant_moves: Vec<AntMove> = Vec::new();
        // Updates the environment.
        for y in 0..size
            invariant
                self.wf(),
                self.size == size,
                self.steps == old(self).steps + 1,
                self.dynasties.len() == n,
                forall|i: int| 0 <= i < ant_moves.len() ==> move_fits(#[trigger] ant_moves[i], size as int, n),
                rows.len() == y,
                emitted.len() == y,
                forall|j: int| 0 <= j < y ==> #[trigger] scan_row(rows[j], emitted[j], j, size as int),
                0 < y ==> rows[0].len() > 0 && rows[0][0] == start,
                forall|j: int| 0 < j < y ==> (#[trigger] rows[j])[0] == rows[j - 1][size as int],
                (self.cells@, self.dynasties@) == if y == 0 {
                    start
                } else {
                    rows[y - 1][size as int]
                },
                ant_moves@ == pending(emitted),
        {
            let ghost row_start: Snapshot = (self.cells@, self.dynasties@);
            let ghost mut row_states: Seq<Snapshot> = seq![row_start];
            let ghost mut row_emitted: Seq<Option<AntMove>> = seq![];
            for x in 0..size
                invariant
                    self.wf(),
                    self.size == size,
                    self.steps == old(self).steps + 1,
                    self.dynasties.len() == n,
                    y < size,
                    forall|i: int| 0 <= i < ant_moves.len() ==> move_fits(#[trigger] ant_moves[i], size as int, n),
                    row_states.len() == x + 1,
                    row_emitted.len() == x,
                    row_states[0] == row_start,
                    row_states[x as int] == (self.cells@, self.dynasties@),
                    forall|i: int|
                        0 <= i < x ==> #[trigger] scanned(
                            row_states[i].0,
                            row_states[i].1,
                            row_states[i + 1].0,
                            row_states[i + 1].1,
                            i,
                            y as int,
                            row_emitted[i],
                        ),
                    ant_moves@ == pending(emitted) + pending_in_row(row_emitted),
            {
                let moved = self.single_cell_step(x, y);
                proof {
                    lemma_pending_in_row_push(row_emitted, moved);
                    row_states = row_states.push((self.cells@, self.dynasties@));
                    row_emitted = row_emitted.push(moved);
                }
                if let Some(ant_move) = moved {
                    ant_moves.push(ant_move);
                }
                assert(ant_moves@ =~= pending(emitted) + pending_in_row(row_emitted));
            }
            proof {
                lemma_pending_push(emitted, row_emitted);
                assert(scan_row(row_states, row_emitted, y as int, size as int));
                rows = rows.push(row_states);
                emitted = emitted.push(row_emitted);
            }
        }
        // Moves the ants.
        let ghost all = ant_moves@;
        let ghost middle: Outcome = (self.cells@, self.dynasties@, dynasty_agents@);
        let ghost mut states: Seq<Outcome> = seq![middle];
        while ant_moves.len() > 0
            invariant
                self.wf(),
                self.size == size,
                self.steps == old(self).steps + 1,
                self.dynasties.len() == n,
                forall|i: int| 0 <= i < ant_moves.len() ==> move_fits(#[trigger] ant_moves[i], size as int, n),
                dynasty_agents.len() == n,
                old(dynasty_agents).len() == n,
                forall|i: int|
                    0 <= i < dynasty_agents.len() ==> {
                        &&& (#[trigger] dynasty_agents[i]).wf()
                        &&& dynasty_agents[i].dynasty_id == old(dynasty_agents)[i].dynasty_id
                        &&& dynasty_agents[i].exploration == old(dynasty_agents)[i].exploration
                    },
                1 <= states.len() <= all.len() + 1,
                ant_moves@ == all.take(all.len() - (states.len() - 1)),
                states[0] == middle,
                states.last() == (self.cells@, self.dynasties@, dynasty_agents@),
                forall|j: int|
                    0 <= j < states.len() - 1 ==> #[trigger] resolves(
                        states[j],
                        states[j + 1],
                        all[all.len() - 1 - j],
                        size as int,
                    ),
            decreases ant_moves.len(),
        {
            let ghost before = ant_moves@;
            let ant_move = ant_moves.pop().unwrap();
            assert(ant_move == all[all.len() - 1 - (states.len() - 1)]);
            let di = ant_move.ant.dynasty_id as usize;
            let ghost prev: Outcome = (self.cells@, self.dynasties@, dynasty_agents@);
            self.move_ant(&mut dynasty_agents[di], ant_move);
            proof {
                let now: Outcome = (self.cells@, self.dynasties@, dynasty_agents@);
                let (x, y) = (ant_move.from.0 as int, ant_move.from.1 as int);
                assert(now.2 == prev.2.update(di as int, now.2[di as int]));
                if is_ant_of(cell_at(prev.0, x, y), ant_move.ant.dynasty_id) {
                    let dir = choose|dir: Direction|
                        #[trigger] resolved(prev.0, prev.1, now.0, now.1, size as int, x, y, ant_move.ant, dir)
                            && picked(prev.2[di as int], now.2[di as int], x, y, ant_move.ant, prev.0, dir);
                    assert(resolved(prev.0, prev.1, now.0, now.1, size as int, x, y, ant_move.ant, dir));
                } else {
                    assert(now.2 =~= prev.2);
                    assert(now == prev);
                }
                assert(resolves(prev, now, ant_move, size as int));
                let old_states = states;
                states = states.push(now);
                assert forall|j: int| 0 <= j < states.len() - 1 implies #[trigger] resolves(
                    states[j],
                    states[j + 1],
                    all[all.len() - 1 - j],
                    size as int,
                ) by {
                    if j < old_states.len() - 1 {
                        assert(states[j] == old_states[j] && states[j + 1] == old_states[j + 1]);
                    }
                }
                assert(ant_moves@ =~= all.take(all.len() - (states.len() - 1)));
            }
        }
        proof {
            assert forall|x: int, y: int| in_grid(self.size as int, x, y) implies (
            #[trigger] self.at(x, y) matches Cell::Ant { carries_food, .. } ==> carries_food
                <= MAX_FOOD_ANT_CAN_CARRY) by {
                assert(cell_fits(self.at(x, y), x, y, self.size as int, n));
            }
            assert(states.len() == all.len() + 1);
            assert(step_trace(
                start,
                old(dynasty_agents)@,
                (self.cells@, self.dynasties@, dynasty_agents@),
                rows,
                emitted,
                states,
                size as int,
            ));
        }
    }

    /// The category of the cell at `(x, y)` and the dynasty it belongs to.
    pub fn classify(&self, x: usize, y: usize) -> (r: (CellKind, Option<DynastyId>))
        requires
            self.wf(),
            in_grid(self.size as int, x as int, y as int),
        ensures
            r == (kind_of(self.at(x as int, y as int)), owner_of(self.at(x as int, y as int))),
    {
        self.cells[y][x].classify()
    }

    /// Whether the run is over: fewer than two dynasties are alive, or the
    /// world is older than `MAX_ENVIRONMENT_AGE`.
    pub fn is_finished(&self) -> (finished: bool)
        ensures
            finished == (alive_count(self.dynasties@) < 2 || self.steps > MAX_ENVIRONMENT_AGE),
    {
        let mut dynasties_alive: usize = 0;
        let mut i: usize = 0;
        while i < self.dynasties.len()
            invariant
                i <= self.dynasties.len(),
                dynasties_alive == alive_count(self.dynasties@.take(i as int)),
                dynasties_alive <= i,
            decreases self.dynasties.len() - i,
        {
            assert(self.dynasties@.take(i + 1).drop_last() =~= self.dynasties@.take(i as int));
            if !self.dynasties[i].is_dead() {
                dynasties_alive = dynasties_alive + 1;
            }
            i = i + 1;
        }
        assert(self.dynasties@.take(i as int) =~= self.dynasties@);
        dynasties_alive < 2 || self.steps > MAX_ENVIRONMENT_AGE
    }

    /// Gives the survivor reward to every ant still alive, without moving
    /// any of them: each ant's dynasty picks a move for it, in row-major
    /// order, carrying that reward.
    pub fn reward_winner(self, dynasty_agents: &mut Vec<DynastyAgent>)
        requires
            self.wf(),
            old(dynasty_agents).len() == self.dynasties.len(),
            forall|i: int| 0 <= i < old(dynasty_agents).len() ==> (#[trigger] old(dynasty_agents)[i]).wf(),
        ensures
            exists|rows: Seq<Seq<Seq<DynastyAgent>>>|
                #[trigger] reward_trace(
                    self.cells@,
                    old(dynasty_agents)@,
                    final(dynasty_agents)@,
                    rows,
                    self.size as int,
                ),
            final(dynasty_agents).len() == old(dynasty_agents).len(),
            forall|i: int|
                0 <= i < final(dynasty_agents).len() ==> {
                    &&& (#[trigger] final(dynasty_agents)[i]).wf()
                    &&& final(dynasty_agents)[i].dynasty_id == old(dynasty_agents)[i].dynasty_id
                    &&& final(dynasty_agents)[i].exploration == old(dynasty_agents)[i].exploration
                },
    {
        let size = self.size;
        let ghost mut rows: Seq<Seq<Seq<DynastyAgent>>> = seq![];
        for y in 0..size
            invariant
                self.wf(),
                self.size == size,
                dynasty_agents.len() == self.dynasties.len(),
                old(dynasty_agents).len() == self.dynasties.len(),
                forall|i: int|
                    0 <= i < dynasty_agents.len() ==> {
                        &&& (#[trigger] dynasty_agents[i]).wf()
                        &&& dynasty_agents[i].dynasty_id == old(dynasty_agents)[i].dynasty_id
                        &&& dynasty_agents[i].exploration == old(dynasty_agents)[i].exploration
                    },
                rows.len() == y,
                forall|j: int| 0 <= j < y ==> #[trigger] reward_row(rows[j], self.cells@, j, size as int),
                0 < y ==> rows[0].len() > 0 && rows[0][0] == old(dynasty_agents)@,
                forall|j: int| 0 < j < y ==> (#[trigger] rows[j])[0] == rows[j - 1][size as int],
                dynasty_agents@ == if y == 0 {
                    old(dynasty_agents)@
                } else {
                    rows[y - 1][size as int]
                },
        {
            let ghost row_start = dynasty_agents@;
            let ghost mut row_states: Seq<Seq<DynastyAgent>> = seq![row_start];
            for x in 0..size
                invariant
                    self.wf(),
                    self.size == size,
                    y < size,
                    dynasty_agents.len() == self.dynasties.len(),
                    old(dynasty_agents).len() == self.dynasties.len(),
                    forall|i: int|
                        0 <= i < dynasty_agents.len() ==> {
                            &&& (#[trigger] dynasty_agents[i]).wf()
                            &&& dynasty_agents[i].dynasty_id == old(dynasty_agents)[i].dynasty_id
                            &&& dynasty_agents[i].exploration == old(dynasty_agents)[i].exploration
                        },
                    row_states.len() == x + 1,
                    row_states[0] == row_start,
                    row_states[x as int] == dynasty_agents@,
                    forall|i: int|
                        0 <= i < x ==> #[trigger] rewarded(
                            row_states[i],
                            row_states[i + 1],
                            self.cells@,
                            i,
                            y as int,
                        ),
            {
                let cell = self.cells[y][x];
                assert(cell == self.at(x as int, y as int));
                assert(cell_fits(cell, x as int, y as int, size as int, self.dynasties.len() as int));
                let ghost before = dynasty_agents@;
                if let Cell::Ant { dynasty_id, carries_food, direction, ttl, .. } = cell {
                    let survivor = Ant {
                        dynasty_id,
                        carries_food,
                        reward: Reward::Survivor,
                        direction,
                        ttl,
                    };
                    let dir = dynasty_agents[dynasty_id as usize].pick_action(
                        x,
                        y,
                        survivor,
                        &self.cells,
                    );
                    proof {
                        let d = dynasty_id as int;
                        assert(dynasty_agents@ == before.update(d, dynasty_agents@[d]));
                        assert(picked(before[d], dynasty_agents@[d], x as int, y as int, survivor, self.cells@, dir));
                    }
                }
                proof {
                    assert(rewarded(before, dynasty_agents@, self.cells@, x as int, y as int));
                    row_states = row_states.push(dynasty_agents@);
                }
            }
            proof {
                assert(reward_row(row_states, self.cells@, y as int, size as int));
                rows = rows.push(row_states);
            }
        }
        proof {
            assert(reward_trace(
                self.cells@,
                old(dynasty_agents)@,
                dynasty_agents@,
                rows,
                size as int,
            ));
        }
    }

    /// The scan-phase rule for the grass cell at `(x, y)`, given the outcome
    /// `hit` of its food spawn roll: it turns into food exactly on a hit.
    pub fn grass_step(&mut self, x: usize, y: usize, hit: bool)
        requires
            old(self).wf(),
            in_grid(old(self).size as int, x as int, y as int),
            old(self).at(x as int, y as int) == Cell::Grass,
        ensures
            final(self).wf(),
            final(self).size == old(self).size,
            final(self).steps == old(self).steps,
            final(self).rng == old(self).rng,
            final(self).dynasties == old(self).dynasties,
            hit ==> replaced(
                old(self).cells@,
                final(self).cells@,
                x as int,
                y as int,
                Cell::Food(BASE_FOOD_AMOUNT),
            ),
            !hit ==> final(self).cells == old(self).cells,
    {
        if hit {
            self.set_cell(x, y, Cell::Food(BASE_FOOD_AMOUNT));
        }
    }

    /// The scan-phase rule for the cell at `(x, y)`. An ant still alive is
    /// aged in place and handed back as a pending move.
    fn single_cell_step(&mut self, x: usize, y: usize) -> (moved: Option<AntMove>)
        requires
            old(self).wf(),
            in_grid(old(self).size as int, x as int, y as int),
        ensures
            final(self).wf(),
            final(self).size == old(self).size,
            final(self).steps == old(self).steps,
            scanned(
                old(self).cells@,
                old(self).dynasties@,
                final(self).cells@,
                final(self).dynasties@,
                x as int,
                y as int,
                moved,
            ),
            moved matches Some(m) ==> move_fits(
                m,
                old(self).size as int,
                old(self).dynasties.len() as int,
            ),
            cell_at(old(self).cells@, x as int, y as int) is Grass && p_bonus(
                old(self).size as int,
                x as int,
            ) + p_bonus(old(self).size as int, y as int) == 0 ==> final(self).cells@ == old(
                self,
            ).cells@,
    {
        let cell = self.cells[y][x];
        assert(cell_fits(cell, x as int, y as int, self.size as int, self.dynasties.len() as int));
        match cell {
            Cell::Grass => {
                let chance = self.position_based_p_coef(x, y);
                let hit = self.rng.roll_dice(chance, FOOD_SPAWN_ODDS);
                self.grass_step(x, y, hit);
                None
            },
            Cell::Food(amount) => {
                if amount < 2 * FOOD_DECAY_RATE {
                    self.set_cell(x, y, Cell::Grass);
                } else {
                    self.set_cell(x, y, Cell::Food(amount - FOOD_DECAY_RATE));
                }
                None
            },
            Cell::Trail { dynasty_id, ttl } => {
                if ttl == 0 {
                    self.set_cell(x, y, Cell::Grass);
                } else {
                    self.set_cell(x, y, Cell::Trail { dynasty_id, ttl: ttl - 1 });
                }
                None
            },
            Cell::Nest(dynasty_id) => {
                self.nest_step(x, y, dynasty_id);
                None
            },
            Cell::Ant { dynasty_id, carries_food, direction, ttl, reward } => {
                let di = dynasty_id as usize;
                if ttl == 0 {
                    let before = self.dynasties[di];
                    self.set_cell(x, y, Cell::Food(carries_food + ANT_SPAWN_COST / 2));
                    assert(ants_in_grid(self.cells@, dynasty_id) + 1 == before.ants);
                    self.dynasties[di] = Dynasty {
                        id: before.id,
                        food: before.food,
                        ants: before.ants - 1,
                    };
                    None
                } else {
                    let ant = Ant { dynasty_id, carries_food, direction, ttl: ttl - 1, reward };
                    self.set_cell(x, y, Cell::from(ant));
                    Some(AntMove { from: (x, y), ant })
                }
            },
            Cell::Wall => None,
        }
    }

    /// Writes `c` at `(x, y)`; every dynasty's census moves by what leaves
    /// and what arrives there.
    fn set_cell(&mut self, x: usize, y: usize, c: Cell)
        requires
            is_square(old(self).cells@, old(self).size as int),
            x < old(self).size,
            y < old(self).size,
        ensures
            replaced(old(self).cells@, final(self).cells@, x as int, y as int, c),
            is_square(final(self).cells@, final(self).size as int),
            final(self).size == old(self).size,
            final(self).dynasties == old(self).dynasties,
            final(self).steps == old(self).steps,
            final(self).rng == old(self).rng,
            forall|d: DynastyId|
                #![trigger ants_in_grid(final(self).cells@, d)]
                ants_in_grid(final(self).cells@, d) == ants_in_grid(old(self).cells@, d)
                    - indicator(is_ant_of(old(self).at(x as int, y as int), d)) + indicator(
                    is_ant_of(c, d),
                ),
    {
        let ghost before = self.cells@;
        self.cells[y][x] = c;
        proof {
            assert forall|d: DynastyId|
                #![trigger ants_in_grid(self.cells@, d)]
                ants_in_grid(self.cells@, d) == ants_in_grid(before, d) - indicator(
                    is_ant_of(cell_at(before, x as int, y as int), d),
                ) + indicator(is_ant_of(c, d)) by {
                lemma_cell_write(before, self.cells@, x as int, y as int, c, d);
            }
        }
    }
}

} // verus!
