//! The per-dynasty policy: a 3x3 perception window as the state, an
//! epsilon-greedy choice among the four moves, and a temporal-difference
//! update of a table of state values.
use crate::census::cell_at;
use crate::dice::Dice;
use crate::environment::{Ant, Cell, Direction, DynastyId, FoodUnit, Reward, MAX_FOOD_ANT_CAN_CARRY};
use std::collections::HashMap;
use vstd::prelude::*;

verus! {

broadcast use vstd::std_specs::hash::group_hash_axioms;

/// Chance to take a random action, out of `EXPLORATION_ODDS`.
pub const EXPLORATION_P: u64 = 100;

pub const EXPLORATION_ODDS: u64 = 1000;

/// State values are fixed-point numbers, in thousandths.
pub const VALUE_SCALE: i64 = 1000;

/// How fast state values propagate: each correction closes
/// `1 / STEP_SIZE_DIVISOR` of the gap, a step size of one fifth.
pub const STEP_SIZE_DIVISOR: i64 = 5;

/// A state first met as the target of a move gets a value drawn from
/// `[0, INITIAL_VALUE_SPAN)`.
pub const INITIAL_VALUE_SPAN: u64 = 5000;

/// No state value leaves `[-VALUE_BOUND, VALUE_BOUND]`.
pub const VALUE_BOUND: i64 = 1_000_000;

/// The codes of the cell kinds in a perception window, relative to the
/// observing dynasty.
pub const WALL_CODE: u8 = 0;

pub const GRASS_CODE: u8 = 1;

pub const FOOD_CODE: u8 = 2;

pub const OWN_NEST_CODE: u8 = 3;

pub const FOREIGN_NEST_CODE: u8 = 4;

pub const OWN_TRAIL_CODE: u8 = 5;

pub const FOREIGN_TRAIL_CODE: u8 = 6;

pub const OWN_ANT_CODE: u8 = 7;

pub const FOREIGN_ANT_CODE: u8 = 8;

pub struct DynastyAgent {
    pub dynasty_id: DynastyId,
    /// The agent's estimate of each state, keyed by `get_state_at`.
    pub state_values: HashMap<u32, i64>,
    /// Chance to take a random action, out of `EXPLORATION_ODDS`.
    pub exploration: u64,
    /// Rolls the dice for exploratory moves and first-seen values.
    pub rng: Dice,
}

//------------------------------ Specifications ------------------------------//
pub open spec fn cell_code(c: Cell, d: DynastyId) -> u8 {
    match c {
        Cell::Wall => WALL_CODE,
        Cell::Grass => GRASS_CODE,
        Cell::Food(_) => FOOD_CODE,
        Cell::Nest(id) => if id == d {
            OWN_NEST_CODE
        } else {
            FOREIGN_NEST_CODE
        },
        Cell::Trail { dynasty_id, .. } => if dynasty_id == d {
            OWN_TRAIL_CODE
        } else {
            FOREIGN_TRAIL_CODE
        },
        Cell::Ant { dynasty_id, .. } => if dynasty_id == d {
            OWN_ANT_CODE
        } else {
            FOREIGN_ANT_CODE
        },
    }
}

/// What dynasty `d` perceives at `(x, y)`: anything off the grid is a wall.
pub open spec fn code_at(cells: Seq<Vec<Cell>>, d: DynastyId, x: int, y: int) -> u8 {
    if 0 <= y < cells.len() && 0 <= x < cells[y].len() {
        cell_code(cell_at(cells, x, y), d)
    } else {
        WALL_CODE
    }
}

/// The state key of the 3x3 window centred on `(x, y)`: one decimal digit
/// per cell code, row by row from the north-west corner, after a leading
/// digit that is 1 when the ant cannot carry more food.
#[verifier::opaque]
pub open spec fn state_key(cells: Seq<Vec<Cell>>, d: DynastyId, food: FoodUnit, x: int, y: int) -> int {
    (if food == MAX_FOOD_ANT_CAN_CARRY {
        1_000_000_000int
    } else {
        0
    }) + code_at(cells, d, x - 1, y - 1) * 100_000_000 + code_at(cells, d, x, y - 1) * 10_000_000
        + code_at(cells, d, x + 1, y - 1) * 1_000_000 + code_at(cells, d, x - 1, y) * 100_000
        + code_at(cells, d, x, y) * 10_000 + code_at(cells, d, x + 1, y) * 1_000 + code_at(
        cells,
        d,
        x - 1,
        y + 1,
    ) * 100 + code_at(cells, d, x, y + 1) * 10 + code_at(cells, d, x + 1, y + 1)
}

pub open spec fn reward_value(r: Reward) -> int {
    match r {
        Reward::PickUpFood => 5 * VALUE_SCALE,
        Reward::BringFoodToNest => 20 * VALUE_SCALE,
        Reward::KillEnemy => 10 * VALUE_SCALE,
        Reward::PenaltyForBreathing => -VALUE_SCALE,
        Reward::LootEnemyNest => 10 * VALUE_SCALE,
        Reward::Survivor => 50 * VALUE_SCALE,
    }
}

/// One step-size correction of a gap between two values (rounded down).
pub open spec fn td_step(gap: int) -> int {
    gap / STEP_SIZE_DIVISOR as int
}

/// The value of state `key` after correcting it towards `reward`; a state
/// met for the first time takes the reward itself.
pub open spec fn corrected(values: Map<u32, i64>, key: u32, reward: int) -> int {
    if values.contains_key(key) {
        values[key] + td_step(reward - values[key])
    } else {
        reward
    }
}

pub open spec fn best_value(n: int, s: int, w: int, e: int) -> int {
    let ns = if s > n {
        s
    } else {
        n
    };
    let nsw = if w > ns {
        w
    } else {
        ns
    };
    if e > nsw {
        e
    } else {
        nsw
    }
}

/// The first direction, in the order north, south, west, east, whose value
/// is the greatest.
pub open spec fn first_best(n: int, s: int, w: int, e: int) -> Direction {
    let m = best_value(n, s, w, e);
    if n == m {
        Direction::North
    } else if s == m {
        Direction::South
    } else if w == m {
        Direction::West
    } else {
        Direction::East
    }
}

pub open spec fn bounded(values: Map<u32, i64>) -> bool {
    forall|k: u32| #[trigger] values.contains_key(k) ==> -VALUE_BOUND <= values[k] <= VALUE_BOUND
}

/// `looked` is `before` once each of the keys `kn`, `ks`, `kw`, `ke` has a
/// value: keys met for the first time get one from `[0, INITIAL_VALUE_SPAN)`.
pub open spec fn looked_up(
    before: Map<u32, i64>,
    looked: Map<u32, i64>,
    kn: u32,
    ks: u32,
    kw: u32,
    ke: u32,
) -> bool {
    &&& forall|k: u32|
        #[trigger] looked.contains_key(k) <==> (before.contains_key(k) || k == kn || k == ks || k
            == kw || k == ke)
    &&& forall|k: u32| #[trigger] before.contains_key(k) ==> looked[k] == before[k]
    &&& forall|k: u32|
        #[trigger] looked.contains_key(k) && !before.contains_key(k) ==> 0 <= looked[k]
            < INITIAL_VALUE_SPAN
}

/// A greedy choice of `dir` by the ant at `(x, y)`: `looked` is the table
/// `before` once each of the four neighbouring states has a value (states
/// met for the first time draw one from `[0, INITIAL_VALUE_SPAN)`), `dir`
/// leads to the best of them, and `after` is `looked` with the current state
/// `key` pulled towards that best value.
pub open spec fn greedy_pick(
    before: Map<u32, i64>,
    looked: Map<u32, i64>,
    after: Map<u32, i64>,
    cells: Seq<Vec<Cell>>,
    d: DynastyId,
    food: FoodUnit,
    x: int,
    y: int,
    key: u32,
    dir: Direction,
) -> bool {
    let kn = state_key(cells, d, food, x, y - 1) as u32;
    let ks = state_key(cells, d, food, x, y + 1) as u32;
    let kw = state_key(cells, d, food, x - 1, y) as u32;
    let ke = state_key(cells, d, food, x + 1, y) as u32;
    let best = best_value(looked[kn] as int, looked[ks] as int, looked[kw] as int, looked[ke] as int);
    &&& looked_up(before, looked, kn, ks, kw, ke)
    &&& dir == first_best(looked[kn] as int, looked[ks] as int, looked[kw] as int, looked[ke] as int)
    &&& after == looked.insert(key, td_step(best - before[key]) as i64)
}

/// Whatever lies off the grid is perceived as a wall.
pub proof fn off_grid_is_wall(cells: Seq<Vec<Cell>>, d: DynastyId, x: int, y: int)
    requires
        !(0 <= y < cells.len() && 0 <= x < cells[y].len()),
    ensures
        code_at(cells, d, x, y) == WALL_CODE,
        code_at(cells, d, x, y) == cell_code(Cell::Wall, d),
{
}

/// `after` is `before` once it has picked `dir` for `ant` at `(x, y)` on
/// `cells`, where `explore` is the outcome of the exploration roll: the
/// current state is first corrected towards the ant's reward; an exploring
/// agent then takes a random move and changes nothing more, otherwise it
/// takes the greedy move that `greedy_pick` describes.
pub open spec fn chose(
    before: DynastyAgent,
    after: DynastyAgent,
    x: int,
    y: int,
    ant: Ant,
    cells: Seq<Vec<Cell>>,
    dir: Direction,
    explore: bool,
) -> bool {
    let d = before.dynasty_id;
    let food = ant.carries_food;
    let key = state_key(cells, d, food, x, y) as u32;
    let values = before.state_values@;
    let current = values.insert(key, corrected(values, key, reward_value(ant.reward)) as i64);
    &&& after.wf()
    &&& after.dynasty_id == before.dynasty_id
    &&& after.exploration == before.exploration
    &&& explore ==> after.state_values@ == current
    &&& !explore ==> exists|looked: Map<u32, i64>|
        #[trigger] greedy_pick(current, looked, after.state_values@, cells, d, food, x, y, key, dir)
}

/// `after` is `before` once it has picked `dir` for `ant` at `(x, y)` on
/// `cells`, whatever the exploration roll gave: the roll can only say
/// "explore" when the agent's exploration chance is not zero.
pub open spec fn picked(
    before: DynastyAgent,
    after: DynastyAgent,
    x: int,
    y: int,
    ant: Ant,
    cells: Seq<Vec<Cell>>,
    dir: Direction,
) -> bool {
    ||| (before.exploration > 0 && chose(before, after, x, y, ant, cells, dir, true))
    ||| chose(before, after, x, y, ant, cells, dir, false)
}

//-------------------------------- Perception --------------------------------//
impl Cell {
    /// The code of this cell as seen by `with_regards_to_dynasty`.
    pub fn to_byte(&self, with_regards_to_dynasty: DynastyId) -> (b: u8)
        ensures
            b == cell_code(*self, with_regards_to_dynasty),
    {
        match self {
            Cell::Wall => WALL_CODE,
            Cell::Grass => GRASS_CODE,
            Cell::Food(_) => FOOD_CODE,
            Cell::Nest(id) => if *id == with_regards_to_dynasty {
                OWN_NEST_CODE
            } else {
                FOREIGN_NEST_CODE
            },
            Cell::Trail { dynasty_id, .. } => if *dynasty_id == with_regards_to_dynasty {
                OWN_TRAIL_CODE
            } else {
                FOREIGN_TRAIL_CODE
            },
            Cell::Ant { dynasty_id, .. } => if *dynasty_id == with_regards_to_dynasty {
                OWN_ANT_CODE
            } else {
                FOREIGN_ANT_CODE
            },
        }
    }
}

/// The code that dynasty `d` perceives at `(x, y)`.
fn perceive(cells: &Vec<Vec<Cell>>, d: DynastyId, x: isize, y: isize) -> (b: u8)
    ensures
        b == code_at(cells@, d, x as int, y as int),
{
    if x < 0 || y < 0 {
        return WALL_CODE;
    }
    let row = y as usize;
    let column = x as usize;
    if row >= cells.len() || column >= cells[row].len() {
        WALL_CODE
    } else {
        cells[row][column].to_byte(d)
    }
}

/// Returns the state key of the 3x3 view of the grid centred on
/// `(around_x, around_y)`, as seen by `dynasty_id` carrying `ant_food`.
pub fn get_state_at(
    dynasty_id: DynastyId,
    ant_food: FoodUnit,
    cells: &Vec<Vec<Cell>>,
    around_x: isize,
    around_y: isize,
) -> (key: u32)
    requires
        isize::MIN < around_x < isize::MAX,
        isize::MIN < around_y < isize::MAX,
    ensures
        key as int == state_key(cells@, dynasty_id, ant_food, around_x as int, around_y as int),
{
    let mut key: u32 = if ant_food == MAX_FOOD_ANT_CAN_CARRY {
        1
    } else {
        0
    };
    key = key * 10 + perceive(cells, dynasty_id, around_x - 1, around_y - 1) as u32;
    key = key * 10 + perceive(cells, dynasty_id, around_x, around_y - 1) as u32;
    key = key * 10 + perceive(cells, dynasty_id, around_x + 1, around_y - 1) as u32;
    key = key * 10 + perceive(cells, dynasty_id, around_x - 1, around_y) as u32;
    key = key * 10 + perceive(cells, dynasty_id, around_x, around_y) as u32;
    key = key * 10 + perceive(cells, dynasty_id, around_x + 1, around_y) as u32;
    key = key * 10 + perceive(cells, dynasty_id, around_x - 1, around_y + 1) as u32;
    key = key * 10 + perceive(cells, dynasty_id, around_x, around_y + 1) as u32;
    key = key * 10 + perceive(cells, dynasty_id, around_x + 1, around_y + 1) as u32;
    proof {
        reveal(state_key);
    }
    key
}

//---------------------------------- Policy ----------------------------------//
impl Reward {
    /// The reward as a state value.
    pub fn value(self) -> (v: i64)
        ensures
            v == reward_value(self),
    {
        match self {
            Reward::PickUpFood => 5 * VALUE_SCALE,
            Reward::BringFoodToNest => 20 * VALUE_SCALE,
            Reward::KillEnemy => 10 * VALUE_SCALE,
            Reward::PenaltyForBreathing => -VALUE_SCALE,
            Reward::LootEnemyNest => 10 * VALUE_SCALE,
            Reward::Survivor => 50 * VALUE_SCALE,
        }
    }
}

/// One step-size correction of `gap`, rounded down.
fn correction(gap: i64) -> (c: i64)
    requires
        -2 * VALUE_BOUND <= gap <= 2 * VALUE_BOUND,
    ensures
        c == td_step(gap as int),
{
    if gap >= 0 {
        gap / STEP_SIZE_DIVISOR
    } else {
        let c = -((-gap + STEP_SIZE_DIVISOR - 1) / STEP_SIZE_DIVISOR);
        assert(c == td_step(gap as int)) by (nonlinear_arith)
            requires
                gap < 0,
                c == -((-gap + 4) / 5),
        ;
        c
    }
}

proof fn lemma_correction_bounds(v: int, target: int)
    requires
        -VALUE_BOUND <= v <= VALUE_BOUND,
        -VALUE_BOUND <= target <= VALUE_BOUND,
    ensures
        -VALUE_BOUND <= v + td_step(target - v) <= VALUE_BOUND,
        -VALUE_BOUND <= td_step(target - v) <= VALUE_BOUND,
{
}

/// The first direction, in the order north, south, west, east, with the
/// greatest of the four values, and that value.
fn best_direction(north: i64, south: i64, west: i64, east: i64) -> (r: (Direction, i64))
    ensures
        r.0 == first_best(north as int, south as int, west as int, east as int),
        r.1 == best_value(north as int, south as int, west as int, east as int),
{
    let mut best = (Direction::North, north);
    if south > best.1 {
        best = (Direction::South, south);
    }
    if west > best.1 {
        best = (Direction::West, west);
    }
    if east > best.1 {
        best = (Direction::East, east);
    }
    best
}

impl DynastyAgent {
    pub open spec fn wf(&self) -> bool {
        bounded(self.state_values@)
    }

    pub fn new(dynasty_id: DynastyId, rng: Dice) -> (agent: DynastyAgent)
        ensures
            agent.dynasty_id == dynasty_id,
            agent.state_values@ == Map::<u32, i64>::empty(),
            agent.exploration == EXPLORATION_P,
            agent.wf(),
    {
        DynastyAgent { dynasty_id, state_values: HashMap::new(), exploration: EXPLORATION_P, rng }
    }

    /// The value of state `key`; a state met for the first time gets one
    /// drawn from `[0, INITIAL_VALUE_SPAN)`.
    fn value_or_prior(&mut self, key: u32) -> (v: i64)
        requires
            old(self).wf(),
        ensures
            final(self).wf(),
            final(self).dynasty_id == old(self).dynasty_id,
            final(self).exploration == old(self).exploration,
            old(self).state_values@.contains_key(key) ==> v == old(self).state_values@[key]
                && final(self).state_values@ == old(self).state_values@,
            !old(self).state_values@.contains_key(key) ==> 0 <= v < INITIAL_VALUE_SPAN
                && final(self).state_values@ == old(self).state_values@.insert(key, v),
    {
        match self.state_values.get(&key) {
            Some(v) => *v,
            None => {
                let v = self.rng.below(INITIAL_VALUE_SPAN) as i64;
                self.state_values.insert(key, v);
                v
            },
        }
    }

    /// The values of the four states next to `(x, y)`, north, south, west
    /// and east, giving first-seen ones a drawn value.
    fn look_around(
        &mut self,
        food: FoodUnit,
        cells: &Vec<Vec<Cell>>,
        x: isize,
        y: isize,
    ) -> (v: (i64, i64, i64, i64))
        requires
            old(self).wf(),
            isize::MIN + 1 < x < isize::MAX - 1,
            isize::MIN + 1 < y < isize::MAX - 1,
        ensures
            final(self).wf(),
            final(self).dynasty_id == old(self).dynasty_id,
            final(self).exploration == old(self).exploration,
            ({
                let d = old(self).dynasty_id;
                let kn = state_key(cells@, d, food, x as int, y - 1) as u32;
                let ks = state_key(cells@, d, food, x as int, y + 1) as u32;
                let kw = state_key(cells@, d, food, x - 1, y as int) as u32;
                let ke = state_key(cells@, d, food, x + 1, y as int) as u32;
                let looked = final(self).state_values@;
                &&& looked_up(old(self).state_values@, looked, kn, ks, kw, ke)
                &&& v == (looked[kn], looked[ks], looked[kw], looked[ke])
            }),
            -VALUE_BOUND <= v.0 <= VALUE_BOUND,
            -VALUE_BOUND <= v.1 <= VALUE_BOUND,
            -VALUE_BOUND <= v.2 <= VALUE_BOUND,
            -VALUE_BOUND <= v.3 <= VALUE_BOUND,
    {
        let d = self.dynasty_id;
        let kn = get_state_at(d, food, cells, x, y - 1);
        let ks = get_state_at(d, food, cells, x, y + 1);
        let kw = get_state_at(d, food, cells, x - 1, y);
        let ke = get_state_at(d, food, cells, x + 1, y);
        let north = self.value_or_prior(kn);
        let south = self.value_or_prior(ks);
        let west = self.value_or_prior(kw);
        let east = self.value_or_prior(ke);
        assert(self.state_values@.contains_key(kn) && self.state_values@.contains_key(ks));
        assert(self.state_values@.contains_key(kw) && self.state_values@.contains_key(ke));
        (north, south, west, east)
    }

    /// Corrects the value of state `key` towards `reward`, and returns it.
    fn correct_towards(&mut self, key: u32, reward: i64) -> (v: i64)
        requires
            old(self).wf(),
            -VALUE_BOUND <= reward <= VALUE_BOUND,
        ensures
            final(self).wf(),
            final(self).dynasty_id == old(self).dynasty_id,
            final(self).exploration == old(self).exploration,
            v == corrected(old(self).state_values@, key, reward as int),
            -VALUE_BOUND <= v <= VALUE_BOUND,
            final(self).state_values@ == old(self).state_values@.insert(key, v),
    {
        let v = match self.state_values.get(&key) {
            Some(v) => {
                proof {
                    lemma_correction_bounds(*v as int, reward as int);
                }
                *v + correction(reward - *v)
            },
            None => reward,
        };
        self.state_values.insert(key, v);
        v
    }

    /// Picks a move for the ant of this dynasty at `(ant_x, ant_y)`, given
    /// the outcome `explore` of the exploration roll. The reward the ant
    /// carries is for its previous action: the current state is first
    /// corrected towards it. An exploring agent then moves at random;
    /// otherwise it takes the move leading to the best valued state, and
    /// pulls the current state towards that value.
    pub fn pick_given(
        &mut self,
        explore: bool,
        ant_x: usize,
        ant_y: usize,
        ant: Ant,
        cells: &Vec<Vec<Cell>>,
    ) -> (dir: Direction)
        requires
            old(self).wf(),
            ant_x + 1 < isize::MAX,
            ant_y + 1 < isize::MAX,
        ensures
            chose(*old(self), *final(self), ant_x as int, ant_y as int, ant, cells@, dir, explore),
    {
        let d = self.dynasty_id;
        let food = ant.carries_food;
        let x = ant_x as isize;
        let y = ant_y as isize;
        let current_state = get_state_at(d, food, cells, x, y);
        let ghost before = self.state_values@;
        let ghost key = state_key(cells@, d, food, ant_x as int, ant_y as int) as u32;
        assert(key == current_state);
        // Corrects the current state towards the reward just received.
        let current_value = self.correct_towards(current_state, ant.reward.value());
        let ghost current = self.state_values@;
        assert(current == before.insert(key, corrected(before, key, reward_value(ant.reward)) as i64));
        if explore {
            return Direction::rand(&mut self.rng);
        }
        let (north, south, west, east) = self.look_around(food, cells, x, y);
        let ghost looked = self.state_values@;
        let (best, best_value) = best_direction(north, south, west, east);
        // Temporal difference update.
        proof {
            lemma_correction_bounds(current_value as int, best_value as int);
        }
        self.state_values.insert(current_state, correction(best_value - current_value));
        assert(greedy_pick(
            current,
            looked,
            self.state_values@,
            cells@,
            d,
            food,
            ant_x as int,
            ant_y as int,
            current_state,
            best,
        ));
        best
    }

    /// Picks a move for the ant of this dynasty at `(ant_x, ant_y)`: it
    /// explores with probability `exploration / EXPLORATION_ODDS`, and
    /// otherwise chooses greedily, as `pick_given` says.
    pub fn pick_action(
        &mut self,
        ant_x: usize,
        ant_y: usize,
        ant: Ant,
        cells: &Vec<Vec<Cell>>,
    ) -> (dir: Direction)
        requires
            old(self).wf(),
            ant_x + 1 < isize::MAX,
            ant_y + 1 < isize::MAX,
        ensures
            picked(*old(self), *final(self), ant_x as int, ant_y as int, ant, cells@, dir),
    {
        let explore = self.rng.roll_dice(self.exploration, EXPLORATION_ODDS);
        let ghost rolled = *self;
        let dir = self.pick_given(explore, ant_x, ant_y, ant, cells);
        proof {
            assert(rolled.state_values@ == old(self).state_values@);
            assert(chose(rolled, *self, ant_x as int, ant_y as int, ant, cells@, dir, explore));
        }
        dir
    }
}
} // verus!
