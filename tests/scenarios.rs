use ants::dice::Dice;
use ants::dynasty::{get_state_at, DynastyAgent};
use ants::environment::{
    Cell, Direction, Dynasty, Environment, Reward, ANT_SPAWN_COST, ANT_TTL, FOOD_DECAY_RATE,
    MAX_FOOD_ANT_CAN_CARRY, TRAIL_TTL,
};

fn grass(n: usize) -> Vec<Vec<Cell>> {
    vec![vec![Cell::Grass; n]; n]
}

fn ant(dynasty_id: u8, carries_food: usize, direction: Direction, ttl: u16) -> Cell {
    Cell::Ant {
        dynasty_id,
        carries_food,
        direction,
        ttl,
        reward: Reward::PenaltyForBreathing,
    }
}

fn world(cells: Vec<Vec<Cell>>, dynasties: Vec<Dynasty>, seed: u64) -> Environment {
    Environment {
        size: cells.len(),
        cells,
        dynasties,
        steps: 0,
        rng: Dice::seeded(seed),
    }
}

/// An agent that never explores and values the state centred on `(x, y)`
/// above anything it draws for a first-seen state.
fn greedy_towards(id: u8, food: usize, cells: &Vec<Vec<Cell>>, x: isize, y: isize) -> DynastyAgent {
    let mut agent = DynastyAgent::new(id, Dice::seeded(100 + id as u64));
    agent.exploration = 0;
    let key = get_state_at(id, food, cells, x, y);
    agent.state_values.insert(key, 900_000);
    agent
}

fn ant_cells(env: &Environment, d: u8) -> Vec<(usize, usize, Cell)> {
    let mut found = Vec::new();
    for (y, row) in env.cells.iter().enumerate() {
        for (x, cell) in row.iter().enumerate() {
            if let Cell::Ant { dynasty_id, .. } = cell {
                if *dynasty_id == d {
                    found.push((x, y, *cell));
                }
            }
        }
    }
    found
}

#[test]
fn pickup_without_relocation() {
    let mut cells = grass(10);
    cells[3][3] = ant(0, 0, Direction::North, 100);
    cells[4][3] = Cell::Food(50);
    let agent = greedy_towards(0, 0, &cells, 3, 4);
    let mut env = world(cells, vec![Dynasty { id: 0, food: 0, ants: 1 }], 1);
    let mut agents = vec![agent];
    env.step(&mut agents);
    // The food cell decays during the scan, before the ant eats from it.
    assert_eq!(
        env.cells[3][3],
        Cell::Ant {
            dynasty_id: 0,
            carries_food: 50 - FOOD_DECAY_RATE,
            direction: Direction::South,
            ttl: 99,
            reward: Reward::PickUpFood,
        }
    );
    assert_eq!(env.cells[4][3], Cell::Grass);
    assert_eq!(env.dynasties[0].ants, 1);
}

#[test]
fn partial_pickup_leaves_food() {
    let mut cells = grass(10);
    cells[3][3] = ant(0, 290, Direction::North, 100);
    cells[4][3] = Cell::Food(53);
    let agent = greedy_towards(0, 0, &cells, 3, 4);
    let mut env = world(cells, vec![Dynasty { id: 0, food: 0, ants: 1 }], 1);
    let mut agents = vec![agent];
    env.step(&mut agents);
    assert_eq!(
        env.cells[3][3],
        Cell::Ant {
            dynasty_id: 0,
            carries_food: MAX_FOOD_ANT_CAN_CARRY,
            direction: Direction::South,
            ttl: 99,
            reward: Reward::PickUpFood,
        }
    );
    assert_eq!(env.cells[4][3], Cell::Food(53 - FOOD_DECAY_RATE - 10));
}

#[test]
fn ant_death() {
    let mut cells = grass(10);
    cells[2][2] = ant(0, 10, Direction::North, 0);
    let mut env = world(cells, vec![Dynasty { id: 0, food: 0, ants: 1 }], 2);
    let mut agents = vec![DynastyAgent::new(0, Dice::seeded(3))];
    env.step(&mut agents);
    assert_eq!(env.cells[2][2], Cell::Food(10 + ANT_SPAWN_COST / 2));
    assert_eq!(env.dynasties[0].ants, 0);
    assert_eq!(env.steps, 1);
}

#[test]
fn head_on_block() {
    let mut cells = grass(10);
    cells[3][3] = ant(0, 7, Direction::East, 100);
    cells[3][4] = ant(1, 9, Direction::West, 100);
    let first = greedy_towards(0, 0, &cells, 4, 3);
    let second = greedy_towards(1, 0, &cells, 3, 3);
    let mut env = world(
        cells,
        vec![Dynasty { id: 0, food: 0, ants: 1 }, Dynasty { id: 1, food: 0, ants: 1 }],
        4,
    );
    let mut agents = vec![first, second];
    env.step(&mut agents);
    assert_eq!(env.cells[3][3], ant(0, 7, Direction::East, 99));
    assert_eq!(env.cells[3][4], ant(1, 9, Direction::West, 99));
    assert_eq!(env.dynasties[0].ants, 1);
    assert_eq!(env.dynasties[1].ants, 1);
}

#[test]
fn attacker_kills_and_loots() {
    let mut cells = grass(10);
    cells[3][3] = ant(0, 250, Direction::North, 100);
    cells[3][4] = ant(1, 80, Direction::North, 100);
    cells[3][5] = Cell::Wall;
    let first = greedy_towards(0, 0, &cells, 4, 3);
    // The defender turns east into the wall, so it does not face the attacker.
    let second = greedy_towards(1, 0, &cells, 5, 3);
    let mut env = world(
        cells,
        vec![Dynasty { id: 0, food: 0, ants: 1 }, Dynasty { id: 1, food: 0, ants: 1 }],
        5,
    );
    let mut agents = vec![first, second];
    env.step(&mut agents);
    assert_eq!(
        env.cells[3][4],
        Cell::Ant {
            dynasty_id: 0,
            carries_food: MAX_FOOD_ANT_CAN_CARRY,
            direction: Direction::East,
            ttl: 99,
            reward: Reward::KillEnemy,
        }
    );
    assert_eq!(env.cells[3][3], Cell::Trail { dynasty_id: 0, ttl: TRAIL_TTL });
    assert_eq!(env.dynasties[0].ants, 1);
    assert_eq!(env.dynasties[1].ants, 0);
}

#[test]
fn move_into_grass_leaves_trail() {
    let mut cells = grass(10);
    cells[5][5] = ant(0, 4, Direction::North, 100);
    let agent = greedy_towards(0, 0, &cells, 6, 5);
    let mut env = world(cells, vec![Dynasty { id: 0, food: 0, ants: 1 }], 6);
    let mut agents = vec![agent];
    env.step(&mut agents);
    assert_eq!(env.cells[5][6], ant(0, 4, Direction::East, 99));
    assert_eq!(env.cells[5][5], Cell::Trail { dynasty_id: 0, ttl: TRAIL_TTL });
}

#[test]
fn off_grid_move_stays() {
    let mut cells = grass(10);
    cells[0][0] = ant(0, 0, Direction::South, 100);
    let agent = greedy_towards(0, 0, &cells, 0, -1);
    let mut env = world(cells, vec![Dynasty { id: 0, food: 0, ants: 1 }], 7);
    let mut agents = vec![agent];
    env.step(&mut agents);
    assert_eq!(env.cells[0][0], ant(0, 0, Direction::North, 99));
}

#[test]
fn wall_blocks_move() {
    let mut cells = grass(10);
    cells[4][4] = ant(0, 0, Direction::South, 100);
    cells[4][3] = Cell::Wall;
    let agent = greedy_towards(0, 0, &cells, 3, 4);
    let mut env = world(cells, vec![Dynasty { id: 0, food: 0, ants: 1 }], 8);
    let mut agents = vec![agent];
    env.step(&mut agents);
    assert_eq!(env.cells[4][4], ant(0, 0, Direction::West, 99));
    assert_eq!(env.cells[4][3], Cell::Wall);
}

#[test]
fn deposit_food_at_own_nest() {
    let mut cells = grass(10);
    cells[5][5] = Cell::Nest(0);
    cells[6][4] = Cell::Wall;
    cells[6][5] = ant(0, 100, Direction::South, 100);
    cells[6][6] = Cell::Wall;
    let agent = greedy_towards(0, 0, &cells, 5, 5);
    let mut env = world(cells, vec![Dynasty { id: 0, food: 1000, ants: 1 }], 9);
    let mut agents = vec![agent];
    env.step(&mut agents);
    // The stock decays during the scan, then takes the whole load.
    assert_eq!(env.dynasties[0].food, 1000 - FOOD_DECAY_RATE + 100);
    assert_eq!(
        env.cells[6][5],
        Cell::Ant {
            dynasty_id: 0,
            carries_food: 0,
            direction: Direction::North,
            ttl: 99,
            reward: Reward::BringFoodToNest,
        }
    );
}

#[test]
fn deposit_is_capped_at_stock_limit() {
    let mut cells = grass(10);
    cells[5][5] = Cell::Nest(0);
    cells[6][4] = Cell::Wall;
    cells[6][5] = ant(0, 300, Direction::South, 100);
    cells[6][6] = Cell::Wall;
    let agent = greedy_towards(0, 300, &cells, 5, 5);
    let mut env = world(cells, vec![Dynasty { id: 0, food: 4900, ants: 1 }], 9);
    let mut agents = vec![agent];
    env.step(&mut agents);
    assert_eq!(env.dynasties[0].food, 5000);
}

#[test]
fn loot_enemy_nest() {
    let mut cells = grass(10);
    cells[5][5] = Cell::Nest(1);
    cells[6][4] = Cell::Wall;
    cells[6][5] = ant(0, 250, Direction::South, 100);
    cells[6][6] = Cell::Wall;
    let agent = greedy_towards(0, 0, &cells, 5, 5);
    let mut env = world(
        cells,
        vec![Dynasty { id: 0, food: 0, ants: 1 }, Dynasty { id: 1, food: 100, ants: 0 }],
        10,
    );
    let mut agents = vec![agent, DynastyAgent::new(1, Dice::seeded(11))];
    env.step(&mut agents);
    assert_eq!(env.dynasties[1].food, 100 - FOOD_DECAY_RATE - 50);
    assert_eq!(
        env.cells[6][5],
        Cell::Ant {
            dynasty_id: 0,
            carries_food: MAX_FOOD_ANT_CAN_CARRY,
            direction: Direction::North,
            ttl: 99,
            reward: Reward::LootEnemyNest,
        }
    );
}

#[test]
fn nest_spawn() {
    let mut cells = grass(12);
    cells[5][5] = Cell::Nest(0);
    let mut env = world(cells, vec![Dynasty { id: 0, food: 100, ants: 0 }], 12);
    let mut agents = vec![DynastyAgent::new(0, Dice::seeded(13))];
    env.step(&mut agents);
    assert_eq!(env.dynasties[0].food, 100 - ANT_SPAWN_COST - FOOD_DECAY_RATE);
    assert_eq!(env.dynasties[0].ants, 1);
    let spawned = ant_cells(&env, 0);
    assert_eq!(spawned.len(), 1);
    match spawned[0].2 {
        Cell::Ant { carries_food, ttl, .. } => {
            assert_eq!(carries_food, 0);
            // The new ant stands in a row the scan has not reached yet, so it
            // ages and moves within the same step.
            assert_eq!(ttl, ANT_TTL - 1);
        }
        _ => unreachable!(),
    }
}

#[test]
fn nest_spawn_needs_grass_below() {
    let mut cells = grass(12);
    cells[5][5] = Cell::Nest(0);
    cells[6][4] = Cell::Wall;
    cells[6][5] = Cell::Wall;
    cells[6][6] = Cell::Wall;
    let mut env = world(cells, vec![Dynasty { id: 0, food: 100, ants: 0 }], 14);
    let mut agents = vec![DynastyAgent::new(0, Dice::seeded(15))];
    env.step(&mut agents);
    assert_eq!(env.dynasties[0].food, 100 - FOOD_DECAY_RATE);
    assert_eq!(env.dynasties[0].ants, 0);
}

#[test]
fn colony_extinction() {
    let mut cells = grass(12);
    cells[2][2] = Cell::Nest(0);
    cells[7][7] = Cell::Nest(1);
    let mut env = world(
        cells,
        vec![Dynasty { id: 0, food: 2, ants: 0 }, Dynasty { id: 1, food: 1000, ants: 0 }],
        16,
    );
    let mut agents = vec![
        DynastyAgent::new(0, Dice::seeded(17)),
        DynastyAgent::new(1, Dice::seeded(18)),
    ];
    assert!(!env.is_finished());
    env.step(&mut agents);
    assert_eq!(env.dynasties[0].food, 0);
    assert!(env.dynasties[0].is_dead());
    assert!(!env.dynasties[1].is_dead());
    assert!(env.is_finished());
}

#[test]
fn food_and_trail_decay() {
    let mut cells = grass(10);
    cells[1][1] = Cell::Food(5);
    cells[1][2] = Cell::Food(6);
    cells[1][3] = Cell::Trail { dynasty_id: 0, ttl: 0 };
    cells[1][4] = Cell::Trail { dynasty_id: 0, ttl: 5 };
    let mut env = world(cells, vec![Dynasty { id: 0, food: 0, ants: 0 }], 19);
    let mut agents = vec![DynastyAgent::new(0, Dice::seeded(20))];
    env.step(&mut agents);
    assert_eq!(env.cells[1][1], Cell::Grass);
    assert_eq!(env.cells[1][2], Cell::Food(3));
    assert_eq!(env.cells[1][3], Cell::Grass);
    assert_eq!(env.cells[1][4], Cell::Trail { dynasty_id: 0, ttl: 4 });
}

#[test]
fn survivors_are_rewarded_in_place() {
    let mut cells = grass(10);
    cells[1][1] = ant(0, 0, Direction::South, 100);
    let env = world(cells.clone(), vec![Dynasty { id: 0, food: 0, ants: 1 }], 21);
    let mut agent = DynastyAgent::new(0, Dice::seeded(22));
    agent.exploration = 1000;
    let mut agents = vec![agent];
    env.reward_winner(&mut agents);
    let key = get_state_at(0, 0, &cells, 1, 1);
    assert_eq!(agents[0].state_values.get(&key), Some(&50_000));
    assert_eq!(agents[0].state_values.len(), 1);
}
