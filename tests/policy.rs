use ants::dice::Dice;
use ants::dynasty::{get_state_at, DynastyAgent, WALL_CODE};
use ants::environment::{Ant, Cell, Direction, Reward};

fn grass(n: usize) -> Vec<Vec<Cell>> {
    vec![vec![Cell::Grass; n]; n]
}

fn ant_at_rest(reward: Reward, carries_food: usize) -> Ant {
    Ant {
        dynasty_id: 0,
        carries_food,
        direction: Direction::North,
        ttl: 10,
        reward,
    }
}

#[test]
fn cell_codes_are_relative_to_the_observer() {
    assert_eq!(Cell::Wall.to_byte(0), 0);
    assert_eq!(Cell::Grass.to_byte(0), 1);
    assert_eq!(Cell::Food(9).to_byte(0), 2);
    assert_eq!(Cell::Nest(0).to_byte(0), 3);
    assert_eq!(Cell::Nest(1).to_byte(0), 4);
    assert_eq!(Cell::Trail { dynasty_id: 0, ttl: 3 }.to_byte(0), 5);
    assert_eq!(Cell::Trail { dynasty_id: 2, ttl: 3 }.to_byte(0), 6);
    let own = Cell::Ant {
        dynasty_id: 1,
        carries_food: 0,
        direction: Direction::East,
        ttl: 1,
        reward: Reward::KillEnemy,
    };
    assert_eq!(own.to_byte(1), 7);
    assert_eq!(own.to_byte(0), 8);
}

#[test]
fn off_grid_neighbours_are_walls() {
    let cells = grass(3);
    // Around the north-west corner the top row and the left column are off
    // the grid.
    assert_eq!(get_state_at(0, 0, &cells, 0, 0), 11_011);
    assert_eq!(get_state_at(0, 300, &cells, 0, 0), 1_000_011_011);
    // Entirely off the grid: nine walls.
    assert_eq!(get_state_at(0, 0, &cells, -5, 7), WALL_CODE as u32);
    assert_eq!(get_state_at(0, 0, &cells, 1, 1), 111_111_111);
}

#[test]
fn state_key_reads_rows_from_north_west() {
    let mut cells = grass(3);
    cells[0][0] = Cell::Nest(0);
    cells[0][2] = Cell::Food(4);
    cells[1][1] = Cell::Trail { dynasty_id: 1, ttl: 2 };
    cells[2][1] = Cell::Wall;
    assert_eq!(get_state_at(0, 12, &cells, 1, 1), 312_161_101);
}

#[test]
fn first_seen_state_takes_the_reward() {
    let cells = grass(5);
    let mut agent = DynastyAgent::new(0, Dice::seeded(1));
    agent.exploration = 1000;
    agent.pick_action(2, 2, ant_at_rest(Reward::KillEnemy, 0), &cells);
    let key = get_state_at(0, 0, &cells, 2, 2);
    assert_eq!(agent.state_values.get(&key), Some(&10_000));
    assert_eq!(agent.state_values.len(), 1);
}

#[test]
fn correction_rounds_down() {
    let cells = grass(5);
    let key = get_state_at(0, 0, &cells, 2, 2);
    let mut agent = DynastyAgent::new(0, Dice::seeded(2));
    agent.exploration = 1000;
    agent.state_values.insert(key, 3);
    agent.pick_action(2, 2, ant_at_rest(Reward::PenaltyForBreathing, 0), &cells);
    // 3 + floor((-1000 - 3) / 5) = 3 - 201
    assert_eq!(agent.state_values.get(&key), Some(&-198));

    agent.state_values.insert(key, 1000);
    agent.pick_action(2, 2, ant_at_rest(Reward::BringFoodToNest, 0), &cells);
    // 1000 + floor((20000 - 1000) / 5)
    assert_eq!(agent.state_values.get(&key), Some(&4800));
}

#[test]
fn greedy_pick_follows_the_best_neighbour() {
    let mut cells = grass(5);
    cells[2][2] = Cell::Ant {
        dynasty_id: 0,
        carries_food: 0,
        direction: Direction::North,
        ttl: 10,
        reward: Reward::PenaltyForBreathing,
    };
    let current = get_state_at(0, 0, &cells, 2, 2);
    let north = get_state_at(0, 0, &cells, 2, 1);
    let south = get_state_at(0, 0, &cells, 2, 3);
    let west = get_state_at(0, 0, &cells, 1, 2);
    let east = get_state_at(0, 0, &cells, 3, 2);
    let mut agent = DynastyAgent::new(0, Dice::seeded(3));
    agent.exploration = 0;
    agent.state_values.insert(west, 4_000);
    agent.state_values.insert(east, 4_000);
    agent.state_values.insert(north, -5);
    agent.state_values.insert(south, 12);
    let dir = agent.pick_action(2, 2, ant_at_rest(Reward::PenaltyForBreathing, 0), &cells);
    // Ties go to the first of north, south, west, east.
    assert_eq!(dir, Direction::West);
    // The current state was first seen (-1000), then pulled a fifth of the
    // way from there towards the best value: floor((4000 + 1000) / 5).
    assert_eq!(agent.state_values.get(&current), Some(&1_000));
    assert_eq!(agent.state_values.len(), 5);
}

#[test]
fn greedy_pick_draws_unseen_neighbours() {
    let mut cells = grass(5);
    cells[2][2] = Cell::Ant {
        dynasty_id: 0,
        carries_food: 0,
        direction: Direction::North,
        ttl: 10,
        reward: Reward::PenaltyForBreathing,
    };
    let current = get_state_at(0, 0, &cells, 2, 2);
    let keys = [
        get_state_at(0, 0, &cells, 2, 1),
        get_state_at(0, 0, &cells, 2, 3),
        get_state_at(0, 0, &cells, 1, 2),
        get_state_at(0, 0, &cells, 3, 2),
    ];
    let mut agent = DynastyAgent::new(0, Dice::seeded(4));
    agent.exploration = 0;
    let dir = agent.pick_action(2, 2, ant_at_rest(Reward::PenaltyForBreathing, 0), &cells);
    let values: Vec<i64> = keys.iter().map(|k| *agent.state_values.get(k).unwrap()).collect();
    for v in &values {
        assert!(*v >= 0 && *v < 5000);
    }
    let best = *values.iter().max().unwrap();
    let first = values.iter().position(|v| *v == best).unwrap();
    let order = [Direction::North, Direction::South, Direction::West, Direction::East];
    assert_eq!(dir, order[first]);
    assert_eq!(agent.state_values.get(&current), Some(&((best + 1000) / 5)));
}

#[test]
fn reward_values() {
    assert_eq!(Reward::PickUpFood.value(), 5_000);
    assert_eq!(Reward::BringFoodToNest.value(), 20_000);
    assert_eq!(Reward::KillEnemy.value(), 10_000);
    assert_eq!(Reward::PenaltyForBreathing.value(), -1_000);
    assert_eq!(Reward::LootEnemyNest.value(), 10_000);
    assert_eq!(Reward::Survivor.value(), 50_000);
}

#[test]
fn dice_extremes() {
    let mut dice = Dice::seeded(5);
    for _ in 0..200 {
        assert!(!dice.roll_dice(0, 10));
        assert!(dice.roll_dice(10, 10));
        assert!(dice.below(7) < 7);
    }
}

#[test]
fn same_seed_same_draws() {
    let mut a = Dice::seeded(42);
    let mut b = Dice::seeded(42);
    for _ in 0..100 {
        assert_eq!(a.below(1_000_000), b.below(1_000_000));
    }
}

#[test]
fn drawn_numbers_name_directions() {
    assert_eq!(Direction::from_draw(0), Direction::North);
    assert_eq!(Direction::from_draw(1), Direction::East);
    assert_eq!(Direction::from_draw(2), Direction::West);
    assert_eq!(Direction::from_draw(3), Direction::South);
}

#[test]
fn draws_hit_below_the_chance() {
    assert!(ants::dice::hits(0, 1));
    assert!(ants::dice::hits(99, 100));
    assert!(!ants::dice::hits(100, 100));
    assert!(!ants::dice::hits(0, 0));
}

#[test]
fn exploring_pick_only_corrects_the_current_state() {
    let cells = grass(5);
    let key = get_state_at(0, 0, &cells, 2, 2);
    let mut agent = DynastyAgent::new(0, Dice::seeded(6));
    agent.state_values.insert(key, 500);
    agent.pick_given(true, 2, 2, ant_at_rest(Reward::LootEnemyNest, 0), &cells);
    // 500 + floor((10000 - 500) / 5)
    assert_eq!(agent.state_values.get(&key), Some(&2_400));
    assert_eq!(agent.state_values.len(), 1);
}

#[test]
fn greedy_pick_when_the_roll_says_so() {
    let mut cells = grass(5);
    cells[2][2] = Cell::Ant {
        dynasty_id: 0,
        carries_food: 0,
        direction: Direction::North,
        ttl: 10,
        reward: Reward::PenaltyForBreathing,
    };
    let current = get_state_at(0, 0, &cells, 2, 2);
    let mut agent = DynastyAgent::new(0, Dice::seeded(7));
    // The agent would explore now and then, but this roll says it does not.
    agent.state_values.insert(get_state_at(0, 0, &cells, 2, 1), 100);
    agent.state_values.insert(get_state_at(0, 0, &cells, 2, 3), 2_000);
    agent.state_values.insert(get_state_at(0, 0, &cells, 1, 2), 2_000);
    agent.state_values.insert(get_state_at(0, 0, &cells, 3, 2), -7);
    let dir = agent.pick_given(false, 2, 2, ant_at_rest(Reward::PickUpFood, 0), &cells);
    assert_eq!(dir, Direction::South);
    // First seen: 5000; then floor((2000 - 5000) / 5) = -600.
    assert_eq!(agent.state_values.get(&current), Some(&-600));
    assert_eq!(agent.state_values.len(), 5);
}
