use dungeon_floor::floor::{parse_floor, Floor, FloorError};
use dungeon_floor::spawn::{
    first_floor_tile, reduce_draw, select_spawn, spawn_candidate, spawn_step, RandomSource,
    SpawnStep, SPAWN_RETRY_LIMIT,
};
use dungeon_floor::tile::TileType;

struct Replay {
    draws: Vec<i32>,
    next: usize,
    taken: usize,
}

impl Replay {
    fn new(draws: Vec<i32>) -> Replay {
        Replay { draws, next: 0, taken: 0 }
    }
}

impl RandomSource for Replay {
    fn get_random(&mut self) -> i32 {
        let value = self.draws[self.next];
        self.next = (self.next + 1) % self.draws.len();
        self.taken += 1;
        value
    }
}

fn sample_floor() -> Floor {
    parse_floor(&[2, 4, 2, 1, 1, 2, 7, 1, 2, 2]).unwrap()
}

fn walled_floor() -> Floor {
    parse_floor(&[2, 3, 2, 2, 2, 3, 7, 2]).unwrap()
}

#[test]
fn draws_are_reduced_by_magnitude() {
    assert_eq!(reduce_draw(0, 32), 0);
    assert_eq!(reduce_draw(33, 32), 1);
    assert_eq!(reduce_draw(-33, 32), 1);
    assert_eq!(reduce_draw(-1, 20), 1);
    assert_eq!(reduce_draw(i32::MAX, 20), 7);
    assert_eq!(reduce_draw(i32::MIN, 20), 8);
    assert_eq!(reduce_draw(i32::MIN, 255), 128);
    assert_eq!(reduce_draw(12345, 1), 0);
}

#[test]
fn candidate_is_the_drawn_floor_tile() {
    let floor = sample_floor();
    assert_eq!(spawn_candidate(&floor, 5, 0), Some((1, 0)));
    assert_eq!(spawn_candidate(&floor, -6, 2), Some((2, 0)));
    assert_eq!(spawn_candidate(&floor, 1, -3), Some((1, 1)));
}

#[test]
fn candidate_on_another_kind_is_refused() {
    let floor = sample_floor();
    assert_eq!(spawn_candidate(&floor, 0, 0), None);
    assert_eq!(spawn_candidate(&floor, 4, 1), None);
    assert_eq!(spawn_candidate(&floor, 2, 1), None);
    assert_eq!(spawn_candidate(&walled_floor(), 0, 1), None);
}

#[test]
fn candidate_on_a_floor_without_cells_is_refused() {
    assert_eq!(spawn_candidate(&parse_floor(&[0, 0]).unwrap(), 3, 4), None);
    assert_eq!(spawn_candidate(&parse_floor(&[0, 5]).unwrap(), 3, 4), None);
}

#[test]
fn spawn_takes_the_first_draw_on_a_floor_tile() {
    let floor = sample_floor();
    let mut rng = Replay::new(vec![0, 0, 3, 1, 6, 5, 1, 0]);
    assert_eq!(select_spawn(&floor, &mut rng), Ok((1, 0)));
    assert_eq!(rng.taken, 8);
}

#[test]
fn spawn_is_always_a_floor_tile() {
    let floor = sample_floor();
    for seed in 0..200 {
        let mut rng = Replay::new(vec![seed * 7919 - 500, seed * 104729 + 3, -seed, seed]);
        let (x, y) = select_spawn(&floor, &mut rng).unwrap();
        assert!(x < 4 && y < 2);
        assert_eq!(floor.tile_at(x as usize, y as usize), TileType::FLOOR);
    }
}

#[test]
fn spawn_searches_the_floor_when_every_draw_misses() {
    let floor = sample_floor();
    let mut rng = Replay::new(vec![0, 0]);
    assert_eq!(select_spawn(&floor, &mut rng), Ok((1, 0)));
    assert_eq!(rng.taken, 2 * SPAWN_RETRY_LIMIT as usize);
}

#[test]
fn spawn_fails_on_a_floor_without_floor_tiles() {
    let mut rng = Replay::new(vec![1, 2, 3, 4, 5]);
    assert_eq!(select_spawn(&walled_floor(), &mut rng), Err(FloorError::NoSpawnAvailable));
    assert_eq!(rng.taken, 2 * SPAWN_RETRY_LIMIT as usize);
}

#[test]
fn spawn_fails_on_a_floor_without_cells() {
    let mut rng = Replay::new(vec![9]);
    let floor = parse_floor(&[0, 0]).unwrap();
    assert_eq!(select_spawn(&floor, &mut rng), Err(FloorError::NoSpawnAvailable));
}

#[test]
fn first_floor_tile_goes_row_by_row() {
    assert_eq!(first_floor_tile(&sample_floor()), Some((1, 0)));
    assert_eq!(first_floor_tile(&walled_floor()), None);
    let late = parse_floor(&[2, 2, 2, 2, 2, 1]).unwrap();
    assert_eq!(first_floor_tile(&late), Some((1, 1)));
    let low = parse_floor(&[2, 2, 2, 2, 1, 1]).unwrap();
    assert_eq!(first_floor_tile(&low), Some((0, 1)));
}

#[test]
fn retry_limit() {
    assert_eq!(SPAWN_RETRY_LIMIT, 4096);
}

#[test]
fn pair_on_a_floor_tile_is_accepted() {
    let floor = sample_floor();
    assert_eq!(spawn_step(&floor, 0, 5, 0), SpawnStep::Accept((1, 0)));
    assert_eq!(spawn_step(&floor, 17, -6, 2), SpawnStep::Accept((2, 0)));
    assert_eq!(spawn_step(&floor, SPAWN_RETRY_LIMIT - 1, 1, -3), SpawnStep::Accept((1, 1)));
    assert_eq!(spawn_step(&floor, u32::MAX, 1, 1), SpawnStep::Accept((1, 1)));
}

#[test]
fn pair_on_another_kind_asks_for_the_next() {
    let floor = sample_floor();
    assert_eq!(spawn_step(&floor, 0, 0, 0), SpawnStep::Retry);
    assert_eq!(spawn_step(&floor, SPAWN_RETRY_LIMIT - 2, 4, 1), SpawnStep::Retry);
    assert_eq!(spawn_step(&walled_floor(), 100, 0, 1), SpawnStep::Retry);
}

#[test]
fn last_pair_on_another_kind_gives_up() {
    let floor = sample_floor();
    assert_eq!(spawn_step(&floor, SPAWN_RETRY_LIMIT - 1, 0, 0), SpawnStep::GiveUp);
    assert_eq!(spawn_step(&floor, SPAWN_RETRY_LIMIT, 0, 0), SpawnStep::GiveUp);
    assert_eq!(spawn_step(&floor, u32::MAX, 2, 1), SpawnStep::GiveUp);
    assert_eq!(spawn_step(&parse_floor(&[0, 0]).unwrap(), SPAWN_RETRY_LIMIT - 1, 0, 0), SpawnStep::GiveUp);
}

#[test]
fn spawn_takes_the_last_pair_if_it_hits() {
    let floor = sample_floor();
    let mut draws = vec![0i32; 2 * (SPAWN_RETRY_LIMIT as usize - 1)];
    draws.push(2);
    draws.push(0);
    let mut rng = Replay::new(draws);
    assert_eq!(select_spawn(&floor, &mut rng), Ok((2, 0)));
    assert_eq!(rng.taken, 2 * SPAWN_RETRY_LIMIT as usize);
}
