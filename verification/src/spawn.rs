//! Choosing the cell where a player starts: a floor tile picked by drawing
//! random cells, with a bound on the number of draws.

use vstd::prelude::*;
use crate::floor::{Floor, FloorGrid, FloorError};
use crate::tile::TileType;

verus! {

/// How many random cells are tried before the floor is searched in order.
pub const SPAWN_RETRY_LIMIT: u32 = 4096;

/// A producer of integers. Nothing is assumed of what it returns.
pub trait RandomSource {
    /// The next integer of the stream.
    fn get_random(&mut self) -> i32;
}

/// The magnitude of a draw, brought into `0 .. range`.
pub open spec fn reduce(draw: i32, range: int) -> int
    recommends
        range > 0,
{
    (if draw < 0 {
        -(draw as int)
    } else {
        draw as int
    }) % range
}

/// The cell that two draws select on a grid with at least one cell.
pub open spec fn drawn_cell(grid: FloorGrid, draw_x: i32, draw_y: i32) -> (int, int)
    recommends
        grid.width > 0,
        grid.height > 0,
{
    (reduce(draw_x, grid.width as int), reduce(draw_y, grid.height as int))
}

/// The start cell that two draws give: the cell they select, if the grid
/// has cells and that one holds a floor tile.
pub open spec fn candidate(grid: FloorGrid, draw_x: i32, draw_y: i32) -> Option<(u16, u16)> {
    if grid.width == 0 || grid.height == 0 {
        None
    } else {
        let (x, y) = drawn_cell(grid, draw_x, draw_y);
        if grid.tile(x, y) == TileType::FLOOR {
            Some((x as u16, y as u16))
        } else {
            None
        }
    }
}

/// What one pair of draws decides.
#[derive(Clone, Copy, Debug, PartialEq, Eq)]
pub enum SpawnStep {
    /// The pair selects a floor tile: the player starts there.
    Accept((u16, u16)),
    /// The pair selects something else, and another pair may be drawn.
    Retry,
    /// The pair selects something else, and it was the last to be drawn.
    GiveUp,
}

/// What a pair of draws decides after `tries` pairs that selected no
/// floor tile: a pair that selects one is accepted, whatever its number;
/// otherwise another pair is drawn unless this was pair number
/// `SPAWN_RETRY_LIMIT`.
pub open spec fn decision(grid: FloorGrid, tries: u32, draw_x: i32, draw_y: i32) -> SpawnStep {
    match candidate(grid, draw_x, draw_y) {
        Some(cell) => SpawnStep::Accept(cell),
        None => if tries + 1 < SPAWN_RETRY_LIMIT {
            SpawnStep::Retry
        } else {
            SpawnStep::GiveUp
        },
    }
}

/// Whether no cell before `(x, y)`, row by row, holds a floor tile.
pub open spec fn no_floor_tile_before(grid: FloorGrid, x: int, y: int) -> bool {
    forall|cx: int, cy: int|
        grid.contains(cx, cy) && (cy < y || (cy == y && cx < x)) ==> #[trigger] grid.tile(cx, cy)
            != TileType::FLOOR
}

/// Brings the magnitude of a draw into `0 .. range`.
pub fn reduce_draw(draw: i32, range: u8) -> (r: u16)
    requires
        range > 0,
    ensures
        r == reduce(draw, range as int),
        r < range,
{
    let magnitude: i64 = if draw < 0 {
        -(draw as i64)
    } else {
        draw as i64
    };
    (magnitude % (range as i64)) as u16
}

/// The start cell that two draws give on this floor, if they give one.
pub fn spawn_candidate(floor: &Floor, draw_x: i32, draw_y: i32) -> (cell: Option<(u16, u16)>)
    ensures
        floor@.wf(),
        cell == candidate(floor@, draw_x, draw_y),
        cell is Some ==> floor@.contains(cell->Some_0.0 as int, cell->Some_0.1 as int)
            && floor@.tile(cell->Some_0.0 as int, cell->Some_0.1 as int) == TileType::FLOOR,
        cell is Some ==> cell->Some_0.0 == reduce(draw_x, floor@.width as int) && cell->Some_0.1
            == reduce(draw_y, floor@.height as int),
{
    let width = floor.width();
    let height = floor.height();
    if width == 0 || height == 0 {
        return None;
    }
    let x = reduce_draw(draw_x, width);
    let y = reduce_draw(draw_y, height);
    if floor.tile_at(x as usize, y as usize) == TileType::FLOOR {
        Some((x, y))
    } else {
        None
    }
}

/// The first floor tile of the floor, row by row and left to right.
pub fn first_floor_tile(floor: &Floor) -> (cell: Option<(u16, u16)>)
    ensures
        cell is Some <==> floor@.has_floor_tile(),
        cell is Some ==> {
            let (x, y) = cell->Some_0;
            &&& floor@.contains(x as int, y as int)
            &&& floor@.tile(x as int, y as int) == TileType::FLOOR
            &&& no_floor_tile_before(floor@, x as int, y as int)
        },
{
    let width = floor.width();
    let height = floor.height();
    let mut y: u8 = 0;
    while y < height
        invariant
            width == floor@.width,
            height == floor@.height,
            0 <= y <= height,
            no_floor_tile_before(floor@, 0, y as int),
        decreases height - y,
    {
        let mut x: u8 = 0;
        while x < width
            invariant
                width == floor@.width,
                height == floor@.height,
                0 <= y < height,
                0 <= x <= width,
                no_floor_tile_before(floor@, x as int, y as int),
            decreases width - x,
        {
            if floor.tile_at(x as usize, y as usize) == TileType::FLOOR {
                return Some((x as u16, y as u16));
            }
            x += 1;
        }
        y += 1;
    }
    None
}

/// Decides what to do with a pair of draws after `tries` pairs that
/// selected no floor tile.
pub fn spawn_step(floor: &Floor, tries: u32, draw_x: i32, draw_y: i32) -> (step: SpawnStep)
    ensures
        floor@.wf(),
        step == decision(floor@, tries, draw_x, draw_y),
        step is Accept ==> floor@.contains(step->Accept_0.0 as int, step->Accept_0.1 as int)
            && floor@.tile(step->Accept_0.0 as int, step->Accept_0.1 as int) == TileType::FLOOR,
        step is Retry ==> tries + 1 < SPAWN_RETRY_LIMIT,
{
    match spawn_candidate(floor, draw_x, draw_y) {
        Some(cell) => SpawnStep::Accept(cell),
        None => if tries < SPAWN_RETRY_LIMIT - 1 {
            SpawnStep::Retry
        } else {
            SpawnStep::GiveUp
        },
    }
}

/// Chooses the cell where a player starts. Pairs of integers are drawn,
/// and `spawn_step` decides on each: the first pair that selects a floor
/// tile decides, and no more than `SPAWN_RETRY_LIMIT` pairs are drawn. If
/// none of them selects a floor tile, the floor is searched row by row, so
/// a floor that has a floor tile always yields one, and the failure means
/// that it has none.
pub fn select_spawn<R: RandomSource>(floor: &Floor, rng: &mut R) -> (result: Result<
    (u16, u16),
    FloorError,
>)
    ensures
        result is Ok <==> floor@.has_floor_tile(),
        result is Ok ==> floor@.contains(result->Ok_0.0 as int, result->Ok_0.1 as int)
            && floor@.tile(result->Ok_0.0 as int, result->Ok_0.1 as int) == TileType::FLOOR,
        result is Err ==> result->Err_0 == FloorError::NoSpawnAvailable,
{
    let mut tries: u32 = 0;
    loop
        invariant
            tries < SPAWN_RETRY_LIMIT,
        decreases SPAWN_RETRY_LIMIT - tries,
    {
        let draw_x = rng.get_random();
        let draw_y = rng.get_random();
        match spawn_step(floor, tries, draw_x, draw_y) {
            SpawnStep::Accept(cell) => {
                return Ok(cell);
            },
            SpawnStep::Retry => {
                tries += 1;
            },
            SpawnStep::GiveUp => {
                break ;
            },
        }
    }
    match first_floor_tile(floor) {
        Some(cell) => Ok(cell),
        None => Err(FloorError::NoSpawnAvailable),
    }
}

} // verus!
