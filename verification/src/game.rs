//! The play state: one floor and the player's cell on it, and the moves
//! that the grid admits.

use vstd::prelude::*;
use crate::floor::{Floor, FloorGrid};
use crate::tile::{TileType, walkable};

verus! {

/// A unit step on the grid. Rows grow downwards.
#[derive(Clone, Copy, Debug, PartialEq, Eq, Structural)]
pub enum Direction {
    Up,
    Down,
    Left,
    Right,
}

/// The change of column that a step makes.
pub open spec fn step_x(direction: Direction) -> int {
    match direction {
        Direction::Left => -1,
        Direction::Right => 1,
        _ => 0,
    }
}

/// The change of row that a step makes.
pub open spec fn step_y(direction: Direction) -> int {
    match direction {
        Direction::Up => -1,
        Direction::Down => 1,
        _ => 0,
    }
}

/// The cell one step away from `pos`; it may lie outside every grid.
pub open spec fn destination(pos: (u16, u16), direction: Direction) -> (int, int) {
    (pos.0 + step_x(direction), pos.1 + step_y(direction))
}

/// Whether `(x, y)` is a cell of the grid that a player may stand on.
pub open spec fn can_enter(grid: FloorGrid, x: int, y: int) -> bool {
    grid.contains(x, y) && walkable(grid.tile(x, y))
}

/// Where a player at `pos` stands after trying to step: on the destination
/// if it can be entered, and on `pos` otherwise.
pub open spec fn position_after(grid: FloorGrid, pos: (u16, u16), direction: Direction) -> (
    u16,
    u16,
) {
    let (x, y) = destination(pos, direction);
    if can_enter(grid, x, y) {
        (x as u16, y as u16)
    } else {
        pos
    }
}

/// Where a player stands after trying each step of `path` in turn.
pub open spec fn position_after_all(grid: FloorGrid, pos: (u16, u16), path: Seq<Direction>) -> (
    u16,
    u16,
)
    decreases path.len(),
{
    if path.len() == 0 {
        pos
    } else {
        position_after(grid, position_after_all(grid, pos, path.drop_last()), path.last())
    }
}

/// A tried step leaves the player in place, or moves the player by exactly
/// one cell along the step's axis onto a floor tile or a closed door.
pub proof fn lemma_step_is_unit_or_none(grid: FloorGrid, pos: (u16, u16), direction: Direction)
    requires
        grid.wf(),
    ensures
        ({
            let after = position_after(grid, pos, direction);
            ||| after == pos
            ||| {
                &&& after.0 - pos.0 == step_x(direction)
                &&& after.1 - pos.1 == step_y(direction)
                &&& (step_x(direction) == 0) != (step_y(direction) == 0)
                &&& grid.contains(after.0 as int, after.1 as int)
                &&& (grid.tile(after.0 as int, after.1 as int) == TileType::FLOOR || grid.tile(
                    after.0 as int,
                    after.1 as int,
                ) == TileType::DOOR_CLOSED)
            }
        }),
{
}

/// A player who starts on the grid is on the grid after any sequence of
/// tried steps, and on a tile that can be walked on if the start was one.
pub proof fn lemma_path_stays_on_grid(grid: FloorGrid, pos: (u16, u16), path: Seq<Direction>)
    requires
        grid.wf(),
        grid.contains(pos.0 as int, pos.1 as int),
    ensures
        ({
            let after = position_after_all(grid, pos, path);
            &&& grid.contains(after.0 as int, after.1 as int)
            &&& can_enter(grid, pos.0 as int, pos.1 as int) ==> can_enter(
                grid,
                after.0 as int,
                after.1 as int,
            )
        }),
    decreases path.len(),
{
    if path.len() > 0 {
        lemma_path_stays_on_grid(grid, pos, path.drop_last());
        let before = position_after_all(grid, pos, path.drop_last());
        lemma_step_is_unit_or_none(grid, before, path.last());
    }
}

/// The step that a set of pressed direction keys asks for: the first
/// pressed one in the order up, down, right, left.
pub open spec fn chosen_direction(up: bool, down: bool, right: bool, left: bool) -> Option<
    Direction,
> {
    if up {
        Some(Direction::Up)
    } else if down {
        Some(Direction::Down)
    } else if right {
        Some(Direction::Right)
    } else if left {
        Some(Direction::Left)
    } else {
        None
    }
}

/// Picks the one step of a frame from the direction keys that were
/// pressed in it.
pub fn pressed_direction(up: bool, down: bool, right: bool, left: bool) -> (direction: Option<
    Direction,
>)
    ensures
        direction == chosen_direction(up, down, right, left),
{
    if up {
        Some(Direction::Up)
    } else if down {
        Some(Direction::Down)
    } else if right {
        Some(Direction::Right)
    } else if left {
        Some(Direction::Left)
    } else {
        None
    }
}

/// The player: a cell of the grid, as column and row.
#[derive(Clone, Copy, Debug)]
pub struct PlayerState {
    pos: (u16, u16),
}

impl PlayerState {
    /// The player's cell.
    pub closed spec fn position(&self) -> (u16, u16) {
        self.pos
    }

    /// The player's cell.
    pub fn pos(&self) -> (pos: (u16, u16))
        ensures
            pos == self.position(),
    {
        self.pos
    }
}

/// One floor and the player on it.
#[derive(Debug)]
pub struct GameState {
    floor: Floor,
    player: PlayerState,
}

impl GameState {
    #[verifier::type_invariant]
    spec fn player_on_grid(self) -> bool {
        self.floor@.contains(self.player.pos.0 as int, self.player.pos.1 as int)
    }

    /// The floor's content.
    pub closed spec fn grid(&self) -> FloorGrid {
        self.floor@
    }

    /// The player's cell.
    pub closed spec fn position(&self) -> (u16, u16) {
        self.player.pos
    }

    /// Puts a player on a floor. There is no state for a cell outside it.
    pub fn new(floor: Floor, pos: (u16, u16)) -> (state: Option<GameState>)
        ensures
            state is Some <==> floor@.contains(pos.0 as int, pos.1 as int),
            state is Some ==> state->Some_0.grid() == floor@ && state->Some_0.position() == pos,
    {
        if pos.0 < floor.width() as u16 && pos.1 < floor.height() as u16 {
            Some(GameState { floor, player: PlayerState { pos } })
        } else {
            None
        }
    }

    /// The floor.
    pub fn floor(&self) -> (floor: &Floor)
        ensures
            floor@ == self.grid(),
    {
        &self.floor
    }

    /// The player.
    pub fn player(&self) -> (player: &PlayerState)
        ensures
            player.position() == self.position(),
    {
        &self.player
    }

    /// The player's cell, which always lies on the floor.
    pub fn pos(&self) -> (pos: (u16, u16))
        ensures
            pos == self.position(),
            self.grid().contains(pos.0 as int, pos.1 as int),
            self.grid().wf(),
    {
        proof {
            use_type_invariant(self);
        }
        let _ = self.floor.width();
        self.player.pos
    }

    /// The tile at column `x` of row `y`.
    pub fn get_tile(&self, x: usize, y: usize) -> (kind: TileType)
        requires
            self.grid().contains(x as int, y as int),
        ensures
            kind == self.grid().tile(x as int, y as int),
    {
        self.floor.tile_at(x, y)
    }

    /// Tries to move the player one step. The step is taken if the
    /// destination is a cell of the floor that holds a floor tile or a
    /// closed door; otherwise nothing changes.
    pub fn try_move(&mut self, direction: Direction) -> (moved: bool)
        ensures
            final(self).grid() == old(self).grid(),
            final(self).position() == position_after(
                old(self).grid(),
                old(self).position(),
                direction,
            ),
            moved == can_enter(
                old(self).grid(),
                destination(old(self).position(), direction).0,
                destination(old(self).position(), direction).1,
            ),
            moved ==> walkable(
                final(self).grid().tile(
                    final(self).position().0 as int,
                    final(self).position().1 as int,
                ),
            ),
            !moved ==> final(self).position() == old(self).position(),
            final(self).grid().contains(
                final(self).position().0 as int,
                final(self).position().1 as int,
            ),
            final(self).grid().wf(),
    {
        proof {
            use_type_invariant(&*self);
        }
        let (x, y) = self.player.pos;
        let width: u16 = self.floor.width() as u16;
        let height: u16 = self.floor.height() as u16;
        let target: Option<(u16, u16)> = match direction {
            Direction::Up => if y > 0 {
                Some((x, (y - 1) as u16))
            } else {
                None
            },
            Direction::Down => if y + 1 < height {
                Some((x, (y + 1) as u16))
            } else {
                None
            },
            Direction::Left => if x > 0 {
                Some(((x - 1) as u16, y))
            } else {
                None
            },
            Direction::Right => if x + 1 < width {
                Some(((x + 1) as u16, y))
            } else {
                None
            },
        };
        match target {
            Some((nx, ny)) => {
                if self.floor.tile_at(nx as usize, ny as usize).is_walkable() {
                    self.player.pos = (nx, ny);
                    true
                } else {
                    false
                }
            },
            None => false,
        }
    }
}

} // verus!
