//! The camera: the pixel column of the floor that stands at the left edge
//! of the screen, where it should stand for a given player, and how it
//! gets there one pixel at a time.

use vstd::prelude::*;

verus! {

/// Width and height of a tile in pixels.
pub const TILE_PX: u16 = 8;

/// Number of tile columns that the screen shows.
pub const VIEW_COLUMNS: u16 = 30;

/// The screen column on which the player is kept where the floor allows.
pub const VIEW_CENTER: u16 = 15;

/// Number of tile columns that the backing surface holds.
pub const SURFACE_COLUMNS: usize = 32;

/// Number of tile rows that are drawn.
pub const SURFACE_ROWS: usize = 20;

/// The largest left edge, in pixels, that keeps the screen on a floor of
/// the given width; a floor narrower than the screen is not scrolled.
pub open spec fn max_left(floor_width: int) -> int {
    if floor_width > 30 {
        (floor_width - 30) * 8
    } else {
        0
    }
}

/// The left edge, in pixels, that centres the player's column, kept
/// between 0 and `max_left`.
pub open spec fn target_left(player_x: int, floor_width: int) -> int {
    let centred = player_x - 15;
    let capped = if centred < floor_width - 30 {
        centred
    } else {
        floor_width - 30
    };
    if capped < 0 {
        0
    } else {
        capped * 8
    }
}

/// One pixel from `current` towards `target`.
pub open spec fn toward(current: int, target: int) -> int {
    if current < target {
        current + 1
    } else if current > target {
        current - 1
    } else {
        current
    }
}

/// Where the left edge stands after `frames` steps towards `target`.
pub open spec fn after_steps(current: int, target: int, frames: nat) -> int
    decreases frames,
{
    if frames == 0 {
        current
    } else {
        toward(after_steps(current, target, (frames - 1) as nat), target)
    }
}

/// The number of pixels between two edges.
pub open spec fn distance(current: int, target: int) -> nat {
    if current < target {
        (target - current) as nat
    } else {
        (current - target) as nat
    }
}

/// After `frames` steps the edge has covered `frames` pixels of the way to
/// the target, or all of it.
pub proof fn lemma_after_steps(current: int, target: int, frames: nat)
    ensures
        after_steps(current, target, frames) == if frames >= distance(current, target) {
            target
        } else if current < target {
            current + frames
        } else {
            current - frames
        },
    decreases frames,
{
    if frames > 0 {
        lemma_after_steps(current, target, (frames - 1) as nat);
    }
}

/// The edge reaches its target after exactly as many steps as there are
/// pixels between them, not before, and on the way it never leaves the
/// range from 0 to the largest left edge of the floor.
pub proof fn lemma_camera_converges(current: int, target: int, floor_width: int)
    requires
        0 <= current <= max_left(floor_width),
        0 <= target <= max_left(floor_width),
    ensures
        after_steps(current, target, distance(current, target)) == target,
        forall|frames: nat|
            frames < distance(current, target) ==> #[trigger] after_steps(current, target, frames)
                != target,
        forall|frames: nat|
            0 <= #[trigger] after_steps(current, target, frames) <= max_left(floor_width),
{
    lemma_after_steps(current, target, distance(current, target));
    assert forall|frames: nat|
        frames < distance(current, target) implies #[trigger] after_steps(current, target, frames)
        != target by {
        lemma_after_steps(current, target, frames);
    }
    assert forall|frames: nat|
        0 <= #[trigger] after_steps(current, target, frames) <= max_left(floor_width) by {
        lemma_after_steps(current, target, frames);
    }
}

/// The target edge lies on a tile boundary between 0 and the largest left
/// edge, and never to the right of the player's own column.
pub proof fn lemma_target_in_range(player_x: int, floor_width: int)
    requires
        0 <= player_x,
    ensures
        0 <= target_left(player_x, floor_width) <= max_left(floor_width),
        target_left(player_x, floor_width) % 8 == 0,
        target_left(player_x, floor_width) <= player_x * 8,
{
}

/// The largest left edge, in pixels, on a floor of the given width.
pub fn max_left_px(floor_width: u8) -> (px: u16)
    ensures
        px == max_left(floor_width as int),
{
    if floor_width as u16 > VIEW_COLUMNS {
        (floor_width as u16 - VIEW_COLUMNS) * TILE_PX
    } else {
        0
    }
}

/// The left edge, in pixels, that the camera aims at for a player in
/// column `player_x` of a floor of the given width.
pub fn target_left_px(player_x: u16, floor_width: u8) -> (px: u16)
    ensures
        px == target_left(player_x as int, floor_width as int),
        px <= max_left(floor_width as int),
        px % 8 == 0,
{
    let centred: i32 = player_x as i32 - VIEW_CENTER as i32;
    let limit: i32 = floor_width as i32 - VIEW_COLUMNS as i32;
    let capped: i32 = if centred < limit {
        centred
    } else {
        limit
    };
    if capped < 0 {
        0
    } else {
        let tile_px: i32 = TILE_PX as i32;
        assert(capped <= 225 && tile_px == 8);
        (capped * tile_px) as u16
    }
}

/// The camera's left edge and the edge it is moving to, both in pixels.
#[derive(Clone, Copy, Debug, PartialEq, Eq, Structural)]
pub struct CameraState {
    pub left_offset_px: u16,
    pub target_offset_px: u16,
}

impl CameraState {
    /// Both edges keep the screen on a floor of the given width.
    pub open spec fn within(self, floor_width: int) -> bool {
        self.left_offset_px <= max_left(floor_width) && self.target_offset_px <= max_left(
            floor_width,
        )
    }

    /// The edge stands where it should.
    pub open spec fn settled(self) -> bool {
        self.left_offset_px == self.target_offset_px
    }

    /// A camera at rest on the edge that suits the player's column.
    pub fn new(player_x: u16, floor_width: u8) -> (camera: CameraState)
        ensures
            camera.target_offset_px == target_left(player_x as int, floor_width as int),
            camera.settled(),
            camera.within(floor_width as int),
    {
        let px = target_left_px(player_x, floor_width);
        CameraState { left_offset_px: px, target_offset_px: px }
    }

    /// Aims the camera at the edge that suits the player's column. The
    /// current edge stays where it is.
    pub fn retarget(&mut self, player_x: u16, floor_width: u8)
        ensures
            final(self).left_offset_px == old(self).left_offset_px,
            final(self).target_offset_px == target_left(player_x as int, floor_width as int),
            old(self).within(floor_width as int) ==> final(self).within(floor_width as int),
    {
        self.target_offset_px = target_left_px(player_x, floor_width);
    }

    /// Whether the edge stands where it should.
    pub fn is_settled(&self) -> (yes: bool)
        ensures
            yes == self.settled(),
    {
        self.left_offset_px == self.target_offset_px
    }

    /// Moves the edge one pixel towards its target, and says whether there
    /// was a pixel to go.
    pub fn step(&mut self) -> (moved: bool)
        ensures
            moved == !old(self).settled(),
            final(self).target_offset_px == old(self).target_offset_px,
            final(self).left_offset_px == toward(
                old(self).left_offset_px as int,
                old(self).target_offset_px as int,
            ),
            forall|floor_width: int|
                old(self).within(floor_width) ==> #[trigger] final(self).within(floor_width),
    {
        if self.left_offset_px < self.target_offset_px {
            self.left_offset_px = self.left_offset_px + 1;
            true
        } else if self.left_offset_px > self.target_offset_px {
            self.left_offset_px = self.left_offset_px - 1;
            true
        } else {
            false
        }
    }
}

/// One column of the backing surface to draw again, and the floor column
/// whose tiles go there.
#[derive(Clone, Copy, Debug, PartialEq, Eq, Structural)]
pub struct ColumnRecycle {
    pub surface_column: usize,
    pub floor_column: usize,
}

/// What a scroll redraws: a column before the camera starts to move, or a
/// column after it has arrived.
#[derive(Clone, Copy, Debug, PartialEq, Eq, Structural)]
pub struct ScrollPlan {
    pub before: Option<ColumnRecycle>,
    pub after: Option<ColumnRecycle>,
}

/// The redraw for a floor column: it goes to the surface column of the
/// same number, counted round the surface.
pub open spec fn recycle_of(floor_column: int) -> ColumnRecycle {
    ColumnRecycle {
        surface_column: (floor_column % 32) as usize,
        floor_column: floor_column as usize,
    }
}

/// The column of a floor nearest to `column`: the column itself where the
/// floor has it, and the floor's last column beyond that.
pub open spec fn column_on_floor(column: int, floor_width: int) -> int
    recommends
        floor_width > 0,
{
    if column < floor_width {
        column
    } else {
        floor_width - 1
    }
}

/// What a scroll from `left` to `target` redraws on a floor of the given
/// width. To the left, the column just left of the current one is drawn
/// before the camera moves; to the right, the column 31 to the right of it
/// is drawn after the camera has arrived. Either is a column of the floor:
/// beyond the floor's last column that one is drawn. At rest, and on a
/// floor without columns, nothing is drawn.
pub open spec fn plan_of(left: int, target: int, floor_width: int) -> ScrollPlan {
    let left_tile = left / 8;
    ScrollPlan {
        before: if target < left && left_tile > 0 && floor_width > 0 {
            Some(recycle_of(column_on_floor(left_tile - 1, floor_width)))
        } else {
            None
        },
        after: if target > left && floor_width > 0 {
            Some(recycle_of(column_on_floor(left_tile + 31, floor_width)))
        } else {
            None
        },
    }
}

/// A scroll across one tile boundary, between two edges that keep the
/// screen on the floor, redraws exactly one surface column, and what it
/// draws there is a column of the floor: to the left the column that the
/// new edge stands on, to the right the column 30 beyond the new edge, or
/// the floor's last column where the floor ends before that. It is drawn
/// in the surface column of its number counted round the surface.
pub proof fn lemma_one_column_per_crossing(left: int, target: int, floor_width: int)
    requires
        floor_width <= u8::MAX,
        0 <= left <= max_left(floor_width),
        0 <= target <= max_left(floor_width),
        left % 8 == 0,
        target % 8 == 0,
        distance(left, target) == 8,
    ensures
        ({
            let plan = plan_of(left, target, floor_width);
            &&& (plan.before is Some) != (plan.after is Some)
            &&& target < left ==> plan.before == Some(recycle_of(target / 8)) && target / 8
                < floor_width
            &&& target > left ==> plan.after == Some(
                recycle_of(column_on_floor(target / 8 + 30, floor_width)),
            ) && target / 8 + 30 <= floor_width
            &&& plan.before is Some ==> plan.before->Some_0.floor_column < floor_width
                && plan.before->Some_0.surface_column == plan.before->Some_0.floor_column % 32
            &&& plan.after is Some ==> plan.after->Some_0.floor_column < floor_width
                && plan.after->Some_0.surface_column == plan.after->Some_0.floor_column % 32
        }),
{
}

/// Decides what a scroll from `left_px` to `target_px` redraws on a floor
/// of the given width. Each redraw reads a column that the floor has.
pub fn plan_scroll(left_px: u16, target_px: u16, floor_width: u8) -> (plan: ScrollPlan)
    ensures
        plan == plan_of(left_px as int, target_px as int, floor_width as int),
        plan.before is Some ==> plan.before->Some_0.floor_column < floor_width
            && plan.before->Some_0.surface_column == plan.before->Some_0.floor_column
            % SURFACE_COLUMNS,
        plan.after is Some ==> plan.after->Some_0.floor_column < floor_width
            && plan.after->Some_0.surface_column == plan.after->Some_0.floor_column
            % SURFACE_COLUMNS,
{
    let left_tile: usize = (left_px / TILE_PX) as usize;
    let width: usize = floor_width as usize;
    let before = if target_px < left_px && left_tile > 0 && width > 0 {
        Some(recycle(left_tile - 1, width))
    } else {
        None
    };
    let after = if target_px > left_px && width > 0 {
        Some(recycle(left_tile + 31, width))
    } else {
        None
    };
    ScrollPlan { before, after }
}

/// The redraw of the column of the floor nearest to `column`.
fn recycle(column: usize, floor_width: usize) -> (r: ColumnRecycle)
    requires
        0 < floor_width <= u8::MAX,
    ensures
        r == recycle_of(column_on_floor(column as int, floor_width as int)),
        r.floor_column < floor_width,
        r.surface_column == r.floor_column % SURFACE_COLUMNS,
{
    let floor_column = if column < floor_width {
        column
    } else {
        floor_width - 1
    };
    ColumnRecycle { surface_column: floor_column % SURFACE_COLUMNS, floor_column }
}

} // verus!
