//! One play session on a floor, frame by frame: a pressed direction moves
//! the player, the camera follows one pixel per presented frame, and the
//! backing surface is redrawn one column per tile boundary crossed.
//!
//! The session decides; its caller polls the keys, copies redrawn columns
//! to the screen, presents each frame and waits for the display.

use vstd::prelude::*;
use crate::camera::{CameraState, ColumnRecycle, SURFACE_COLUMNS, after_steps, column_on_floor,
    distance, lemma_after_steps, lemma_target_in_range, max_left, plan_of, plan_scroll, recycle_of,
    target_left, toward};
use crate::floor::FloorGrid;
use crate::game::{Direction, GameState, position_after};
use crate::surface::{TileSetting, TileSurface, column_of, lemma_first_view_by_column_number,
    load_initial_floor_view, loaded_surface, blank_surface, overwrite_column, surface_shaped};
use crate::tile::TILE_KINDS;

verus! {

/// Display refreshes to wait after each frame of a scroll.
pub const STEP_WAITS: u8 = 2;

/// Display refreshes to wait after the frame that ends a turn.
pub const FRAME_WAITS: u8 = 4;

/// What to present: the scroll offset of the tile layer, the player's
/// place on the screen in pixels, and how long to wait afterwards.
#[derive(Clone, Copy, Debug, PartialEq, Eq, Structural)]
pub struct Frame {
    pub scroll_x: u16,
    pub sprite_x: u16,
    pub sprite_y: u16,
    pub vblank_waits: u8,
}

/// The mathematical content of a session.
pub struct SessionModel {
    pub grid: FloorGrid,
    pub pos: (u16, u16),
    pub camera: CameraState,
    pub cells: Seq<Seq<Option<TileSetting>>>,
    pub palette_ids: Seq<u8>,
    pub pending: Option<ColumnRecycle>,
}

impl SessionModel {
    /// Whether the surface shows a floor column where it belongs: in the
    /// surface column of its number counted round the surface.
    pub open spec fn shows_column(self, floor_column: int) -> bool {
        self.cells[floor_column % 32] == column_of(self.palette_ids, self.grid, floor_column)
    }

    /// The first of the 31 floor columns that the surface is sure to show:
    /// the column that the camera's target stands on, and while a redraw
    /// is still to be made the column left of it.
    pub open spec fn held_from(self) -> int {
        if self.pending is Some {
            self.camera.target_offset_px as int / 8 - 1
        } else {
            self.camera.target_offset_px as int / 8
        }
    }

    /// Whether the surface shows each of the 31 floor columns from
    /// `held_from` on that the floor has.
    pub open spec fn shows_held(self) -> bool {
        forall|floor_column: int|
            self.held_from() <= floor_column <= self.held_from() + 30 && 0 <= floor_column
                < self.grid.width ==> #[trigger] self.shows_column(floor_column)
    }

    /// The player stands on the floor; the camera aims at the edge that
    /// suits the player, is at most one tile away from it and shows the
    /// player's column; a redraw still to be made is the one that a scroll
    /// to the right ends with; and the surface shows the floor columns
    /// that the screen can show on the way.
    pub open spec fn wf(self) -> bool {
        &&& self.grid.wf()
        &&& self.grid.contains(self.pos.0 as int, self.pos.1 as int)
        &&& self.palette_ids.len() >= TILE_KINDS
        &&& surface_shaped(self.cells)
        &&& self.camera.within(self.grid.width as int)
        &&& self.camera.target_offset_px == target_left(self.pos.0 as int, self.grid.width as int)
        &&& self.camera.left_offset_px <= self.pos.0 * 8
        &&& match self.pending {
            Some(recycle) => {
                &&& self.camera.target_offset_px - 8 <= self.camera.left_offset_px
                    <= self.camera.target_offset_px
                &&& recycle == recycle_of(
                    column_on_floor(
                        self.camera.target_offset_px as int / 8 + 30,
                        self.grid.width as int,
                    ),
                )
                &&& recycle.surface_column < SURFACE_COLUMNS
                &&& recycle.floor_column < self.grid.width
            },
            None => self.camera.target_offset_px <= self.camera.left_offset_px
                <= self.camera.target_offset_px + 8,
        }
        &&& self.shows_held()
    }

    /// The camera is at rest and nothing is left to redraw: the next
    /// frame may take a key press.
    pub open spec fn idle(self) -> bool {
        self.camera.settled() && self.pending is None
    }

    /// The surface after a redraw, if there is one to make.
    pub open spec fn redrawn(self, recycle: Option<ColumnRecycle>) -> Seq<Seq<Option<TileSetting>>> {
        match recycle {
            Some(r) => self.cells.update(
                r.surface_column as int,
                column_of(self.palette_ids, self.grid, r.floor_column as int),
            ),
            None => self.cells,
        }
    }

    /// The session at the start of a floor: camera at rest on the edge
    /// that suits the player, first view drawn on a blank surface.
    pub open spec fn opening(grid: FloorGrid, pos: (u16, u16), palette_ids: Seq<u8>) -> SessionModel {
        let left = target_left(pos.0 as int, grid.width as int);
        SessionModel {
            grid,
            pos,
            camera: CameraState { left_offset_px: left as u16, target_offset_px: left as u16 },
            cells: loaded_surface(blank_surface(), palette_ids, grid, left / 8),
            palette_ids,
            pending: None,
        }
    }

    /// The session after the start of a frame in which `pressed` was the
    /// step asked for. An idle session tries the step, aims the camera at
    /// the edge that suits the player, makes the redraw that a scroll to
    /// the left needs before it starts, and notes the one that a scroll to
    /// the right needs when it ends. A session that is not idle ignores
    /// the press and stays as it is.
    pub open spec fn begun(self, pressed: Option<Direction>) -> SessionModel {
        if self.idle() {
            let pos = match pressed {
                Some(direction) => position_after(self.grid, self.pos, direction),
                None => self.pos,
            };
            let target = target_left(pos.0 as int, self.grid.width as int);
            let plan = plan_of(self.camera.left_offset_px as int, target, self.grid.width as int);
            SessionModel {
                grid: self.grid,
                pos,
                camera: CameraState {
                    left_offset_px: self.camera.left_offset_px,
                    target_offset_px: target as u16,
                },
                cells: self.redrawn(plan.before),
                palette_ids: self.palette_ids,
                pending: plan.after,
            }
        } else {
            self
        }
    }

    /// The session after one frame of a scroll: the camera is one pixel
    /// nearer to its target.
    pub open spec fn stepped(self) -> SessionModel {
        SessionModel {
            grid: self.grid,
            pos: self.pos,
            camera: CameraState {
                left_offset_px: toward(
                    self.camera.left_offset_px as int,
                    self.camera.target_offset_px as int,
                ) as u16,
                target_offset_px: self.camera.target_offset_px,
            },
            cells: self.cells,
            palette_ids: self.palette_ids,
            pending: self.pending,
        }
    }

    /// The session after the frame that ends a turn: once the camera is at
    /// rest, the redraw that was noted is made. While the camera is still
    /// moving nothing changes.
    pub open spec fn ended(self) -> SessionModel {
        if self.camera.settled() {
            SessionModel {
                grid: self.grid,
                pos: self.pos,
                camera: self.camera,
                cells: self.redrawn(self.pending),
                palette_ids: self.palette_ids,
                pending: None,
            }
        } else {
            self
        }
    }

    /// The session after `frames` frames of a scroll.
    pub open spec fn scrolled(self, frames: nat) -> SessionModel
        decreases frames,
    {
        if frames == 0 {
            self
        } else {
            self.scrolled((frames - 1) as nat).stepped()
        }
    }

    /// What the session shows: the camera's edge as scroll offset, and the
    /// player's cell in pixels measured from that edge.
    pub open spec fn frame(self, vblank_waits: u8) -> Frame {
        Frame {
            scroll_x: self.camera.left_offset_px,
            sprite_x: (self.pos.0 * 8 - self.camera.left_offset_px) as u16,
            sprite_y: (self.pos.1 * 8) as u16,
            vblank_waits,
        }
    }
}

/// A session at the start of a floor is sound and idle.
pub proof fn lemma_opening_wf(grid: FloorGrid, pos: (u16, u16), palette_ids: Seq<u8>)
    requires
        grid.wf(),
        grid.contains(pos.0 as int, pos.1 as int),
        palette_ids.len() >= TILE_KINDS,
    ensures
        SessionModel::opening(grid, pos, palette_ids).wf(),
        SessionModel::opening(grid, pos, palette_ids).idle(),
{
    lemma_target_in_range(pos.0 as int, grid.width as int);
    let model = SessionModel::opening(grid, pos, palette_ids);
    let left_tile = target_left(pos.0 as int, grid.width as int) / 8;
    assert forall|floor_column: int|
        model.held_from() <= floor_column <= model.held_from() + 30 && 0 <= floor_column
            < grid.width implies #[trigger] model.shows_column(floor_column) by {
        lemma_first_view_by_column_number(
            blank_surface(),
            palette_ids,
            grid,
            left_tile,
            floor_column,
        );
    }
}

/// The start of a frame keeps a session sound. In an idle session it
/// moves the camera's target by one tile or not at all, and where the
/// target moves, exactly one column is redrawn: either at once or when the
/// scroll ends.
pub proof fn lemma_begun_wf(model: SessionModel, pressed: Option<Direction>)
    requires
        model.wf(),
    ensures
        model.begun(pressed).wf(),
        model.idle() ==> {
            let next = model.begun(pressed);
            let left = next.camera.left_offset_px as int;
            let target = next.camera.target_offset_px as int;
            &&& left % 8 == 0 && target % 8 == 0
            &&& distance(left, target) == 0 || distance(left, target) == 8
            &&& distance(left, target) == 0 ==> next.cells == model.cells && next.pending is None
            &&& distance(left, target) == 8 ==> (plan_of(
                left,
                target,
                model.grid.width as int,
            ).before is Some) != (next.pending is Some)
            &&& next.pending is Some ==> next.pending->Some_0.floor_column < model.grid.width
        },
{
    if model.idle() {
        let next = model.begun(pressed);
        lemma_target_in_range(model.pos.0 as int, model.grid.width as int);
        lemma_target_in_range(next.pos.0 as int, model.grid.width as int);
        assert forall|floor_column: int|
            next.held_from() <= floor_column <= next.held_from() + 30 && 0 <= floor_column
                < next.grid.width implies #[trigger] next.shows_column(floor_column) by {
            if model.held_from() <= floor_column <= model.held_from() + 30 {
                assert(model.shows_column(floor_column));
            }
        }
    }
}

/// A frame of a scroll keeps a session sound, so the camera's edge stays
/// between 0 and the largest left edge of the floor.
pub proof fn lemma_stepped_wf(model: SessionModel)
    requires
        model.wf(),
    ensures
        model.stepped().wf(),
        0 <= model.stepped().camera.left_offset_px <= max_left(model.grid.width as int),
{
    lemma_target_in_range(model.pos.0 as int, model.grid.width as int);
    let next = model.stepped();
    assert forall|floor_column: int|
        next.held_from() <= floor_column <= next.held_from() + 30 && 0 <= floor_column
            < next.grid.width implies #[trigger] next.shows_column(floor_column) by {
        assert(model.shows_column(floor_column));
    }
}

/// A scroll moves nothing but the camera's edge, which goes as `after_steps`
/// says, and keeps the session sound.
pub proof fn lemma_scrolled(model: SessionModel, frames: nat)
    requires
        model.wf(),
    ensures
        model.scrolled(frames).wf(),
        model.scrolled(frames) == (SessionModel {
            camera: CameraState {
                left_offset_px: after_steps(
                    model.camera.left_offset_px as int,
                    model.camera.target_offset_px as int,
                    frames,
                ) as u16,
                target_offset_px: model.camera.target_offset_px,
            },
            ..model
        }),
    decreases frames,
{
    if frames > 0 {
        lemma_scrolled(model, (frames - 1) as nat);
        lemma_stepped_wf(model.scrolled((frames - 1) as nat));
        lemma_after_steps(
            model.camera.left_offset_px as int,
            model.camera.target_offset_px as int,
            (frames - 1) as nat,
        );
    }
}

/// A scroll arrives: after as many frames as there are pixels between the
/// camera's edge and its target the camera is at rest, not before, and the
/// end of the turn then leaves the session idle.
pub proof fn lemma_scroll_arrives(model: SessionModel)
    requires
        model.wf(),
    ensures
        ({
            let frames = distance(
                model.camera.left_offset_px as int,
                model.camera.target_offset_px as int,
            );
            &&& model.scrolled(frames).camera.settled()
            &&& model.scrolled(frames).ended().idle()
            &&& forall|fewer: nat|
                fewer < frames ==> !(#[trigger] model.scrolled(fewer)).camera.settled()
        }),
{
    let left = model.camera.left_offset_px as int;
    let target = model.camera.target_offset_px as int;
    let frames = distance(left, target);
    lemma_scrolled(model, frames);
    lemma_after_steps(left, target, frames);
    assert forall|fewer: nat| fewer < frames implies !(#[trigger] model.scrolled(
        fewer,
    )).camera.settled() by {
        lemma_scrolled(model, fewer);
        lemma_after_steps(left, target, fewer);
    }
}

/// The end of a turn keeps a session sound, and leaves a session whose
/// camera is at rest idle.
pub proof fn lemma_ended_wf(model: SessionModel)
    requires
        model.wf(),
    ensures
        model.ended().wf(),
        model.camera.settled() ==> model.ended().idle(),
{
    lemma_target_in_range(model.pos.0 as int, model.grid.width as int);
    let next = model.ended();
    assert forall|floor_column: int|
        next.held_from() <= floor_column <= next.held_from() + 30 && 0 <= floor_column
            < next.grid.width implies #[trigger] next.shows_column(floor_column) by {
        if model.held_from() <= floor_column <= model.held_from() + 30 {
            assert(model.shows_column(floor_column));
        }
    }
}

/// A sound session shows the floor: every floor column that the screen
/// reaches from the camera's edge, 240 pixels wide, stands in the surface
/// column of its number counted round the surface, with the tile of the
/// floor in every row and empty space below the floor.
pub proof fn lemma_screen_shows_floor(model: SessionModel, floor_column: int)
    requires
        model.wf(),
        model.camera.left_offset_px / 8 <= floor_column <= (model.camera.left_offset_px + 239) / 8,
        floor_column < model.grid.width,
    ensures
        surface_shaped(model.cells),
        model.cells[floor_column % 32] == column_of(model.palette_ids, model.grid, floor_column),
{
    lemma_target_in_range(model.pos.0 as int, model.grid.width as int);
    assert(model.shows_column(floor_column));
}

/// A play session: the game state, the camera, the backing surface and
/// the palette table that the surface is drawn with.
#[derive(Debug)]
pub struct PlaySession {
    state: GameState,
    camera: CameraState,
    surface: TileSurface,
    palette_ids: Vec<u8>,
    pending: Option<ColumnRecycle>,
}

impl View for PlaySession {
    type V = SessionModel;

    closed spec fn view(&self) -> SessionModel {
        SessionModel {
            grid: self.state.grid(),
            pos: self.state.position(),
            camera: self.camera,
            cells: self.surface@,
            palette_ids: self.palette_ids@,
            pending: self.pending,
        }
    }
}

impl PlaySession {
    /// Starts a session: the camera is put at rest on the edge that suits
    /// the player and the first view of the floor is drawn.
    pub fn new(state: GameState, palette_ids: Vec<u8>) -> (session: PlaySession)
        requires
            palette_ids@.len() >= TILE_KINDS,
        ensures
            session@ == SessionModel::opening(state.grid(), state.position(), palette_ids@),
            session@.wf(),
    {
        let pos = state.pos();
        let camera = CameraState::new(pos.0, state.floor().width());
        let mut surface = TileSurface::new();
        load_initial_floor_view(
            &mut surface,
            palette_ids.as_slice(),
            state.floor(),
            camera.left_offset_px,
        );
        proof {
            lemma_opening_wf(state.grid(), state.position(), palette_ids@);
        }
        PlaySession { state, camera, surface, palette_ids, pending: None }
    }

    /// The game state.
    pub fn state(&self) -> (state: &GameState)
        ensures
            state.grid() == self@.grid,
            state.position() == self@.pos,
    {
        &self.state
    }

    /// The camera.
    pub fn camera(&self) -> (camera: CameraState)
        ensures
            camera == self@.camera,
    {
        self.camera
    }

    /// The backing surface.
    pub fn surface(&self) -> (surface: &TileSurface)
        ensures
            surface@ == self@.cells,
    {
        &self.surface
    }

    /// Whether the next frame may take a key press.
    pub fn wants_input(&self) -> (yes: bool)
        ensures
            yes == self@.idle(),
    {
        self.camera.is_settled() && self.pending.is_none()
    }

    /// Starts a frame in which `pressed` is the step asked for, and
    /// returns the surface column that was redrawn, if one was.
    pub fn begin_frame(&mut self, pressed: Option<Direction>) -> (redrawn: Option<usize>)
        requires
            old(self)@.wf(),
        ensures
            final(self)@ == old(self)@.begun(pressed),
            final(self)@.wf(),
            redrawn == if old(self)@.idle() {
                match plan_of(
                    final(self)@.camera.left_offset_px as int,
                    final(self)@.camera.target_offset_px as int,
                    final(self)@.grid.width as int,
                ).before {
                    Some(r) => Some(r.surface_column),
                    None => None,
                }
            } else {
                None
            },
    {
        proof {
            lemma_begun_wf(self@, pressed);
        }
        if !self.wants_input() {
            return None;
        }
        match pressed {
            Some(direction) => {
                self.state.try_move(direction);
            },
            None => {},
        }
        let pos = self.state.pos();
        let width = self.state.floor().width();
        self.camera.retarget(pos.0, width);
        let plan = plan_scroll(self.camera.left_offset_px, self.camera.target_offset_px, width);
        self.pending = plan.after;
        match plan.before {
            Some(r) => {
                overwrite_column(
                    &mut self.surface,
                    self.palette_ids.as_slice(),
                    r.surface_column,
                    r.floor_column,
                    self.state.floor(),
                );
                Some(r.surface_column)
            },
            None => None,
        }
    }

    /// Moves the camera one pixel towards its target and returns the
    /// frame to present, or returns nothing when the camera is at rest.
    pub fn scroll_step(&mut self) -> (frame: Option<Frame>)
        requires
            old(self)@.wf(),
        ensures
            final(self)@ == if old(self)@.camera.settled() {
                old(self)@
            } else {
                old(self)@.stepped()
            },
            final(self)@.wf(),
            frame == if old(self)@.camera.settled() {
                None
            } else {
                Some(final(self)@.frame(STEP_WAITS))
            },
    {
        proof {
            lemma_stepped_wf(self@);
        }
        if self.camera.step() {
            Some(self.present(STEP_WAITS))
        } else {
            None
        }
    }

    /// Ends a turn: once the camera is at rest the redraw that the scroll
    /// left to be made is made. Returns the surface column that was
    /// redrawn, if one was, and the frame to present.
    pub fn end_frame(&mut self) -> (done: (Option<usize>, Frame))
        requires
            old(self)@.wf(),
        ensures
            final(self)@ == old(self)@.ended(),
            final(self)@.wf(),
            done.0 == if old(self)@.camera.settled() {
                match old(self)@.pending {
                    Some(r) => Some(r.surface_column),
                    None => None,
                }
            } else {
                None
            },
            done.1 == final(self)@.frame(FRAME_WAITS),
    {
        proof {
            lemma_ended_wf(self@);
        }
        let mut redrawn: Option<usize> = None;
        if self.camera.is_settled() {
            match self.pending {
                Some(r) => {
                    overwrite_column(
                        &mut self.surface,
                        self.palette_ids.as_slice(),
                        r.surface_column,
                        r.floor_column,
                        self.state.floor(),
                    );
                    redrawn = Some(r.surface_column);
                },
                None => {},
            }
            self.pending = None;
        }
        (redrawn, self.present(FRAME_WAITS))
    }

    /// The frame that shows the session as it stands.
    fn present(&self, vblank_waits: u8) -> (frame: Frame)
        requires
            self@.wf(),
        ensures
            frame == self@.frame(vblank_waits),
    {
        let pos = self.state.pos();
        Frame {
            scroll_x: self.camera.left_offset_px,
            sprite_x: pos.0 * 8 - self.camera.left_offset_px,
            sprite_y: pos.1 * 8,
            vblank_waits,
        }
    }
}

} // verus!
