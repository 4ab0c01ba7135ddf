//! The backing tile surface: a fixed block of tile assignments, one column
//! per floor column counted round the surface, that is filled once when a
//! floor is entered and then redrawn one column at a time.

use vstd::prelude::*;
use crate::camera::{SURFACE_COLUMNS, SURFACE_ROWS, TILE_PX};
use crate::floor::{Floor, FloorGrid};
use crate::tile::{TileType, TILE_KINDS, ordinal_of};

verus! {

/// What one cell of the surface shows: a tile image, whether it is
/// mirrored, and the palette it is drawn with.
#[derive(Clone, Copy, Debug, PartialEq, Eq, Structural)]
pub struct TileSetting {
    pub tile_id: u16,
    pub hflip: bool,
    pub vflip: bool,
    pub palette_id: u8,
}

/// The assignment that shows a tile kind: its own image, not mirrored,
/// with the palette that the table gives for that image.
pub open spec fn setting_of(palette_ids: Seq<u8>, kind: TileType) -> TileSetting
    recommends
        palette_ids.len() >= TILE_KINDS,
{
    TileSetting {
        tile_id: ordinal_of(kind) as u16,
        hflip: false,
        vflip: false,
        palette_id: palette_ids[ordinal_of(kind)],
    }
}

/// The surface column that shows a floor column: for every row the tile
/// there, and empty space where the floor has none.
pub open spec fn column_of(palette_ids: Seq<u8>, grid: FloorGrid, floor_column: int) -> Seq<
    Option<TileSetting>,
> {
    Seq::new(
        SURFACE_ROWS as nat,
        |row: int| Some(setting_of(palette_ids, grid.tile_or_empty(floor_column, row))),
    )
}

/// A surface on which nothing has been drawn.
pub open spec fn blank_surface() -> Seq<Seq<Option<TileSetting>>> {
    Seq::new(
        SURFACE_COLUMNS as nat,
        |column: int| Seq::new(SURFACE_ROWS as nat, |row: int| None::<TileSetting>),
    )
}

/// How many columns to the right of floor column `left_tile` the floor
/// column lies that belongs in a surface column, from 0 to 31.
pub open spec fn view_offset(left_tile: int, surface_column: int) -> int {
    (surface_column - left_tile) % 32
}

/// The one floor column among the 32 from `left_tile` on that belongs in
/// a surface column: the one of the same number counted round the surface.
pub open spec fn first_view_column(left_tile: int, surface_column: int) -> int {
    left_tile + view_offset(left_tile, surface_column)
}

/// The surface after the first view of a floor was drawn on it: each of
/// the 32 floor columns from `left_tile` on that the floor has stands in
/// the surface column of its number counted round the surface, and a
/// surface column whose floor column the floor has not keeps what it held.
pub open spec fn loaded_surface(
    before: Seq<Seq<Option<TileSetting>>>,
    palette_ids: Seq<u8>,
    grid: FloorGrid,
    left_tile: int,
) -> Seq<Seq<Option<TileSetting>>> {
    Seq::new(
        SURFACE_COLUMNS as nat,
        |column: int|
            if first_view_column(left_tile, column) < grid.width {
                column_of(palette_ids, grid, first_view_column(left_tile, column))
            } else {
                before[column]
            },
    )
}

/// Whether a block of cells has the surface's columns and rows.
pub open spec fn surface_shaped(cells: Seq<Seq<Option<TileSetting>>>) -> bool {
    &&& cells.len() == SURFACE_COLUMNS
    &&& forall|column: int|
        0 <= column < SURFACE_COLUMNS ==> (#[trigger] cells[column]).len() == SURFACE_ROWS
}

/// Redrawing a column changes that surface column and no other, and leaves
/// in every row of it the tile of the floor column, or empty space where
/// the floor has no such cell.
pub proof fn lemma_recycle_touches_one_column(
    before: Seq<Seq<Option<TileSetting>>>,
    palette_ids: Seq<u8>,
    grid: FloorGrid,
    surface_column: int,
    floor_column: int,
)
    requires
        surface_shaped(before),
        0 <= surface_column < SURFACE_COLUMNS,
    ensures
        ({
            let after = before.update(surface_column, column_of(palette_ids, grid, floor_column));
            &&& surface_shaped(after)
            &&& forall|column: int|
                0 <= column < SURFACE_COLUMNS && column != surface_column ==> #[trigger] after[column]
                    == before[column]
            &&& forall|row: int|
                0 <= row < SURFACE_ROWS ==> #[trigger] after[surface_column][row] == Some(
                    setting_of(palette_ids, grid.tile_or_empty(floor_column, row)),
                )
        }),
{
}

/// The assignment that shows the tile at column `x` of row `y` of a floor,
/// or empty space where the floor has no such cell.
pub fn get_tilesetting_for_tile(palette_ids: &[u8], floor: &Floor, x: usize, y: usize) -> (setting:
    TileSetting)
    requires
        palette_ids@.len() >= TILE_KINDS,
    ensures
        setting == setting_of(palette_ids@, floor@.tile_or_empty(x as int, y as int)),
{
    let tile_id = floor.tile_at_or_empty(x, y).ordinal() as u16;
    TileSetting { tile_id, hflip: false, vflip: false, palette_id: palette_ids[tile_id as usize] }
}

/// The backing surface, column by column. A cell on which nothing was
/// drawn yet holds `None`.
#[derive(Debug)]
pub struct TileSurface {
    columns: [[Option<TileSetting>; SURFACE_ROWS]; SURFACE_COLUMNS],
}

impl View for TileSurface {
    type V = Seq<Seq<Option<TileSetting>>>;

    closed spec fn view(&self) -> Seq<Seq<Option<TileSetting>>> {
        Seq::new(SURFACE_COLUMNS as nat, |column: int| self.columns@[column]@)
    }
}

impl TileSurface {
    /// A surface on which nothing has been drawn.
    pub fn new() -> (surface: TileSurface)
        ensures
            surface@ == blank_surface(),
    {
        let surface = TileSurface { columns: [[None; SURFACE_ROWS]; SURFACE_COLUMNS] };
        proof {
            assert forall|column: int| 0 <= column < SURFACE_COLUMNS implies #[trigger] surface@[column]
                == blank_surface()[column] by {
                assert(surface@[column] =~= blank_surface()[column]);
            }
            assert(surface@ =~= blank_surface());
        }
        surface
    }

    /// What the cell at a column and row shows. Outside the surface there
    /// is nothing.
    pub fn get(&self, column: usize, row: usize) -> (cell: Option<TileSetting>)
        ensures
            surface_shaped(self@),
            cell == if column < SURFACE_COLUMNS && row < SURFACE_ROWS {
                self@[column as int][row as int]
            } else {
                None
            },
    {
        if column < SURFACE_COLUMNS && row < SURFACE_ROWS {
            self.columns[column][row]
        } else {
            None
        }
    }

    /// Replaces one column.
    fn put_column(&mut self, column: usize, cells: [Option<TileSetting>; SURFACE_ROWS])
        requires
            column < SURFACE_COLUMNS,
        ensures
            final(self)@ == old(self)@.update(column as int, cells@),
    {
        self.columns[column] = cells;
        proof {
            assert(self@ =~= old(self)@.update(column as int, cells@));
        }
    }
}

/// Builds the surface column that shows a floor column.
fn draw_column(palette_ids: &[u8], floor: &Floor, floor_column: usize) -> (cells: [Option<
    TileSetting,
>; SURFACE_ROWS])
    requires
        palette_ids@.len() >= TILE_KINDS,
    ensures
        cells@ == column_of(palette_ids@, floor@, floor_column as int),
{
    let mut cells: [Option<TileSetting>; SURFACE_ROWS] = [None; SURFACE_ROWS];
    let mut y: usize = 0;
    while y < SURFACE_ROWS
        invariant
            palette_ids@.len() >= TILE_KINDS,
            y <= SURFACE_ROWS,
            forall|row: int|
                0 <= row < y ==> #[trigger] cells@[row] == column_of(
                    palette_ids@,
                    floor@,
                    floor_column as int,
                )[row],
        decreases SURFACE_ROWS - y,
    {
        cells[y] = Some(get_tilesetting_for_tile(palette_ids, floor, floor_column, y));
        y += 1;
    }
    proof {
        assert(cells@ =~= column_of(palette_ids@, floor@, floor_column as int));
    }
    cells
}

/// Redraws one surface column with the tiles of one floor column, for
/// every row of the surface. No other column changes.
pub fn overwrite_column(
    surface: &mut TileSurface,
    palette_ids: &[u8],
    column_to_write: usize,
    column_to_read: usize,
    floor: &Floor,
)
    requires
        palette_ids@.len() >= TILE_KINDS,
        column_to_write < SURFACE_COLUMNS,
    ensures
        final(surface)@ == old(surface)@.update(
            column_to_write as int,
            column_of(palette_ids@, floor@, column_to_read as int),
        ),
{
    let cells = draw_column(palette_ids, floor, column_to_read);
    surface.put_column(column_to_write, cells);
}

/// The first view shows every floor column of the 32 from `left_tile` on
/// that the floor has in the surface column of its number counted round
/// the surface, where a redraw of that floor column would put it too.
pub proof fn lemma_first_view_by_column_number(
    before: Seq<Seq<Option<TileSetting>>>,
    palette_ids: Seq<u8>,
    grid: FloorGrid,
    left_tile: int,
    floor_column: int,
)
    requires
        0 <= left_tile <= floor_column < left_tile + SURFACE_COLUMNS,
        floor_column < grid.width,
    ensures
        loaded_surface(before, palette_ids, grid, left_tile)[floor_column % 32] == column_of(
            palette_ids,
            grid,
            floor_column,
        ),
{
    assert(first_view_column(left_tile, floor_column % 32) == floor_column);
}

/// Draws the first view of a floor: the floor columns from the camera's
/// left edge on, as far as the surface and the floor reach, each in the
/// surface column of its number counted round the surface.
pub fn load_initial_floor_view(
    surface: &mut TileSurface,
    palette_ids: &[u8],
    floor: &Floor,
    left_x: u16,
)
    requires
        palette_ids@.len() >= TILE_KINDS,
    ensures
        final(surface)@ == loaded_surface(
            old(surface)@,
            palette_ids@,
            floor@,
            left_x as int / 8,
        ),
{
    let left_tile: usize = (left_x / TILE_PX) as usize;
    let width: usize = floor.width() as usize;
    let mut offset: usize = 0;
    while offset < SURFACE_COLUMNS && left_tile + offset < width
        invariant
            palette_ids@.len() >= TILE_KINDS,
            left_tile == left_x as int / 8,
            width == floor@.width,
            offset <= SURFACE_COLUMNS,
            offset == 0 || left_tile + offset <= width,
            surface@.len() == SURFACE_COLUMNS,
            forall|c: int|
                0 <= c < SURFACE_COLUMNS ==> #[trigger] surface@[c] == if view_offset(
                    left_tile as int,
                    c,
                ) < offset {
                    column_of(palette_ids@, floor@, first_view_column(left_tile as int, c))
                } else {
                    old(surface)@[c]
                },
        decreases SURFACE_COLUMNS - offset,
    {
        let floor_column = left_tile + offset;
        assert(view_offset(left_tile as int, floor_column as int % 32) == offset);
        assert forall|c: int|
            0 <= c < SURFACE_COLUMNS && c != floor_column % 32 implies #[trigger] view_offset(
            left_tile as int,
            c,
        ) != offset by {
            if view_offset(left_tile as int, c) == offset {
                assert((c - floor_column) % 32 == 0);
            }
        }
        overwrite_column(surface, palette_ids, floor_column % SURFACE_COLUMNS, floor_column, floor);
        offset += 1;
    }
    proof {
        assert(surface@ =~= loaded_surface(
            old(surface)@,
            palette_ids@,
            floor@,
            left_x as int / 8,
        ));
    }
}

} // verus!
