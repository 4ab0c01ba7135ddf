//! The floor: a fixed grid of tiles, decoded from a binary resource.
//!
//! A resource is two header bytes, the height and then the width, followed
//! by one byte per tile in row-major order.

use vstd::prelude::*;
use vstd::slice::slice_subrange;
use crate::tile::{TileType, tile_of_code, code_of_tile, is_tile_code, tile_to_enum,
    lemma_code_then_tile, lemma_tile_then_code};

verus! {

/// Why a floor could not be loaded.
#[derive(Clone, Copy, Debug, PartialEq, Eq, Structural)]
pub enum FloorError {
    /// The resource is shorter than its header, or its length is not what
    /// the header announces.
    MalformedFloor,
    /// The floor holds no tile on which a player can be placed.
    NoSpawnAvailable,
}

/// A pair of small grid dimensions or coordinates.
#[derive(Clone, Copy, Debug, PartialEq, Eq, Structural)]
pub struct PosU8 {
    pub x: u8,
    pub y: u8,
}

impl PosU8 {
    /// Reads a resource header: the first byte is `y`, the second is `x`.
    pub fn from(l: &[u8]) -> (size: PosU8)
        requires
            l@.len() == 2,
        ensures
            size.y == l@[0],
            size.x == l@[1],
    {
        PosU8 { y: l[0], x: l[1] }
    }
}

/// The mathematical content of a floor.
pub struct FloorGrid {
    pub width: nat,
    pub height: nat,
    pub cells: Seq<TileType>,
}

impl FloorGrid {
    /// Each dimension fits a byte, and there is exactly one tile per cell.
    pub open spec fn wf(self) -> bool {
        &&& self.width <= u8::MAX
        &&& self.height <= u8::MAX
        &&& self.cells.len() == self.width * self.height
    }

    /// Whether `(x, y)` names a cell of the grid.
    pub open spec fn contains(self, x: int, y: int) -> bool {
        0 <= x < self.width && 0 <= y < self.height
    }

    /// The tile at a cell of the grid.
    pub open spec fn tile(self, x: int, y: int) -> TileType
        recommends
            self.contains(x, y),
    {
        self.cells[y * self.width + x]
    }

    /// The tile at `(x, y)`, and empty space outside the grid.
    pub open spec fn tile_or_empty(self, x: int, y: int) -> TileType {
        if self.contains(x, y) {
            self.tile(x, y)
        } else {
            TileType::EMPTY
        }
    }

    /// Whether some cell holds a floor tile.
    pub open spec fn has_floor_tile(self) -> bool {
        exists|x: int, y: int| self.contains(x, y) && #[trigger] self.tile(x, y) == TileType::FLOOR
    }
}

/// Whether a byte sequence has a header and exactly the tiles it announces.
pub open spec fn well_sized(raw: Seq<u8>) -> bool {
    raw.len() >= 2 && raw.len() == 2 + raw[1] * raw[0]
}

/// The floor that a well-sized byte sequence describes.
pub open spec fn decode(raw: Seq<u8>) -> FloorGrid
    recommends
        well_sized(raw),
{
    FloorGrid {
        width: raw[1] as nat,
        height: raw[0] as nat,
        cells: Seq::new((raw.len() - 2) as nat, |i: int| tile_of_code(raw[i + 2])),
    }
}

/// The byte sequence that describes a floor.
pub open spec fn encode(grid: FloorGrid) -> Seq<u8>
    recommends
        grid.wf(),
{
    seq![grid.height as u8, grid.width as u8] + Seq::new(
        grid.cells.len(),
        |i: int| code_of_tile(grid.cells[i]),
    )
}

/// Whether every tile byte of a resource is one that `encode` writes.
pub open spec fn canonical(raw: Seq<u8>) -> bool {
    forall|i: int| 2 <= i < raw.len() ==> is_tile_code(#[trigger] raw[i])
}

/// The index of a cell lies inside the row-major sequence of tiles.
pub proof fn lemma_cell_index(width: nat, height: nat, x: int, y: int)
    requires
        0 <= x < width,
        0 <= y < height,
    ensures
        0 <= y * width + x < width * height,
{
    assert(y * width + x < width * height) by (nonlinear_arith)
        requires
            0 <= x < width,
            0 <= y < height,
    ;
    assert(0 <= y * width) by (nonlinear_arith)
        requires
            0 <= y,
    ;
}

/// Encoding a floor gives a resource that decodes to the same floor.
pub proof fn lemma_encode_then_decode(grid: FloorGrid)
    requires
        grid.wf(),
    ensures
        well_sized(encode(grid)),
        canonical(encode(grid)),
        decode(encode(grid)) == grid,
{
    let raw = encode(grid);
    let back = decode(raw);
    assert(raw[0] == grid.height && raw[1] == grid.width);
    assert(raw[1] * raw[0] == grid.width * grid.height) by (nonlinear_arith)
        requires
            raw[0] == grid.height,
            raw[1] == grid.width,
    ;
    assert forall|i: int| 2 <= i < raw.len() implies is_tile_code(#[trigger] raw[i]) by {
        lemma_code_then_tile(grid.cells[i - 2]);
    }
    assert forall|i: int| 0 <= i < grid.cells.len() implies back.cells[i] == grid.cells[i] by {
        lemma_code_then_tile(grid.cells[i]);
    }
    assert(back.cells =~= grid.cells);
}

/// Decoding a resource whose tile bytes all come from the table, and
/// encoding the floor again, gives the resource back byte for byte.
pub proof fn lemma_decode_then_encode(raw: Seq<u8>)
    requires
        well_sized(raw),
        canonical(raw),
    ensures
        decode(raw).wf(),
        encode(decode(raw)) == raw,
{
    let grid = decode(raw);
    let again = encode(grid);
    assert(grid.width * grid.height == raw[1] * raw[0]) by (nonlinear_arith)
        requires
            grid.width == raw[1],
            grid.height == raw[0],
    ;
    assert(again.len() == raw.len());
    assert forall|i: int| 0 <= i < raw.len() implies again[i] == raw[i] by {
        if i >= 2 {
            lemma_tile_then_code(raw[i]);
        }
    }
    assert(again =~= raw);
}

/// A resource written for a floor is read back as that floor and written
/// again as the same bytes.
pub proof fn lemma_resource_round_trip(grid: FloorGrid)
    requires
        grid.wf(),
    ensures
        well_sized(encode(grid)),
        encode(decode(encode(grid))) == encode(grid),
{
    lemma_encode_then_decode(grid);
}

/// A product of two byte-sized factors stays far below any machine limit.
proof fn lemma_product_bound(a: int, b: int)
    requires
        0 <= a <= u8::MAX,
        0 <= b <= u8::MAX,
    ensures
        0 <= a * b <= 65025,
{
    assert(0 <= a * b <= 65025) by (nonlinear_arith)
        requires
            0 <= a <= 255,
            0 <= b <= 255,
    ;
}

/// A floor: its dimensions and its tiles, row by row.
#[derive(Debug)]
pub struct Floor {
    size: PosU8,
    tiles: Vec<TileType>,
}

impl View for Floor {
    type V = FloorGrid;

    closed spec fn view(&self) -> FloorGrid {
        FloorGrid {
            width: self.size.x as nat,
            height: self.size.y as nat,
            cells: self.tiles@,
        }
    }
}

impl Floor {
    #[verifier::type_invariant]
    spec fn holds_every_cell(self) -> bool {
        self.tiles@.len() == self.size.x * self.size.y
    }

    /// The dimensions: `x` columns and `y` rows.
    pub fn size(&self) -> (size: PosU8)
        ensures
            size.x == self@.width,
            size.y == self@.height,
            self@.wf(),
    {
        proof {
            use_type_invariant(self);
        }
        self.size
    }

    /// Number of columns.
    pub fn width(&self) -> (w: u8)
        ensures
            w == self@.width,
            self@.wf(),
    {
        proof {
            use_type_invariant(self);
        }
        self.size.x
    }

    /// Number of rows.
    pub fn height(&self) -> (h: u8)
        ensures
            h == self@.height,
            self@.wf(),
    {
        proof {
            use_type_invariant(self);
        }
        self.size.y
    }

    /// The tile at column `x` of row `y`.
    pub fn tile_at(&self, x: usize, y: usize) -> (kind: TileType)
        requires
            self@.contains(x as int, y as int),
        ensures
            kind == self@.tile(x as int, y as int),
    {
        proof {
            use_type_invariant(self);
            lemma_cell_index(self@.width, self@.height, x as int, y as int);
            lemma_product_bound(y as int, self.size.x as int);
        }
        self.tiles[y * (self.size.x as usize) + x]
    }

    /// The tile at column `x` of row `y`, and empty space where the floor
    /// has no such cell: a floor can be drawn into a window larger than
    /// itself.
    pub fn tile_at_or_empty(&self, x: usize, y: usize) -> (kind: TileType)
        ensures
            kind == self@.tile_or_empty(x as int, y as int),
    {
        if x < self.size.x as usize && y < self.size.y as usize {
            self.tile_at(x, y)
        } else {
            TileType::EMPTY
        }
    }
}

/// Decodes a floor resource. The resource is refused unless it holds the
/// two header bytes and exactly `width * height` tile bytes after them.
/// A floor decoded from tile bytes of the table encodes to the same bytes.
pub fn parse_floor(raw: &[u8]) -> (result: Result<Floor, FloorError>)
    ensures
        result is Ok <==> well_sized(raw@),
        result is Ok ==> result->Ok_0@ == decode(raw@) && result->Ok_0@.wf(),
        result is Ok && canonical(raw@) ==> encode(result->Ok_0@) == raw@,
        result is Err ==> result->Err_0 == FloorError::MalformedFloor,
{
    if raw.len() < 2 {
        return Err(FloorError::MalformedFloor);
    }
    let size = PosU8::from(slice_subrange(raw, 0, 2));
    proof {
        lemma_product_bound(size.x as int, size.y as int);
    }
    let count: usize = (size.x as usize) * (size.y as usize);
    if raw.len() - 2 != count {
        return Err(FloorError::MalformedFloor);
    }
    let mut tiles: Vec<TileType> = Vec::new();
    let mut i: usize = 2;
    while i < raw.len()
        invariant
            2 <= i <= raw.len(),
            tiles@.len() == i - 2,
            forall|k: int| 0 <= k < tiles@.len() ==> tiles@[k] == tile_of_code(#[trigger] raw@[k + 2]),
        decreases raw.len() - i,
    {
        tiles.push(tile_to_enum(&raw[i]));
        i += 1;
    }
    let floor = Floor { size, tiles };
    proof {
        assert(floor@.cells =~= decode(raw@).cells);
        if canonical(raw@) {
            lemma_decode_then_encode(raw@);
        }
    }
    Ok(floor)
}

/// Writes a floor as the resource that `parse_floor` reads back as the
/// same floor.
pub fn encode_floor(floor: &Floor) -> (raw: Vec<u8>)
    ensures
        raw@ == encode(floor@),
        well_sized(raw@),
        canonical(raw@),
        decode(raw@) == floor@,
{
    proof {
        use_type_invariant(floor);
        lemma_encode_then_decode(floor@);
    }
    let mut raw: Vec<u8> = Vec::new();
    raw.push(floor.size.y);
    raw.push(floor.size.x);
    let mut i: usize = 0;
    while i < floor.tiles.len()
        invariant
            0 <= i <= floor.tiles@.len(),
            raw@.len() == i + 2,
            raw@[0] == floor.size.y,
            raw@[1] == floor.size.x,
            forall|k: int| 0 <= k < i ==> #[trigger] raw@[k + 2] == code_of_tile(floor.tiles@[k]),
        decreases floor.tiles@.len() - i,
    {
        raw.push(floor.tiles[i].code());
        i += 1;
    }
    proof {
        let expected = encode(floor@);
        assert(raw@.len() == expected.len());
        assert forall|j: int| 0 <= j < raw@.len() implies raw@[j] == expected[j] by {
            if j >= 2 {
                assert(raw@[(j - 2) + 2] == code_of_tile(floor.tiles@[j - 2]));
            }
        }
        assert(raw@ =~= expected);
    }
    raw
}

} // verus!
