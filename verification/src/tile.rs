//! The closed set of tile kinds: the byte codes that denote them in a floor
//! resource, the index that selects their image and palette, and which of
//! them a player can stand on.

use vstd::prelude::*;

verus! {

/// Number of tile kinds, and so of tile images and palette assignments.
pub const TILE_KINDS: usize = 4;

/// What occupies one cell of the floor grid.
#[allow(non_camel_case_types)]
#[derive(Clone, Copy, Debug, PartialEq, Eq, Structural)]
pub enum TileType {
    WALL,
    DOOR_CLOSED,
    FLOOR,
    EMPTY,
}

/// The kind that a resource byte stands for. Bytes outside the table are
/// read as empty space, so decoding never fails on a tile.
pub open spec fn tile_of_code(code: u8) -> TileType {
    if code == 1 {
        TileType::FLOOR
    } else if code == 2 {
        TileType::WALL
    } else if code == 3 {
        TileType::DOOR_CLOSED
    } else {
        TileType::EMPTY
    }
}

/// The byte that a floor resource holds for a kind.
pub open spec fn code_of_tile(kind: TileType) -> u8 {
    match kind {
        TileType::FLOOR => 1,
        TileType::WALL => 2,
        TileType::DOOR_CLOSED => 3,
        TileType::EMPTY => 7,
    }
}

/// Whether a byte is the one that `code_of_tile` gives for some kind.
pub open spec fn is_tile_code(code: u8) -> bool {
    code == 1 || code == 2 || code == 3 || code == 7
}

/// The image and palette index of a kind.
pub open spec fn ordinal_of(kind: TileType) -> int {
    match kind {
        TileType::WALL => 0,
        TileType::DOOR_CLOSED => 1,
        TileType::FLOOR => 2,
        TileType::EMPTY => 3,
    }
}

/// Whether a player may stand on a kind. A closed door does not block.
pub open spec fn walkable(kind: TileType) -> bool {
    kind == TileType::FLOOR || kind == TileType::DOOR_CLOSED
}

impl TileType {
    /// The index of this kind among the tile images, from 0.
    pub fn ordinal(&self) -> (index: i8)
        ensures
            index == ordinal_of(*self),
            0 <= index < TILE_KINDS,
    {
        match self {
            TileType::WALL => 0,
            TileType::DOOR_CLOSED => 1,
            TileType::FLOOR => 2,
            TileType::EMPTY => 3,
        }
    }

    /// The byte that encodes this kind in a floor resource.
    pub fn code(&self) -> (code: u8)
        ensures
            code == code_of_tile(*self),
    {
        match self {
            TileType::FLOOR => 1,
            TileType::WALL => 2,
            TileType::DOOR_CLOSED => 3,
            TileType::EMPTY => 7,
        }
    }

    /// Whether a player may step onto this kind.
    pub fn is_walkable(&self) -> (yes: bool)
        ensures
            yes == walkable(*self),
    {
        match self {
            TileType::FLOOR => true,
            TileType::DOOR_CLOSED => true,
            TileType::WALL => false,
            TileType::EMPTY => false,
        }
    }
}

/// Decodes one resource byte.
pub fn tile_to_enum(floortile: &u8) -> (kind: TileType)
    ensures
        kind == tile_of_code(*floortile),
{
    match *floortile {
        1 => TileType::FLOOR,
        2 => TileType::WALL,
        7 => TileType::EMPTY,
        3 => TileType::DOOR_CLOSED,
        _ => TileType::EMPTY,
    }
}

/// Encoding a kind and decoding the byte gives the kind back.
pub proof fn lemma_code_then_tile(kind: TileType)
    ensures
        is_tile_code(code_of_tile(kind)),
        tile_of_code(code_of_tile(kind)) == kind,
{
}

/// Decoding a byte of the table and encoding the kind gives the byte back.
pub proof fn lemma_tile_then_code(code: u8)
    requires
        is_tile_code(code),
    ensures
        code_of_tile(tile_of_code(code)) == code,
{
}

/// Distinct kinds have distinct ordinals.
pub proof fn lemma_ordinal_injective(a: TileType, b: TileType)
    requires
        ordinal_of(a) == ordinal_of(b),
    ensures
        a == b,
{
}

} // verus!
