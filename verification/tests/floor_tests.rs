use dungeon_floor::floor::{encode_floor, parse_floor, Floor, FloorError, PosU8};
use dungeon_floor::tile::{tile_to_enum, TileType, TILE_KINDS};

fn sample_bytes() -> Vec<u8> {
    vec![2, 4, 2, 1, 1, 2, 7, 1, 2, 2]
}

fn sample_floor() -> Floor {
    parse_floor(&sample_bytes()).unwrap()
}

#[test]
fn tile_codes_follow_the_table() {
    assert_eq!(tile_to_enum(&1), TileType::FLOOR);
    assert_eq!(tile_to_enum(&2), TileType::WALL);
    assert_eq!(tile_to_enum(&3), TileType::DOOR_CLOSED);
    assert_eq!(tile_to_enum(&7), TileType::EMPTY);
}

#[test]
fn unknown_tile_codes_are_empty() {
    for code in 0u8..=255 {
        if code != 1 && code != 2 && code != 3 {
            assert_eq!(tile_to_enum(&code), TileType::EMPTY);
        }
    }
}

#[test]
fn ordinals_are_stable() {
    assert_eq!(TileType::WALL.ordinal(), 0);
    assert_eq!(TileType::DOOR_CLOSED.ordinal(), 1);
    assert_eq!(TileType::FLOOR.ordinal(), 2);
    assert_eq!(TileType::EMPTY.ordinal(), 3);
    assert_eq!(TILE_KINDS, 4);
}

#[test]
fn codes_decode_to_their_kind() {
    for kind in [TileType::WALL, TileType::DOOR_CLOSED, TileType::FLOOR, TileType::EMPTY] {
        assert_eq!(tile_to_enum(&kind.code()), kind);
    }
    assert_eq!(TileType::FLOOR.code(), 1);
    assert_eq!(TileType::WALL.code(), 2);
    assert_eq!(TileType::DOOR_CLOSED.code(), 3);
    assert_eq!(TileType::EMPTY.code(), 7);
}

#[test]
fn only_floor_and_door_are_walkable() {
    assert!(TileType::FLOOR.is_walkable());
    assert!(TileType::DOOR_CLOSED.is_walkable());
    assert!(!TileType::WALL.is_walkable());
    assert!(!TileType::EMPTY.is_walkable());
}

#[test]
fn header_is_height_then_width() {
    let size = PosU8::from(&[20, 32]);
    assert_eq!(size.y, 20);
    assert_eq!(size.x, 32);
}

#[test]
fn parse_reads_dimensions_and_tiles() {
    let floor = sample_floor();
    assert_eq!(floor.width(), 4);
    assert_eq!(floor.height(), 2);
    let expected = [
        [TileType::WALL, TileType::FLOOR, TileType::FLOOR, TileType::WALL],
        [TileType::EMPTY, TileType::FLOOR, TileType::WALL, TileType::WALL],
    ];
    for y in 0..2 {
        for x in 0..4 {
            assert_eq!(floor.tile_at(x, y), expected[y][x]);
        }
    }
}

#[test]
fn parse_absorbs_unknown_codes() {
    let floor = parse_floor(&[1, 3, 0, 9, 255]).unwrap();
    assert_eq!(floor.tile_at(0, 0), TileType::EMPTY);
    assert_eq!(floor.tile_at(1, 0), TileType::EMPTY);
    assert_eq!(floor.tile_at(2, 0), TileType::EMPTY);
}

#[test]
fn parse_refuses_a_missing_header() {
    assert_eq!(parse_floor(&[]).unwrap_err(), FloorError::MalformedFloor);
    assert_eq!(parse_floor(&[3]).unwrap_err(), FloorError::MalformedFloor);
}

#[test]
fn parse_refuses_a_short_payload() {
    assert_eq!(parse_floor(&[2, 2, 1, 1, 1]).unwrap_err(), FloorError::MalformedFloor);
}

#[test]
fn parse_refuses_a_long_payload() {
    assert_eq!(parse_floor(&[2, 2, 1, 1, 1, 1, 1]).unwrap_err(), FloorError::MalformedFloor);
}

#[test]
fn parse_accepts_a_floor_without_cells() {
    let floor = parse_floor(&[0, 0]).unwrap();
    assert_eq!(floor.width(), 0);
    assert_eq!(floor.height(), 0);
    let flat = parse_floor(&[0, 9]).unwrap();
    assert_eq!(flat.width(), 9);
    assert_eq!(flat.height(), 0);
}

#[test]
fn parse_accepts_the_largest_floor() {
    let mut raw = vec![255u8, 255u8];
    raw.resize(2 + 255 * 255, 1);
    let floor = parse_floor(&raw).unwrap();
    assert_eq!(floor.tile_at(254, 254), TileType::FLOOR);
    assert_eq!(encode_floor(&floor), raw);
}

#[test]
fn encode_reproduces_the_resource() {
    let raw = sample_bytes();
    assert_eq!(encode_floor(&parse_floor(&raw).unwrap()), raw);
}

#[test]
fn encode_writes_empty_as_seven() {
    let floor = parse_floor(&[1, 2, 0, 200]).unwrap();
    assert_eq!(encode_floor(&floor), vec![1, 2, 7, 7]);
}

#[test]
fn decode_after_encode_is_the_same_floor() {
    let floor = sample_floor();
    let again = parse_floor(&encode_floor(&floor)).unwrap();
    assert_eq!(again.width(), floor.width());
    assert_eq!(again.height(), floor.height());
    for y in 0..2 {
        for x in 0..4 {
            assert_eq!(again.tile_at(x, y), floor.tile_at(x, y));
        }
    }
}

#[test]
fn tile_at_or_empty_is_empty_below_the_floor() {
    let floor = sample_floor();
    assert_eq!(floor.tile_at_or_empty(1, 1), TileType::FLOOR);
    assert_eq!(floor.tile_at_or_empty(1, 2), TileType::EMPTY);
    assert_eq!(floor.tile_at_or_empty(1, 19), TileType::EMPTY);
}

#[test]
fn tile_at_or_empty_is_empty_beside_the_floor() {
    let floor = sample_floor();
    assert_eq!(floor.tile_at_or_empty(3, 0), TileType::WALL);
    assert_eq!(floor.tile_at_or_empty(4, 0), TileType::EMPTY);
    assert_eq!(floor.tile_at_or_empty(usize::MAX, usize::MAX), TileType::EMPTY);
}

#[test]
fn every_resource_of_table_codes_round_trips() {
    let codes = [1u8, 2, 3, 7];
    let mut seed: u32 = 7;
    for width in [0u8, 1, 2, 5, 32] {
        for height in [0u8, 1, 3, 20] {
            let mut raw = vec![height, width];
            for _ in 0..(width as usize * height as usize) {
                seed = seed.wrapping_mul(1664525).wrapping_add(1013904223);
                raw.push(codes[(seed >> 24) as usize % 4]);
            }
            let floor = parse_floor(&raw).unwrap();
            assert_eq!(floor.size(), PosU8 { x: width, y: height });
            assert_eq!(encode_floor(&floor), raw);
        }
    }
}
