use dungeon_floor::floor::{parse_floor, Floor};
use dungeon_floor::surface::{
    get_tilesetting_for_tile, load_initial_floor_view, overwrite_column, TileSetting, TileSurface,
};

const PALETTES: [u8; 4] = [10, 11, 12, 13];

fn sample_floor() -> Floor {
    parse_floor(&[2, 4, 2, 1, 1, 2, 7, 1, 3, 2]).unwrap()
}

fn striped_floor(width: u8, height: u8) -> Floor {
    let codes = [2u8, 3, 1];
    let mut raw = vec![height, width];
    for _ in 0..height {
        for x in 0..width {
            raw.push(codes[x as usize % 3]);
        }
    }
    parse_floor(&raw).unwrap()
}

fn shown(tile_id: u16) -> Option<TileSetting> {
    Some(TileSetting { tile_id, hflip: false, vflip: false, palette_id: PALETTES[tile_id as usize] })
}

#[test]
fn setting_is_ordinal_and_its_palette() {
    let floor = sample_floor();
    assert_eq!(
        get_tilesetting_for_tile(&PALETTES, &floor, 0, 0),
        TileSetting { tile_id: 0, hflip: false, vflip: false, palette_id: 10 }
    );
    assert_eq!(
        get_tilesetting_for_tile(&PALETTES, &floor, 2, 1),
        TileSetting { tile_id: 1, hflip: false, vflip: false, palette_id: 11 }
    );
    assert_eq!(
        get_tilesetting_for_tile(&PALETTES, &floor, 1, 0),
        TileSetting { tile_id: 2, hflip: false, vflip: false, palette_id: 12 }
    );
    assert_eq!(
        get_tilesetting_for_tile(&PALETTES, &floor, 0, 1),
        TileSetting { tile_id: 3, hflip: false, vflip: false, palette_id: 13 }
    );
}

#[test]
fn setting_outside_the_floor_is_empty_space() {
    let floor = sample_floor();
    let empty = TileSetting { tile_id: 3, hflip: false, vflip: false, palette_id: 13 };
    assert_eq!(get_tilesetting_for_tile(&PALETTES, &floor, 1, 2), empty);
    assert_eq!(get_tilesetting_for_tile(&PALETTES, &floor, 4, 0), empty);
}

#[test]
fn setting_uses_the_palette_table() {
    let floor = sample_floor();
    let table = [7u8, 7, 200, 9, 1, 2];
    assert_eq!(get_tilesetting_for_tile(&table, &floor, 1, 0).palette_id, 200);
}

#[test]
fn new_surface_is_blank() {
    let surface = TileSurface::new();
    for column in 0..32 {
        for row in 0..20 {
            assert_eq!(surface.get(column, row), None);
        }
    }
    assert_eq!(surface.get(32, 0), None);
    assert_eq!(surface.get(0, 20), None);
}

#[test]
fn overwrite_touches_one_column() {
    let floor = sample_floor();
    let mut surface = TileSurface::new();
    overwrite_column(&mut surface, &PALETTES, 5, 1, &floor);
    for column in 0..32 {
        for row in 0..20 {
            let expected = if column != 5 {
                None
            } else if row < 2 {
                shown(2)
            } else {
                shown(3)
            };
            assert_eq!(surface.get(column, row), expected);
        }
    }
}

#[test]
fn overwrite_replaces_what_was_there() {
    let floor = sample_floor();
    let mut surface = TileSurface::new();
    overwrite_column(&mut surface, &PALETTES, 31, 1, &floor);
    overwrite_column(&mut surface, &PALETTES, 31, 2, &floor);
    assert_eq!(surface.get(31, 0), shown(2));
    assert_eq!(surface.get(31, 1), shown(1));
    assert_eq!(surface.get(31, 2), shown(3));
}

#[test]
fn overwrite_beside_the_floor_draws_empty_space() {
    let floor = sample_floor();
    let mut surface = TileSurface::new();
    overwrite_column(&mut surface, &PALETTES, 0, 32, &floor);
    for row in 0..20 {
        assert_eq!(surface.get(0, row), shown(3));
    }
}

#[test]
fn first_view_of_a_narrow_floor() {
    let floor = sample_floor();
    let mut surface = TileSurface::new();
    load_initial_floor_view(&mut surface, &PALETTES, &floor, 0);
    let top = [shown(0), shown(2), shown(2), shown(0)];
    let low = [shown(3), shown(2), shown(1), shown(0)];
    for column in 0..32 {
        for row in 0..20 {
            let expected = if column >= 4 {
                None
            } else if row == 0 {
                top[column]
            } else if row == 1 {
                low[column]
            } else {
                shown(3)
            };
            assert_eq!(surface.get(column, row), expected);
        }
    }
}

#[test]
fn first_view_puts_each_column_at_its_number() {
    let floor = striped_floor(40, 3);
    let kinds = [0u16, 1, 2];
    let mut surface = TileSurface::new();
    load_initial_floor_view(&mut surface, &PALETTES, &floor, 40);
    for column in 0..32 {
        let floor_column = if column >= 5 { column } else { column + 32 };
        assert_eq!(surface.get(column, 0), shown(kinds[floor_column % 3]));
        assert_eq!(surface.get(column, 2), shown(kinds[floor_column % 3]));
        assert_eq!(surface.get(column, 3), shown(3));
    }
}

#[test]
fn first_view_is_what_a_redraw_of_each_column_gives() {
    let floor = striped_floor(200, 2);
    for left_tile in [0u16, 1, 5, 31, 32, 33, 100, 168] {
        let mut loaded = TileSurface::new();
        load_initial_floor_view(&mut loaded, &PALETTES, &floor, left_tile * 8 + 3);
        let mut redrawn = TileSurface::new();
        for floor_column in left_tile as usize..left_tile as usize + 32 {
            overwrite_column(&mut redrawn, &PALETTES, floor_column % 32, floor_column, &floor);
        }
        for column in 0..32 {
            for row in 0..20 {
                assert_eq!(loaded.get(column, row), redrawn.get(column, row));
            }
        }
    }
}

#[test]
fn first_view_is_cut_at_the_floor() {
    let floor = striped_floor(40, 3);
    let kinds = [0u16, 1, 2];
    let mut surface = TileSurface::new();
    load_initial_floor_view(&mut surface, &PALETTES, &floor, 83);
    for column in 0..32 {
        let expected = if column >= 10 {
            shown(kinds[column % 3])
        } else if column < 8 {
            shown(kinds[(column + 32) % 3])
        } else {
            None
        };
        assert_eq!(surface.get(column, 1), expected);
    }
}

#[test]
fn first_view_keeps_what_it_does_not_draw() {
    let floor = striped_floor(32, 1);
    let mut surface = TileSurface::new();
    overwrite_column(&mut surface, &PALETTES, 0, 2, &floor);
    load_initial_floor_view(&mut surface, &PALETTES, &floor, 8);
    assert_eq!(surface.get(0, 0), shown(2));
    assert_eq!(surface.get(1, 0), shown(1));
    assert_eq!(surface.get(16, 0), shown(1));
    assert_eq!(surface.get(31, 0), shown(1));
    assert_eq!(surface.get(30, 0), shown(0));
}

#[test]
fn first_view_beyond_the_floor_draws_nothing() {
    let floor = sample_floor();
    let mut surface = TileSurface::new();
    load_initial_floor_view(&mut surface, &PALETTES, &floor, 32);
    for column in 0..32 {
        assert_eq!(surface.get(column, 0), None);
    }
}
