//! Tile-grid dungeon floor: tile kinds, the floor resource decoder, grid
//! movement and the scrolling camera.

pub mod tile;
pub mod floor;
pub mod game;
pub mod spawn;
pub mod camera;
pub mod surface;
pub mod session;
pub mod color;
