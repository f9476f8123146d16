//! Logic core of a tile-based snake game: a bounded grid world with a
//! procedurally generated perimeter wall, a closed registry of tile kinds
//! mapped to sprite-sheet indices, a single player-controlled agent, and a
//! mapper from directional key input to a normalized movement vector.
//!
//! Rendering, physics, asset loading and scheduling are external
//! collaborators: this crate only defines the data and algorithms they
//! consume, as pure functions over plain values.

use vstd::prelude::*;

pub mod error;
pub mod grid;
pub mod snake;
pub mod terrain;
pub mod tiles;
pub mod world;

verus! {

/// Width of the default world, in cells.
pub const WORLD_W: usize = 30;

/// Height of the default world, in cells.
pub const WORLD_H: usize = 30;

/// Width of one sprite-sheet frame, in pixels.
pub const TILE_W: usize = 16;

/// Height of one sprite-sheet frame, in pixels.
pub const TILE_H: usize = 16;

/// Number of frames in the sprite sheet, laid out in a single row and
/// indexed by the codes of `tiles::TileKind`.
pub const SPRITE_SHEET_FRAMES: usize = 6;

} // verus!
