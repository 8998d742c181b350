//! Core of a 2D grid-based puzzle game: a player slides across tile levels
//! containing walls, floors and color-gated doors/lasers, pressure panels
//! that attach movement side effects, and level-exit triggers.
//!
//! Everything here is pure simulation state: rendering, audio, asset loading
//! and input sampling live outside the library and talk to it through plain
//! values (intents in, notifications and tween requests out).

pub mod actions;
pub mod color;
pub mod death;
pub mod effects;
pub mod gating;
pub mod grid;
pub mod lasers;
pub mod movement;
pub mod notifications;
pub mod panel;
pub mod player;
pub mod tiles;
pub mod transition;
pub mod wasd;
pub mod world;

use vstd::prelude::*;

verus! {

/// A discrete cell position in a level's movement lattice.
///
/// Equality of the two integer fields is the sole identity used by
/// position-based logic (panel contact, gate collision, finish detection).
#[derive(Clone, Copy, Debug, PartialEq, Eq, Structural)]
pub struct GridCoords {
    pub x: i32,
    pub y: i32,
}

impl GridCoords {
    pub fn new(x: i32, y: i32) -> (r: GridCoords)
        ensures
            r == (GridCoords { x, y }),
    {
        GridCoords { x, y }
    }

    /// Converts a level-data cell position, whose rows count downwards
    /// from the top, to a grid coordinate, whose rows count upwards.
    pub fn from_level_cell(x: i32, y_down: i32, height: i32) -> (r: GridCoords)
        requires
            0 <= y_down < height,
        ensures
            r == (GridCoords { x, y: (height - 1 - y_down) as i32 }),
    {
        GridCoords { x, y: height - 1 - y_down }
    }
}

} // verus!
