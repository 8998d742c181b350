//! The movement state machine: resolving a directional intent into grid
//! cell transitions, respecting walls, door/laser gating and side effects.

use vstd::prelude::*;
use crate::GridCoords;
use crate::actions::{spec_delta, MovementDirection};
use crate::color::ColorControl;
use crate::effects::SideEffect;
use crate::gating::{is_passable, spec_is_passable};
use crate::grid::TileIndex;

verus! {

/// The per-actor movement state. An actor accepts a new intent only while
/// `Idle`; a slide in flight blocks re-triggering.
#[derive(Debug, Clone, Copy, PartialEq, Eq, Structural)]
pub enum MovementState {
    Idle,
    Moving(MovementDirection),
    MultiMoving { direction: MovementDirection, left: u32 },
}

impl Default for MovementState {
    fn default() -> (r: MovementState)
        ensures
            r == MovementState::Idle,
    {
        MovementState::Idle
    }
}

/// Whether a slide is in flight (any state but `Idle`).
pub open spec fn spec_is_moving(s: MovementState) -> bool {
    !(s is Idle)
}

/// The state invariant: while multi-moving, at least one step remains.
pub open spec fn spec_state_wf(s: MovementState) -> bool {
    match s {
        MovementState::MultiMoving { direction, left } => left >= 1,
        _ => true,
    }
}

/// What a side effect makes of the default `Moving` target state at
/// intent time: a disabled direction suppresses the movement, a
/// multi-move upgrades it to a counted slide, and an effect never starts
/// a movement on its own.
pub open spec fn spec_transform_movement_state(e: SideEffect, s: MovementState) -> MovementState {
    match e {
        SideEffect::NoEffect => s,
        SideEffect::DisabledMovement => MovementState::Idle,
        SideEffect::MultiMove(count) => match s {
            MovementState::MultiMoving { direction, left } => MovementState::MultiMoving {
                direction,
                left,
            },
            MovementState::Moving(direction) => MovementState::MultiMoving {
                direction,
                left: count,
            },
            MovementState::Idle => MovementState::Idle,
        },
    }
}

impl SideEffect {
    /// Applies this side effect to the movement state an intent would
    /// otherwise produce.
    pub fn transform_movement_state(&self, movement_state: MovementState) -> (r: MovementState)
        ensures
            r == spec_transform_movement_state(*self, movement_state),
    {
        match self {
            SideEffect::NoEffect => movement_state,
            SideEffect::DisabledMovement => MovementState::Idle,
            SideEffect::MultiMove(count) => match movement_state {
                MovementState::MultiMoving { direction, left } => MovementState::MultiMoving {
                    direction,
                    left,
                },
                MovementState::Moving(direction) => MovementState::MultiMoving {
                    direction,
                    left: *count,
                },
                MovementState::Idle => MovementState::Idle,
            },
        }
    }
}

/// The mathematical x coordinate one step from `c` in direction `d`.
pub open spec fn spec_target_x(c: GridCoords, d: MovementDirection) -> int {
    c.x + spec_delta(d).0
}

/// The mathematical y coordinate one step from `c` in direction `d`.
pub open spec fn spec_target_y(c: GridCoords, d: MovementDirection) -> int {
    c.y + spec_delta(d).1
}

/// The coordinate one step from `c` in direction `d` (meaningful whenever
/// the target lies on the grid, which bounds it well inside `i32`).
pub open spec fn spec_stepped(c: GridCoords, d: MovementDirection) -> GridCoords {
    GridCoords { x: spec_target_x(c, d) as i32, y: spec_target_y(c, d) as i32 }
}

/// Whether the cell one step from `c` in direction `d` exists and is
/// passable under the current gating inputs.
pub open spec fn spec_move_allowed(
    tiles: TileIndex,
    c: GridCoords,
    d: MovementDirection,
    color: ColorControl,
    plates: Seq<crate::panel::PressurePlate>,
) -> bool {
    match tiles.spec_tile_at(spec_target_x(c, d), spec_target_y(c, d)) {
        Some(tile) => spec_is_passable(tile, color, plates),
        None => false,
    }
}

/// One attempted slide: a moving state either commits the coordinate to
/// the adjacent cell (state unchanged) or, when the target is absent, a
/// wall, or gated shut, collapses to `Idle` with the coordinate untouched.
pub open spec fn spec_apply_movement(
    state: MovementState,
    c: GridCoords,
    tiles: TileIndex,
    color: ColorControl,
    plates: Seq<crate::panel::PressurePlate>,
) -> (MovementState, GridCoords) {
    match state {
        MovementState::Idle => (state, c),
        MovementState::Moving(d) => {
            if spec_move_allowed(tiles, c, d, color, plates) {
                (state, spec_stepped(c, d))
            } else {
                (MovementState::Idle, c)
            }
        },
        MovementState::MultiMoving { direction: d, left } => {
            if spec_move_allowed(tiles, c, d, color, plates) {
                (state, spec_stepped(c, d))
            } else {
                (MovementState::Idle, c)
            }
        },
    }
}

impl MovementState {
    /// Whether a slide is in flight.
    pub fn is_moving(&self) -> (r: bool)
        ensures
            r == spec_is_moving(*self),
    {
        match self {
            MovementState::Idle => false,
            MovementState::Moving(_) => true,
            MovementState::MultiMoving { .. } => true,
        }
    }

    /// Attempts the slide this state is committed to: commits `coords` to
    /// the adjacent cell if it exists and is passable, else collapses the
    /// state to `Idle` and leaves `coords` untouched.
    pub fn apply_movement(
        &mut self,
        coords: &mut GridCoords,
        tiles: &TileIndex,
        color: ColorControl,
        plates: &Vec<crate::panel::PressurePlate>,
    )
        requires
            tiles.wf(),
        ensures
            (*final(self), *final(coords)) == spec_apply_movement(
                *old(self),
                *old(coords),
                *tiles,
                color,
                plates@,
            ),
    {
        let direction_opt = match *self {
            MovementState::Idle => None,
            MovementState::Moving(d) => Some(d),
            MovementState::MultiMoving { direction, .. } => Some(direction),
        };
        match direction_opt {
            None => {},
            Some(d) => {
                let (dx, dy) = d.delta();
                let tx = coords.x as i64 + dx as i64;
                let ty = coords.y as i64 + dy as i64;
                let blocked = match tiles.tile_at_signed(tx, ty) {
                    None => true,
                    Some(tile) => !is_passable(&tile, color, plates),
                };
                if blocked {
                    *self = MovementState::Idle;
                } else {
                    *coords = GridCoords { x: tx as i32, y: ty as i32 };
                }
            },
        }
    }
}

/// The tag and mirroring of the sprite animation a movement state calls
/// for, given the player's active color.
pub struct AnimationInfo {
    pub tag_name: &'static str,
    pub flip_x: bool,
}

/// The animation tag for a movement state and color: idle and downward or
/// sideways walks are color-specific, the upward walk is shared.
pub open spec fn spec_anim_tag(s: MovementState, color: ColorControl) -> Seq<char> {
    match s {
        MovementState::Idle => {
            if color is Red {
                "red_idle"@
            } else {
                "blue_idle"@
            }
        },
        MovementState::Moving(d) => spec_walk_tag(d, color),
        MovementState::MultiMoving { direction, left } => spec_walk_tag(direction, color),
    }
}

/// The walking animation tag for a direction and color; left and right
/// share the sideways tag, with leftward movement mirrored.
pub open spec fn spec_walk_tag(d: MovementDirection, color: ColorControl) -> Seq<char> {
    match d {
        MovementDirection::Up => "walk_up"@,
        MovementDirection::Down => {
            if color is Red {
                "red_walk_down"@
            } else {
                "blue_walk_down"@
            }
        },
        _ => {
            if color is Red {
                "red_walk_right"@
            } else {
                "blue_walk_right"@
            }
        },
    }
}

/// Whether the sprite is mirrored: only while sliding leftwards.
pub open spec fn spec_anim_flip(s: MovementState) -> bool {
    match s {
        MovementState::Moving(MovementDirection::Left) => true,
        MovementState::MultiMoving { direction: MovementDirection::Left, left } => true,
        _ => false,
    }
}

impl MovementState {
    /// The animation this state calls for under the given color.
    pub fn anim_info(&self, color_control: &ColorControl) -> (r: AnimationInfo)
        ensures
            r.tag_name@ == spec_anim_tag(*self, *color_control),
            r.flip_x == spec_anim_flip(*self),
    {
        let tag_name: &'static str = match self {
            MovementState::Idle => match color_control {
                ColorControl::Red => "red_idle",
                ColorControl::Blue => "blue_idle",
            },
            MovementState::Moving(direction) => Self::walk_tag(*direction, color_control),
            MovementState::MultiMoving { direction, .. } => Self::walk_tag(
                *direction,
                color_control,
            ),
        };
        let flip_x = match self {
            MovementState::Idle => false,
            MovementState::Moving(direction) => matches!(direction, MovementDirection::Left),
            MovementState::MultiMoving { direction, .. } => matches!(
                direction,
                MovementDirection::Left,
            ),
        };
        AnimationInfo { tag_name, flip_x }
    }

    /// The walking tag for one direction under the given color.
    fn walk_tag(direction: MovementDirection, color_control: &ColorControl) -> (r: &'static str)
        ensures
            r@ == spec_walk_tag(direction, *color_control),
    {
        match direction {
            MovementDirection::Up => "walk_up",
            MovementDirection::Down => match color_control {
                ColorControl::Red => "red_walk_down",
                ColorControl::Blue => "blue_walk_down",
            },
            MovementDirection::Left => match color_control {
                ColorControl::Red => "red_walk_right",
                ColorControl::Blue => "blue_walk_right",
            },
            MovementDirection::Right => match color_control {
                ColorControl::Red => "red_walk_right",
                ColorControl::Blue => "blue_walk_right",
            },
        }
    }
}

} // verus!
