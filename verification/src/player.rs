//! The player actor: grid position, movement state, color toggle and
//! side-effect table, with the intent handling and slide continuation of
//! the movement state machine.

use vstd::prelude::*;
use crate::GridCoords;
use crate::actions::MovementDirection;
use crate::color::ColorControl;
use crate::effects::{spec_effect_of, spec_no_effects, MovementSideEffects, SideEffect};
use crate::grid::TileIndex;
use crate::movement::{
    spec_apply_movement, spec_is_moving, spec_move_allowed, spec_state_wf, spec_stepped,
    spec_transform_movement_state, MovementState,
};
use crate::panel::PressurePlate;
use crate::tiles::TileKind;

verus! {

/// The player actor. Created fresh (at the spawn cell, idle, blue, with an
/// empty side-effect table) on every level spawn and respawn: no effect
/// persists across a respawn.
#[derive(Debug, Clone, Copy, PartialEq, Eq, Structural)]
pub struct Player {
    pub grid_coords: GridCoords,
    pub movement_state: MovementState,
    pub color_control: ColorControl,
    pub side_effects: MovementSideEffects,
}

/// The freshly created actor at a spawn cell.
pub open spec fn spec_fresh_player(spawn: GridCoords) -> Player {
    Player {
        grid_coords: spawn,
        movement_state: MovementState::Idle,
        color_control: ColorControl::Blue,
        side_effects: spec_no_effects(),
    }
}

/// The actor with its color toggle flipped and all else unchanged.
pub open spec fn spec_player_color_switched(p: Player) -> Player {
    Player { color_control: crate::color::spec_switched(p.color_control), ..p }
}

/// The actor after one intent: a slide in flight drops the intent
/// entirely; otherwise the direction's side effect shapes the target
/// state and the first cell transition is attempted at once.
pub open spec fn spec_handle_intent(
    p: Player,
    d: MovementDirection,
    tiles: TileIndex,
    plates: Seq<PressurePlate>,
) -> Player {
    if spec_is_moving(p.movement_state) {
        p
    } else {
        let target_state = spec_transform_movement_state(
            spec_effect_of(p.side_effects, d),
            MovementState::Moving(d),
        );
        let (s2, c2) = spec_apply_movement(
            target_state,
            p.grid_coords,
            tiles,
            p.color_control,
            plates,
        );
        Player { movement_state: s2, grid_coords: c2, ..p }
    }
}

/// The actor after one completed slide tween: a plain slide comes to
/// rest; a multi-move with more than one step left re-runs the cell
/// transition, collapsing to `Idle` at once if blocked (remaining steps
/// are forfeited, not queued), and otherwise continues with one step
/// fewer; a multi-move on its last step comes to rest.
pub open spec fn spec_next_movement_state(
    p: Player,
    tiles: TileIndex,
    plates: Seq<PressurePlate>,
) -> Player {
    match p.movement_state {
        MovementState::Idle => p,
        MovementState::Moving(d) => Player { movement_state: MovementState::Idle, ..p },
        MovementState::MultiMoving { direction: d, left } => {
            if left > 1 {
                let (s2, c2) = spec_apply_movement(
                    p.movement_state,
                    p.grid_coords,
                    tiles,
                    p.color_control,
                    plates,
                );
                if s2 is Idle {
                    Player { movement_state: MovementState::Idle, ..p }
                } else {
                    Player {
                        movement_state: MovementState::MultiMoving {
                            direction: d,
                            left: (left - 1) as u32,
                        },
                        grid_coords: c2,
                        ..p
                    }
                }
            } else {
                Player { movement_state: MovementState::Idle, ..p }
            }
        },
    }
}

impl Player {
    /// A fresh actor at the spawn cell: idle, blue, no side effects.
    pub fn new(spawn: GridCoords) -> (r: Player)
        ensures
            r == spec_fresh_player(spawn),
    {
        Player {
            grid_coords: spawn,
            movement_state: MovementState::Idle,
            color_control: ColorControl::Blue,
            side_effects: MovementSideEffects::new(),
        }
    }

    /// Resolves one directional intent. Rejected as a no-op while a slide
    /// is in flight; otherwise the direction's side effect picks the
    /// target state (disabled stays idle, multi-move starts a counted
    /// slide) and the first cell transition is attempted at once, aborting
    /// back to `Idle` if the target cell is absent, a wall, or gated shut.
    pub fn handle_intent(
        &mut self,
        direction: MovementDirection,
        tiles: &TileIndex,
        plates: &Vec<PressurePlate>,
    )
        requires
            tiles.wf(),
        ensures
            *final(self) == spec_handle_intent(*old(self), direction, *tiles, plates@),
    {
        if self.movement_state.is_moving() {
            return ;
        }
        let default_movement = MovementState::Moving(direction);
        let effect = self.side_effects.get(direction);
        self.movement_state = effect.transform_movement_state(default_movement);
        let mut state = self.movement_state;
        let mut coords = self.grid_coords;
        state.apply_movement(&mut coords, tiles, self.color_control, plates);
        self.movement_state = state;
        self.grid_coords = coords;
    }

    /// Reacts to one completed slide tween: a plain slide comes to rest;
    /// a multi-move either continues (one step fewer), collapses to
    /// `Idle` at once when blocked, or comes to rest on its last step.
    pub fn next_movement_state(&mut self, tiles: &TileIndex, plates: &Vec<PressurePlate>)
        requires
            tiles.wf(),
        ensures
            *final(self) == spec_next_movement_state(*old(self), *tiles, plates@),
    {
        match self.movement_state {
            MovementState::Idle => {},
            MovementState::Moving(_) => {
                self.movement_state = MovementState::Idle;
            },
            MovementState::MultiMoving { direction, left } => {
                if left > 1 {
                    let mut state = self.movement_state;
                    let mut coords = self.grid_coords;
                    state.apply_movement(&mut coords, tiles, self.color_control, plates);
                    if matches!(state, MovementState::Idle) {
                        self.movement_state = MovementState::Idle;
                    } else {
                        self.movement_state = MovementState::MultiMoving {
                            direction,
                            left: left - 1,
                        };
                        self.grid_coords = coords;
                    }
                } else {
                    self.movement_state = MovementState::Idle;
                }
            },
        }
    }
}

/// Wall impermeability: an intent whose target cell is a wall never
/// changes the actor's coordinate (and leaves the actor idle if it was),
/// and a slide continuation against a wall never changes it either.
pub proof fn lemma_wall_blocks(
    p: Player,
    d: MovementDirection,
    tiles: TileIndex,
    plates: Seq<PressurePlate>,
)
    requires
        tiles.spec_tile_at(
            crate::movement::spec_target_x(p.grid_coords, d),
            crate::movement::spec_target_y(p.grid_coords, d),
        ) == Some(TileKind::Wall),
    ensures
        spec_handle_intent(p, d, tiles, plates).grid_coords == p.grid_coords,
        !spec_is_moving(spec_handle_intent(p, d, tiles, plates).movement_state) || spec_is_moving(
            p.movement_state,
        ),
{
}

/// A slide continuation whose next cell is a wall forfeits the remaining
/// steps: the actor comes to rest where it is.
pub proof fn lemma_wall_blocks_continuation(
    p: Player,
    d: MovementDirection,
    left: u32,
    tiles: TileIndex,
    plates: Seq<PressurePlate>,
)
    requires
        p.movement_state == (MovementState::MultiMoving { direction: d, left }),
        tiles.spec_tile_at(
            crate::movement::spec_target_x(p.grid_coords, d),
            crate::movement::spec_target_y(p.grid_coords, d),
        ) == Some(TileKind::Wall),
    ensures
        spec_next_movement_state(p, tiles, plates).grid_coords == p.grid_coords,
        spec_next_movement_state(p, tiles, plates).movement_state == MovementState::Idle,
{
}

/// Idle re-entrancy: while a slide is in flight, a further intent is
/// dropped without any change, so the second of two intents issued in the
/// same tick has no effect once the first has committed a movement.
pub proof fn lemma_moving_drops_intent(
    p: Player,
    d: MovementDirection,
    tiles: TileIndex,
    plates: Seq<PressurePlate>,
)
    requires
        spec_is_moving(p.movement_state),
    ensures
        spec_handle_intent(p, d, tiles, plates) == p,
{
}

/// Multi-move exhaustion: from rest, with a `MultiMove(3)` effect on the
/// intended direction and three unobstructed cells ahead, the intent and
/// the following slide completions produce exactly three single-cell
/// advances in that direction and leave the actor idle.
pub proof fn lemma_multi_move_exhaustion(
    p: Player,
    d: MovementDirection,
    tiles: TileIndex,
    plates: Seq<PressurePlate>,
)
    requires
        tiles.wf(),
        !spec_is_moving(p.movement_state),
        spec_effect_of(p.side_effects, d) == SideEffect::MultiMove(3u32),
        spec_move_allowed(tiles, p.grid_coords, d, p.color_control, plates),
        spec_move_allowed(tiles, spec_stepped(p.grid_coords, d), d, p.color_control, plates),
        spec_move_allowed(
            tiles,
            spec_stepped(spec_stepped(p.grid_coords, d), d),
            d,
            p.color_control,
            plates,
        ),
    ensures
        ({
            let p1 = spec_handle_intent(p, d, tiles, plates);
            let p2 = spec_next_movement_state(p1, tiles, plates);
            let p3 = spec_next_movement_state(p2, tiles, plates);
            let p4 = spec_next_movement_state(p3, tiles, plates);
            &&& p1.grid_coords == spec_stepped(p.grid_coords, d)
            &&& p2.grid_coords == spec_stepped(spec_stepped(p.grid_coords, d), d)
            &&& p3.grid_coords == spec_stepped(spec_stepped(spec_stepped(p.grid_coords, d), d), d)
            &&& p4.grid_coords == p3.grid_coords
            &&& p1.movement_state == (MovementState::MultiMoving { direction: d, left: 3u32 })
            &&& p2.movement_state == (MovementState::MultiMoving { direction: d, left: 2u32 })
            &&& p3.movement_state == (MovementState::MultiMoving { direction: d, left: 1u32 })
            &&& p4.movement_state == MovementState::Idle
        }),
{
}

/// Intent handling keeps the movement-state invariant (at least one step
/// left while multi-moving), provided every multi-move entry of the
/// side-effect table carries a count of at least one.
pub proof fn lemma_handle_intent_keeps_state_wf(
    p: Player,
    d: MovementDirection,
    tiles: TileIndex,
    plates: Seq<PressurePlate>,
)
    requires
        spec_state_wf(p.movement_state),
        (match spec_effect_of(p.side_effects, d) {
            SideEffect::MultiMove(n) => n >= 1,
            _ => true,
        }),
    ensures
        spec_state_wf(spec_handle_intent(p, d, tiles, plates).movement_state),
{
}

/// Side effects on different directions are independent: an intent's
/// outcome depends only on the entry for the attempted direction, so two
/// actors whose tables agree there move identically, whatever the other
/// entries hold.
pub proof fn lemma_only_attempted_direction_applies(
    p: Player,
    other_effects: MovementSideEffects,
    d: MovementDirection,
    tiles: TileIndex,
    plates: Seq<PressurePlate>,
)
    requires
        spec_effect_of(p.side_effects, d) == spec_effect_of(other_effects, d),
    ensures
        ({
            let q = Player { side_effects: other_effects, ..p };
            let r1 = spec_handle_intent(p, d, tiles, plates);
            let r2 = spec_handle_intent(q, d, tiles, plates);
            &&& r1.grid_coords == r2.grid_coords
            &&& r1.movement_state == r2.movement_state
            &&& r1.color_control == r2.color_control
        }),
{
}

/// Respawn resets state: the freshly created actor of a respawn rests
/// idle with an empty side-effect table and the default color, whatever
/// effects the previous actor had accumulated.
pub proof fn lemma_respawn_resets_state(spawn: GridCoords)
    ensures
        spec_fresh_player(spawn).movement_state == MovementState::Idle,
        spec_fresh_player(spawn).side_effects == spec_no_effects(),
        spec_fresh_player(spawn).color_control == ColorControl::Blue,
        spec_fresh_player(spawn).grid_coords == spawn,
{
}

/// A slide continuation keeps the movement-state invariant.
pub proof fn lemma_next_state_keeps_state_wf(
    p: Player,
    tiles: TileIndex,
    plates: Seq<PressurePlate>,
)
    ensures
        spec_state_wf(spec_next_movement_state(p, tiles, plates).movement_state),
{
}

} // verus!
