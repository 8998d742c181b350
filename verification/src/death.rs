//! Death detection: the player occupying a gated cell whose color is shut
//! under the current gating policy, and the small machine that plays the
//! death animation before the respawn request is forwarded.

use vstd::prelude::*;
use crate::GridCoords;
use crate::color::ColorControl;
use crate::gating::spec_is_open;
use crate::grid::TileIndex;
use crate::panel::PressurePlate;
use crate::tiles::TileKind;

verus! {

/// Whether the cell at `c` kills: it holds a door/laser whose color is
/// shut under the current gating evaluation.
pub open spec fn spec_death_at(
    tiles: TileIndex,
    c: GridCoords,
    color: ColorControl,
    plates: Seq<PressurePlate>,
) -> bool {
    match tiles.spec_tile_at(c.x as int, c.y as int) {
        Some(TileKind::Door(laser)) => !spec_is_open(laser.laser_type, color, plates),
        _ => false,
    }
}

/// Decides whether the player's cell kills under the current gating
/// inputs. The caller raises the death event only when the condition
/// newly holds (after a coordinate or color change), not every tick.
pub fn check_death(
    player_coords: GridCoords,
    tiles: &TileIndex,
    color: ColorControl,
    plates: &Vec<PressurePlate>,
) -> (r: bool)
    requires
        tiles.wf(),
    ensures
        r == spec_death_at(*tiles, player_coords, color, plates@),
{
    match tiles.get(player_coords) {
        Some(TileKind::Door(laser)) => !crate::gating::is_open(laser.laser_type, color, plates),
        _ => false,
    }
}

/// The death-animation machine: the death event is forwarded only once
/// the animation has finished, and the machine re-arms once a living
/// player exists again.
#[derive(Debug, Clone, Copy, PartialEq, Eq, Structural)]
pub enum DyingState {
    /// No death in progress.
    Alive,
    /// The death animation is playing.
    Animation,
    /// The death event has been forwarded; waiting for the respawned actor.
    Dead,
}

impl Default for DyingState {
    fn default() -> (r: DyingState)
        ensures
            r == DyingState::Alive,
    {
        DyingState::Alive
    }
}

/// One step of the death-animation machine: from `Alive` a dying player
/// starts the animation; the finished animation forwards the one death
/// event; a living player re-arms the machine.
pub open spec fn spec_death_anim_step(
    s: DyingState,
    dying_present: bool,
    anim_finished: bool,
    alive_present: bool,
) -> (DyingState, bool, bool) {
    match s {
        DyingState::Alive => {
            if dying_present {
                (DyingState::Animation, true, false)
            } else {
                (DyingState::Alive, false, false)
            }
        },
        DyingState::Animation => {
            if anim_finished {
                (DyingState::Dead, false, true)
            } else {
                (DyingState::Animation, false, false)
            }
        },
        DyingState::Dead => {
            if alive_present {
                (DyingState::Alive, false, false)
            } else {
                (DyingState::Dead, false, false)
            }
        },
    }
}

impl DyingState {
    /// Advances the machine one tick. Returns `(start_animation,
    /// send_death)`: whether the death animation should start now, and
    /// whether the single death event fires this tick.
    pub fn step(&mut self, dying_present: bool, anim_finished: bool, alive_present: bool) -> (r: (
        bool,
        bool,
    ))
        ensures
            (*final(self), r.0, r.1) == spec_death_anim_step(
                *old(self),
                dying_present,
                anim_finished,
                alive_present,
            ),
    {
        match *self {
            DyingState::Alive => {
                if dying_present {
                    *self = DyingState::Animation;
                    (true, false)
                } else {
                    (false, false)
                }
            },
            DyingState::Animation => {
                if anim_finished {
                    *self = DyingState::Dead;
                    (false, true)
                } else {
                    (false, false)
                }
            },
            DyingState::Dead => {
                if alive_present {
                    *self = DyingState::Alive;
                }
                (false, false)
            },
        }
    }
}

/// The death event fires at most once per animation: only the step out of
/// `Animation` with a finished animation sends it, and that step leaves
/// `Animation`, so the same animation cannot fire twice.
pub proof fn lemma_death_event_once(
    s: DyingState,
    dying_present: bool,
    anim_finished: bool,
    alive_present: bool,
)
    ensures
        spec_death_anim_step(s, dying_present, anim_finished, alive_present).2 ==> s
            == DyingState::Animation && spec_death_anim_step(
            s,
            dying_present,
            anim_finished,
            alive_present,
        ).0 == DyingState::Dead,
{
}

} // verus!
