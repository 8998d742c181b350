//! The per-direction movement indicator widget state: which key it stands
//! for and whether its direction is currently forbidden. The widget's
//! colors and layout live with the UI; only the decisions live here.

use vstd::prelude::*;
use crate::actions::MovementDirection;
use crate::effects::{spec_effect_of, MovementSideEffects, SideEffect};

verus! {

/// One movement-key indicator: the direction it stands for and whether
/// that direction is currently forbidden by a side effect.
#[derive(Debug, Clone, Copy, PartialEq, Eq, Structural)]
pub struct Wasd {
    pub player_movement: MovementDirection,
    pub forbidden: bool,
}

/// The key label of a direction indicator.
pub open spec fn spec_wasd_text(d: MovementDirection) -> Seq<char> {
    match d {
        MovementDirection::Up => "W"@,
        MovementDirection::Down => "S"@,
        MovementDirection::Left => "A"@,
        MovementDirection::Right => "D"@,
    }
}

impl Wasd {
    /// The key label shown on this indicator.
    pub fn text(&self) -> (r: &'static str)
        ensures
            r@ == spec_wasd_text(self.player_movement),
    {
        match self.player_movement {
            MovementDirection::Up => "W",
            MovementDirection::Down => "S",
            MovementDirection::Left => "A",
            MovementDirection::Right => "D",
        }
    }

    /// Restyles the indicator from the actor's side-effect table: its
    /// direction is marked forbidden exactly when the table disables it.
    pub fn set_forbidden_from(&mut self, effects: &MovementSideEffects)
        ensures
            final(self).player_movement == old(self).player_movement,
            final(self).forbidden == (spec_effect_of(*effects, old(self).player_movement)
                is DisabledMovement),
    {
        self.forbidden = match effects.get(self.player_movement) {
            SideEffect::NoEffect => false,
            SideEffect::DisabledMovement => true,
            SideEffect::MultiMove(_) => false,
        };
    }
}

impl From<MovementDirection> for Wasd {
    /// A fresh indicator for a direction: not forbidden.
    fn from(player_movement: MovementDirection) -> (r: Wasd) {
        Wasd { player_movement, forbidden: false }
    }
}

impl vstd::std_specs::convert::FromSpecImpl<MovementDirection> for Wasd {
    open spec fn obeys_from_spec() -> bool {
        true
    }

    open spec fn from_spec(player_movement: MovementDirection) -> Wasd {
        Wasd { player_movement, forbidden: false }
    }
}

} // verus!
