//! Per-actor movement side effects: a mapping from direction to one effect,
//! populated by pressure panels and reset only when the actor is recreated.

use vstd::prelude::*;
use crate::actions::MovementDirection;

verus! {

/// The movement modifier attached to one direction. `NoEffect` is the
/// behaviour of an absent entry.
#[derive(Debug, Clone, Copy, Eq, PartialEq, Structural)]
pub enum SideEffect {
    NoEffect,
    DisabledMovement,
    MultiMove(u32),
}

impl Default for SideEffect {
    fn default() -> (r: SideEffect)
        ensures
            r == SideEffect::NoEffect,
    {
        SideEffect::NoEffect
    }
}

/// The per-direction side-effect table of one actor. Entries are
/// overwritten, never merged, and absent entries behave as `NoEffect`.
#[derive(Debug, Clone, Copy, Eq, PartialEq, Structural)]
pub struct MovementSideEffects {
    pub up: SideEffect,
    pub down: SideEffect,
    pub left: SideEffect,
    pub right: SideEffect,
}

/// The entry a side-effect table holds for a direction.
pub open spec fn spec_effect_of(t: MovementSideEffects, d: MovementDirection) -> SideEffect {
    match d {
        MovementDirection::Up => t.up,
        MovementDirection::Down => t.down,
        MovementDirection::Left => t.left,
        MovementDirection::Right => t.right,
    }
}

/// The table with the entry for `d` overwritten by `e` and every other
/// direction unchanged.
pub open spec fn spec_with_effect(
    t: MovementSideEffects,
    d: MovementDirection,
    e: SideEffect,
) -> MovementSideEffects {
    match d {
        MovementDirection::Up => MovementSideEffects { up: e, ..t },
        MovementDirection::Down => MovementSideEffects { down: e, ..t },
        MovementDirection::Left => MovementSideEffects { left: e, ..t },
        MovementDirection::Right => MovementSideEffects { right: e, ..t },
    }
}

/// The empty table: every direction behaves as `NoEffect`.
pub open spec fn spec_no_effects() -> MovementSideEffects {
    MovementSideEffects {
        up: SideEffect::NoEffect,
        down: SideEffect::NoEffect,
        left: SideEffect::NoEffect,
        right: SideEffect::NoEffect,
    }
}

impl MovementSideEffects {
    /// A fresh table with no entries set.
    pub fn new() -> (r: MovementSideEffects)
        ensures
            r == spec_no_effects(),
    {
        MovementSideEffects {
            up: SideEffect::NoEffect,
            down: SideEffect::NoEffect,
            left: SideEffect::NoEffect,
            right: SideEffect::NoEffect,
        }
    }

    /// The effect in force for a direction.
    pub fn get(&self, direction: MovementDirection) -> (r: SideEffect)
        ensures
            r == spec_effect_of(*self, direction),
    {
        match direction {
            MovementDirection::Up => self.up,
            MovementDirection::Down => self.down,
            MovementDirection::Left => self.left,
            MovementDirection::Right => self.right,
        }
    }

    /// Overwrites the entry for a direction; all other directions keep
    /// their entries.
    pub fn set(&mut self, direction: MovementDirection, side_effect: SideEffect)
        ensures
            *final(self) == spec_with_effect(*old(self), direction, side_effect),
            spec_effect_of(*final(self), direction) == side_effect,
            forall|d: MovementDirection| d != direction
                ==> spec_effect_of(*final(self), d) == spec_effect_of(*old(self), d),
    {
        match direction {
            MovementDirection::Up => {
                self.up = side_effect;
            },
            MovementDirection::Down => {
                self.down = side_effect;
            },
            MovementDirection::Left => {
                self.left = side_effect;
            },
            MovementDirection::Right => {
                self.right = side_effect;
            },
        }
    }
}

impl Default for MovementSideEffects {
    fn default() -> (r: MovementSideEffects)
        ensures
            r == spec_no_effects(),
    {
        MovementSideEffects::new()
    }
}

/// Setting an entry overwrites rather than merges: after writing effect
/// `e1` and then effect `e2` for the same direction, only `e2` is in
/// force, whatever `e1` was.
pub proof fn lemma_set_overwrites(
    t: MovementSideEffects,
    d: MovementDirection,
    e1: SideEffect,
    e2: SideEffect,
)
    ensures
        spec_effect_of(spec_with_effect(spec_with_effect(t, d, e1), d, e2), d) == e2,
        forall|d2: MovementDirection| d2 != d
            ==> spec_effect_of(spec_with_effect(spec_with_effect(t, d, e1), d, e2), d2)
                == spec_effect_of(t, d2),
{
}

} // verus!
