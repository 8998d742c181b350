//! The player-owned color toggle that drives door/laser gating.

use vstd::prelude::*;
use crate::tiles::LaserType;

verus! {

/// The player's active color: a two-valued toggle switched by an explicit
/// player action, with no intermediate state.
#[derive(Clone, Copy, Debug, PartialEq, Eq, Structural)]
pub enum ColorControl {
    Red,
    Blue,
}

impl Default for ColorControl {
    fn default() -> (r: ColorControl)
        ensures
            r == ColorControl::Blue,
    {
        ColorControl::Blue
    }
}

/// The flipped value of a color toggle.
pub open spec fn spec_switched(c: ColorControl) -> ColorControl {
    match c {
        ColorControl::Red => ColorControl::Blue,
        ColorControl::Blue => ColorControl::Red,
    }
}

/// The door/laser color a toggle value resolves to.
pub open spec fn spec_as_laser_type(c: ColorControl) -> LaserType {
    match c {
        ColorControl::Red => LaserType::Red,
        ColorControl::Blue => LaserType::Blue,
    }
}

impl ColorControl {
    /// Flips the toggle to the other color.
    pub fn switch(&mut self)
        ensures
            *final(self) == spec_switched(*old(self)),
    {
        match *self {
            ColorControl::Red => {
                *self = ColorControl::Blue;
            },
            ColorControl::Blue => {
                *self = ColorControl::Red;
            },
        }
    }

    /// The door/laser color this toggle value resolves to.
    pub fn as_laser_type(&self) -> (r: LaserType)
        ensures
            r == spec_as_laser_type(*self),
    {
        match *self {
            ColorControl::Red => LaserType::Red,
            ColorControl::Blue => LaserType::Blue,
        }
    }
}

/// Switching the color toggle is an involution: flipping twice restores
/// the original value.
pub proof fn lemma_switch_involution(c: ColorControl)
    ensures
        spec_switched(spec_switched(c)) == c,
{
}

} // verus!
