//! The gating policy: whether a colored door/laser is passable, as a
//! function of the player's active color and the latched pressure plates.
//! One uniform rule covers all three channels: a gate of color `c` is open
//! iff the player's color resolves to `c` or some active plate opens `c`.

use vstd::prelude::*;
use crate::color::{spec_as_laser_type, ColorControl};
use crate::grid::TileIndex;
use crate::panel::PressurePlate;
use crate::tiles::{Laser, LaserType, TileKind};

verus! {

/// Whether a gate of color `laser_type` is open: the player's color
/// resolves to it, or some active plate declares it as its opened color.
pub open spec fn spec_is_open(
    laser_type: LaserType,
    color: ColorControl,
    plates: Seq<PressurePlate>,
) -> bool {
    spec_as_laser_type(color) == laser_type || exists|i: int|
        0 <= i < plates.len() && (#[trigger] plates[i]).spec_active() && plates[i].opens_laser
            == Some(laser_type)
}

/// Recomputes whether a gate of this color is currently open. Pure and
/// order-independent: identical inputs always yield the identical flag.
pub fn is_open(laser_type: LaserType, color: ColorControl, plates: &Vec<PressurePlate>) -> (r:
    bool)
    ensures
        r == spec_is_open(laser_type, color, plates@),
{
    if color.as_laser_type() == laser_type {
        return true;
    }
    let mut i: usize = 0;
    while i < plates.len()
        invariant
            0 <= i <= plates@.len(),
            forall|j: int|
                0 <= j < i ==> !((#[trigger] plates@[j]).spec_active() && plates@[j].opens_laser
                    == Some(laser_type)),
        decreases plates@.len() - i,
    {
        let matches_gate = match plates[i].opens_laser {
            Some(t) => t == laser_type,
            None => false,
        };
        if plates[i].is_active() && matches_gate {
            return true;
        }
        i = i + 1;
    }
    false
}

/// Whether a tile can be occupied: walls never, floors always, and a
/// door/laser exactly when the gating rule opens its color.
pub open spec fn spec_is_passable(
    tile: TileKind,
    color: ColorControl,
    plates: Seq<PressurePlate>,
) -> bool {
    match tile {
        TileKind::Wall => false,
        TileKind::Floor => true,
        TileKind::Door(laser) => spec_is_open(laser.laser_type, color, plates),
    }
}

/// Decides, from the current color and plate latches alone, whether the
/// tile can be occupied.
pub fn is_passable(tile: &TileKind, color: ColorControl, plates: &Vec<PressurePlate>) -> (r: bool)
    ensures
        r == spec_is_passable(*tile, color, plates@),
{
    match tile {
        TileKind::Wall => false,
        TileKind::Floor => true,
        TileKind::Door(laser) => is_open(laser.laser_type, color, plates),
    }
}

/// One cell after a gating recomputation: a door/laser carries the freshly
/// computed flag, every other tile is untouched.
pub open spec fn spec_regated_tile(
    tile: TileKind,
    color: ColorControl,
    plates: Seq<PressurePlate>,
) -> TileKind {
    match tile {
        TileKind::Door(laser) => TileKind::Door(
            Laser { laser_type: laser.laser_type, is_open: spec_is_open(laser.laser_type, color, plates) },
        ),
        _ => tile,
    }
}

/// Recomputes the `is_open` flag of every door/laser tile from the current
/// gating inputs; walls and floors are untouched. Re-running it with
/// identical inputs yields identical flags.
pub fn open_lasers(tiles: &mut TileIndex, color: ColorControl, plates: &Vec<PressurePlate>)
    requires
        old(tiles).wf(),
    ensures
        final(tiles).wf(),
        final(tiles).width == old(tiles).width,
        final(tiles).height == old(tiles).height,
        final(tiles).cells@.len() == old(tiles).cells@.len(),
        forall|j: int|
            0 <= j < old(tiles).cells@.len() ==> final(tiles).cells@[j] == spec_regated_tile(
                #[trigger] old(tiles).cells@[j],
                color,
                plates@,
            ),
{
    let n = tiles.cells.len();
    let mut i: usize = 0;
    while i < n
        invariant
            0 <= i <= n,
            n == tiles.cells@.len(),
            tiles.cells@.len() == old(tiles).cells@.len(),
            tiles.width == old(tiles).width,
            tiles.height == old(tiles).height,
            forall|j: int| i <= j < n ==> tiles.cells@[j] == old(tiles).cells@[j],
            forall|j: int|
                0 <= j < i ==> tiles.cells@[j] == spec_regated_tile(
                    #[trigger] old(tiles).cells@[j],
                    color,
                    plates@,
                ),
        decreases n - i,
    {
        match tiles.cells[i] {
            TileKind::Door(laser) => {
                let open_now = is_open(laser.laser_type, color, plates);
                tiles.cells[i] = TileKind::Door(
                    Laser { laser_type: laser.laser_type, is_open: open_now },
                );
            },
            _ => {},
        }
        i = i + 1;
    }
}

/// Gating recomputation is pure and repeatable: regating a cell that was
/// already regated under the same inputs changes nothing.
pub proof fn lemma_regating_idempotent(
    tile: TileKind,
    color: ColorControl,
    plates: Seq<PressurePlate>,
)
    ensures
        spec_regated_tile(spec_regated_tile(tile, color, plates), color, plates)
            == spec_regated_tile(tile, color, plates),
{
}

/// Gating symmetry: with no plates latched, a door of color `c` is
/// passable exactly when the player's color resolves to `c`; in
/// particular a green gate is then never passable by color alone.
pub proof fn lemma_gating_symmetry(c: LaserType, color: ColorControl, laser: Laser)
    requires
        laser.laser_type == c,
    ensures
        spec_is_passable(TileKind::Door(laser), color, Seq::empty()) <==> spec_as_laser_type(color)
            == c,
{
}

/// With no plates latched at all (not merely none declared for the color),
/// openness reduces to the color match alone, for every plate list whose
/// plates are all unlatched.
pub proof fn lemma_gating_no_active_plates(
    c: LaserType,
    color: ColorControl,
    plates: Seq<PressurePlate>,
)
    requires
        forall|i: int| 0 <= i < plates.len() ==> !(#[trigger] plates[i]).spec_active(),
    ensures
        spec_is_open(c, color, plates) <==> spec_as_laser_type(color) == c,
{
}

} // verus!
