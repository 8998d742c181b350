//! Decisions behind the laser sprites: decoding a laser entity's axis and
//! color fields, the idle animation tag per color, and whether the sprite
//! at a cell shows (a gate's beam shows exactly while it is shut).

use vstd::prelude::*;
use vstd::string::StringExecFns;
use crate::GridCoords;
use crate::grid::TileIndex;
use crate::tiles::{LaserType, TileKind};

verus! {

/// The orientation a laser entity declares.
#[derive(Debug, Clone, Copy, PartialEq, Eq, Structural)]
pub enum LaserAxis {
    Horizontal,
    Vertical,
}

/// Decodes one axis field value ("Horizontal" or "Vertical"); any other
/// string is malformed level data and decodes to nothing.
pub open spec fn spec_parse_laser_axis(s: Seq<char>) -> Option<LaserAxis> {
    if s == "Horizontal"@ {
        Some(LaserAxis::Horizontal)
    } else if s == "Vertical"@ {
        Some(LaserAxis::Vertical)
    } else {
        None
    }
}

/// Decodes a laser entity's axis enum string; an unrecognized value
/// yields `None`, so that entity simply shows no laser, never an abort.
pub fn parse_laser_axis(s: &String) -> (r: Option<LaserAxis>)
    ensures
        r == spec_parse_laser_axis(s@),
{
    if s.eq(&String::from_str("Horizontal")) {
        Some(LaserAxis::Horizontal)
    } else if s.eq(&String::from_str("Vertical")) {
        Some(LaserAxis::Vertical)
    } else {
        None
    }
}

/// The idle animation tag of a laser color.
pub open spec fn spec_laser_idle_tag(t: LaserType) -> Seq<char> {
    match t {
        LaserType::Red => "red_laser_idle"@,
        LaserType::Green => "green_laser_idle"@,
        LaserType::Blue => "blue_laser_idle"@,
    }
}

/// The idle animation tag a laser sprite of this color plays.
pub fn laser_idle_tag(t: LaserType) -> (r: &'static str)
    ensures
        r@ == spec_laser_idle_tag(t),
{
    match t {
        LaserType::Red => "red_laser_idle",
        LaserType::Green => "green_laser_idle",
        LaserType::Blue => "blue_laser_idle",
    }
}

/// Whether the beam sprite at a cell shows: a laser's beam shows exactly
/// while that laser is shut; a cell without a door/laser gives no answer.
pub open spec fn spec_laser_visible_at(tiles: TileIndex, c: GridCoords) -> Option<bool> {
    match tiles.spec_tile_at(c.x as int, c.y as int) {
        Some(TileKind::Door(laser)) => Some(!laser.is_open),
        _ => None,
    }
}

/// Decides, from the stored gate flags, whether the beam sprite on cell
/// `c` shows this tick.
pub fn laser_visible_at(tiles: &TileIndex, c: GridCoords) -> (r: Option<bool>)
    requires
        tiles.wf(),
    ensures
        r == spec_laser_visible_at(*tiles, c),
{
    match tiles.get(c) {
        Some(TileKind::Door(laser)) => Some(!laser.is_open),
        _ => None,
    }
}

} // verus!
