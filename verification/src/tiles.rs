//! Tile kinds occupying grid cells: walls, floors and colored gates
//! (doors/lasers), plus the decoding of the level grid layer's integer codes.

use vstd::prelude::*;

verus! {

/// Marker for a walkable cell.
#[derive(Clone, Copy, Debug, PartialEq, Eq, Structural)]
pub struct Floor;

/// Marker for an impassable cell.
#[derive(Clone, Copy, Debug, PartialEq, Eq, Structural)]
pub struct Wall;

/// The color channel of a door/laser gate.
#[derive(Debug, Clone, Copy, PartialEq, Eq, Structural)]
pub enum LaserType {
    Red,
    Green,
    Blue,
}

impl Default for LaserType {
    fn default() -> (r: LaserType)
        ensures
            r == LaserType::Red,
    {
        LaserType::Red
    }
}

impl LaserType {
    /// The display name of the color channel.
    pub fn name(&self) -> (r: &'static str)
        ensures
            self is Red ==> r@ == "Red"@,
            self is Green ==> r@ == "Green"@,
            self is Blue ==> r@ == "Blue"@,
    {
        match self {
            LaserType::Red => "Red",
            LaserType::Green => "Green",
            LaserType::Blue => "Blue",
        }
    }
}

/// A colored gate occupying a cell. `is_open` is recomputed every tick from
/// the gating policy, never structurally mutated otherwise.
#[derive(Clone, Copy, Debug, PartialEq, Eq, Structural)]
pub struct Laser {
    pub laser_type: LaserType,
    pub is_open: bool,
}

impl Laser {
    /// A fresh gate of the given color, closed until the gating policy
    /// first recomputes it.
    pub fn new(laser_type: LaserType) -> (r: Laser)
        ensures
            r == (Laser { laser_type, is_open: false }),
    {
        Laser { laser_type, is_open: false }
    }
}

/// What occupies one grid cell. Walls and floors are immutable for the
/// level's lifetime; a door/laser carries its recomputed `is_open` flag.
#[derive(Clone, Copy, Debug, PartialEq, Eq, Structural)]
pub enum TileKind {
    Wall,
    Floor,
    Door(Laser),
}

/// The components spawned for a floor cell of the grid layer.
pub struct FloorBundle {
    pub floor: Floor,
}

/// The components spawned for a wall cell of the grid layer.
pub struct WallBundle {
    pub wall: Wall,
}

/// The components spawned for a door/laser cell of the grid layer.
pub struct DoorBundle {
    pub door: Laser,
}

impl DoorBundle {
    /// The door components a grid-layer cell code spawns, or nothing for
    /// a code that names no door color: level loading treats that as the
    /// fatal configuration error it is, rather than guessing.
    pub fn bundle_int_cell(value: i32) -> (r: Option<DoorBundle>)
        ensures
            value == 3 ==> (r matches Some(b) && b.door == Laser {
                laser_type: LaserType::Red,
                is_open: false,
            }),
            value == 4 ==> (r matches Some(b) && b.door == Laser {
                laser_type: LaserType::Green,
                is_open: false,
            }),
            value == 5 ==> (r matches Some(b) && b.door == Laser {
                laser_type: LaserType::Blue,
                is_open: false,
            }),
            (value != 3 && value != 4 && value != 5) ==> r is None,
    {
        let laser_type = match value {
            3 => Some(LaserType::Red),
            4 => Some(LaserType::Green),
            5 => Some(LaserType::Blue),
            _ => None,
        };
        match laser_type {
            Some(t) => Some(DoorBundle { door: Laser::new(t) }),
            None => None,
        }
    }
}

/// All tile components together, for cells that carry every marker.
pub struct TileBundle {
    pub floor: Floor,
    pub wall: Wall,
    pub door: Laser,
}

/// The tile kind a grid-layer integer code decodes to: 1 is a wall, 2 a
/// floor, and 3/4/5 a Red/Green/Blue gate; anything else is level-data
/// corruption and decodes to nothing.
pub open spec fn spec_tile_kind_from_code(code: i32) -> Option<TileKind> {
    if code == 1 {
        Some(TileKind::Wall)
    } else if code == 2 {
        Some(TileKind::Floor)
    } else if code == 3 {
        Some(TileKind::Door(Laser { laser_type: LaserType::Red, is_open: false }))
    } else if code == 4 {
        Some(TileKind::Door(Laser { laser_type: LaserType::Green, is_open: false }))
    } else if code == 5 {
        Some(TileKind::Door(Laser { laser_type: LaserType::Blue, is_open: false }))
    } else {
        None
    }
}

/// Decodes one grid-layer integer code. An unrecognized code yields `None`,
/// which level loading treats as a fatal configuration error: guessing a
/// kind would produce an unplayable level.
pub fn tile_kind_from_code(code: i32) -> (r: Option<TileKind>)
    ensures
        r == spec_tile_kind_from_code(code),
{
    match code {
        1 => Some(TileKind::Wall),
        2 => Some(TileKind::Floor),
        3 => Some(TileKind::Door(Laser::new(LaserType::Red))),
        4 => Some(TileKind::Door(Laser::new(LaserType::Green))),
        5 => Some(TileKind::Door(Laser::new(LaserType::Blue))),
        _ => None,
    }
}

} // verus!
