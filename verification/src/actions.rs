//! Player intents: movement directions and the per-tick action record that
//! the input-mapping collaborator hands to the simulation.

use vstd::prelude::*;

verus! {

/// The raw controls the game reacts to. The input collaborator translates
/// key presses into these; the simulation only sees the derived `Actions`.
#[derive(Debug, Clone, Copy, Eq, PartialEq, Structural)]
pub enum GameControl {
    Up,
    Down,
    Left,
    Right,
    ColorSwitch,
    LevelReset,
}

/// One of the four movement directions on the grid.
#[derive(Debug, Clone, Copy, Eq, PartialEq, Structural)]
pub enum MovementDirection {
    Up,
    Down,
    Left,
    Right,
}

/// The unit grid delta of a direction: Up=(0,+1), Down=(0,-1),
/// Left=(-1,0), Right=(+1,0).
pub open spec fn spec_delta(d: MovementDirection) -> (int, int) {
    match d {
        MovementDirection::Up => (0int, 1int),
        MovementDirection::Down => (0int, -1int),
        MovementDirection::Left => (-1int, 0int),
        MovementDirection::Right => (1int, 0int),
    }
}

impl MovementDirection {
    /// The unit grid delta this direction maps to.
    pub fn delta(&self) -> (r: (i32, i32))
        ensures
            (r.0 as int, r.1 as int) == spec_delta(*self),
    {
        match self {
            MovementDirection::Up => (0i32, 1i32),
            MovementDirection::Down => (0i32, -1i32),
            MovementDirection::Left => (-1i32, 0i32),
            MovementDirection::Right => (1i32, 0i32),
        }
    }

    /// All four directions, in the fixed order Up, Down, Left, Right.
    pub fn all() -> (r: [MovementDirection; 4])
        ensures
            r[0] == MovementDirection::Up,
            r[1] == MovementDirection::Down,
            r[2] == MovementDirection::Left,
            r[3] == MovementDirection::Right,
    {
        [
            MovementDirection::Up,
            MovementDirection::Down,
            MovementDirection::Left,
            MovementDirection::Right,
        ]
    }
}

/// The intents sampled for one tick: at most one movement direction plus
/// independent flags for switching color and resetting the level.
#[derive(Debug, Clone, Copy, PartialEq, Eq)]
pub struct Actions {
    pub player_movement: Option<MovementDirection>,
    pub color_switch: Option<()>,
    pub level_reset: Option<()>,
}

impl Default for Actions {
    fn default() -> (r: Actions)
        ensures
            r == (Actions { player_movement: None, color_switch: None, level_reset: None }),
    {
        Actions { player_movement: None, color_switch: None, level_reset: None }
    }
}

/// The movement choice made from the four pressed flags: the first pressed
/// direction in the order Up, Down, Left, Right wins.
pub open spec fn spec_selected_movement(
    up: bool,
    down: bool,
    left: bool,
    right: bool,
) -> Option<MovementDirection> {
    if up {
        Some(MovementDirection::Up)
    } else if down {
        Some(MovementDirection::Down)
    } else if left {
        Some(MovementDirection::Left)
    } else if right {
        Some(MovementDirection::Right)
    } else {
        None
    }
}

/// Picks the movement intent from the pressed state of the four direction
/// controls; the first pressed one in the order Up, Down, Left, Right wins.
pub fn select_movement(up: bool, down: bool, left: bool, right: bool) -> (r: Option<
    MovementDirection,
>)
    ensures
        r == spec_selected_movement(up, down, left, right),
{
    if up {
        Some(MovementDirection::Up)
    } else if down {
        Some(MovementDirection::Down)
    } else if left {
        Some(MovementDirection::Left)
    } else if right {
        Some(MovementDirection::Right)
    } else {
        None
    }
}

/// The action record for one tick, or `None` when nothing was pressed
/// (in which case no intent event is emitted at all).
pub open spec fn spec_actions_from_input(
    up: bool,
    down: bool,
    left: bool,
    right: bool,
    color_switch: bool,
    level_reset: bool,
) -> Option<Actions> {
    let movement = spec_selected_movement(up, down, left, right);
    if movement is Some || color_switch || level_reset {
        Some(
            Actions {
                player_movement: movement,
                color_switch: if color_switch {
                    Some(())
                } else {
                    None
                },
                level_reset: if level_reset {
                    Some(())
                } else {
                    None
                },
            },
        )
    } else {
        None
    }
}

/// Builds the tick's action record from the pressed state of each control;
/// returns `None` when no control is pressed, so that quiet ticks produce
/// no intent event.
pub fn actions_from_input(
    up: bool,
    down: bool,
    left: bool,
    right: bool,
    color_switch: bool,
    level_reset: bool,
) -> (r: Option<Actions>)
    ensures
        r == spec_actions_from_input(up, down, left, right, color_switch, level_reset),
{
    let movement = select_movement(up, down, left, right);
    if movement.is_some() || color_switch || level_reset {
        Some(
            Actions {
                player_movement: movement,
                color_switch: if color_switch {
                    Some(())
                } else {
                    None
                },
                level_reset: if level_reset {
                    Some(())
                } else {
                    None
                },
            },
        )
    } else {
        None
    }
}

} // verus!
