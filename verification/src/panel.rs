//! Pressure panels: plates fixed to a grid cell that latch `active` the
//! first time the player occupies their cell, publish movement side effects
//! (forbidden directions, multi-moves) and can open a gate color.

use vstd::prelude::*;
use vstd::string::StringExecFns;
use crate::GridCoords;
use crate::actions::MovementDirection;
use crate::effects::{spec_with_effect, MovementSideEffects, SideEffect};
use crate::tiles::LaserType;

verus! {

/// A pressure plate, as loaded from level data. `active` is a one-way
/// latch: it becomes true the first time the player's coordinate equals
/// the plate's coordinate and stays true for the level instance.
#[derive(Debug, Clone, PartialEq)]
pub struct PressurePlate {
    pub grid_coords: GridCoords,
    pub opens_laser: Option<LaserType>,
    pub forbids_movement: Vec<MovementDirection>,
    pub multi_movement: Vec<MovementDirection>,
    pub multi_move_values: Vec<i32>,
    /// The one-way latch; written only by `press`, which sets it.
    pub active: bool,
}

impl PressurePlate {
    /// Whether the plate has latched.
    pub open spec fn spec_active(&self) -> bool {
        self.active
    }

    /// The same plate with its latch set.
    pub open spec fn spec_activated(self) -> PressurePlate {
        PressurePlate { active: true, ..self }
    }

    /// A fresh, unlatched plate with the given declarations.
    pub fn new(
        grid_coords: GridCoords,
        opens_laser: Option<LaserType>,
        forbids_movement: Vec<MovementDirection>,
        multi_movement: Vec<MovementDirection>,
        multi_move_values: Vec<i32>,
    ) -> (r: PressurePlate)
        ensures
            r.grid_coords == grid_coords,
            r.opens_laser == opens_laser,
            r.forbids_movement == forbids_movement,
            r.multi_movement == multi_movement,
            r.multi_move_values == multi_move_values,
            !r.spec_active(),
    {
        PressurePlate {
            grid_coords,
            opens_laser,
            forbids_movement,
            multi_movement,
            multi_move_values,
            active: false,
        }
    }

    pub fn is_active(&self) -> (r: bool)
        ensures
            r == self.spec_active(),
    {
        self.active
    }

    /// The sprite-sheet slice a plate that opens a gate color shows: the
    /// pressed slice of its color once latched, the unpressed one before;
    /// a plate opening no color shows no plate sprite.
    pub fn slice_name(&self) -> (r: Option<&'static str>)
        ensures
            self.opens_laser is None <==> r is None,
            (self.opens_laser matches Some(t) ==> (r matches Some(s) && s@ == spec_plate_slice(
                t,
                self.spec_active(),
            ))),
    {
        match self.opens_laser {
            None => None,
            Some(LaserType::Red) => {
                if self.active {
                    Some("RedPressed")
                } else {
                    Some("RedUnpressed")
                }
            },
            Some(LaserType::Green) => {
                if self.active {
                    Some("GreenPressed")
                } else {
                    Some("GreenUnpressed")
                }
            },
            Some(LaserType::Blue) => {
                if self.active {
                    Some("BluePressed")
                } else {
                    Some("BlueUnpressed")
                }
            },
        }
    }

    /// Releases the latch, as recreating the plate from level data on a
    /// level respawn does; the declarations are untouched.
    pub fn reset_latch(&mut self)
        ensures
            *final(self) == (PressurePlate { active: false, ..*old(self) }),
    {
        self.active = false;
    }

    /// Latches the plate and overwrites the actor's side-effect entries
    /// with this plate's declarations: every forbidden direction first,
    /// then each (direction, count) multi-move pair in declaration order.
    pub fn press(&mut self, effects: &mut MovementSideEffects)
        ensures
            *final(self) == old(self).spec_activated(),
            final(self).spec_active(),
            *final(effects) == spec_pressed_effects(*old(self), *old(effects)),
    {
        self.active = true;
        let mut i: usize = 0;
        while i < self.forbids_movement.len()
            invariant
                0 <= i <= self.forbids_movement@.len(),
                *effects == spec_apply_forbids_upto(
                    self.forbids_movement@,
                    *old(effects),
                    i as int,
                ),
                *self == old(self).spec_activated(),
            decreases self.forbids_movement@.len() - i,
        {
            effects.set(self.forbids_movement[i], SideEffect::DisabledMovement);
            i = i + 1;
        }
        let ghost after_forbids = *effects;
        let n = if self.multi_movement.len() < self.multi_move_values.len() {
            self.multi_movement.len()
        } else {
            self.multi_move_values.len()
        };
        let mut k: usize = 0;
        while k < n
            invariant
                0 <= k <= n,
                n == spec_min(self.multi_movement@.len() as int, self.multi_move_values@.len() as int),
                *effects == spec_apply_multis_upto(
                    self.multi_movement@,
                    self.multi_move_values@,
                    after_forbids,
                    k as int,
                ),
                *self == old(self).spec_activated(),
                after_forbids == spec_apply_forbids_upto(
                    self.forbids_movement@,
                    *old(effects),
                    self.forbids_movement@.len() as int,
                ),
            decreases n - k,
        {
            let v = self.multi_move_values[k];
            if v >= 1 {
                effects.set(self.multi_movement[k], SideEffect::MultiMove(v as u32));
            }
            k = k + 1;
        }
    }
}

/// The sprite-sheet slice of a plate of color `t` in latch state `active`.
pub open spec fn spec_plate_slice(t: LaserType, active: bool) -> Seq<char> {
    match t {
        LaserType::Red => {
            if active {
                "RedPressed"@
            } else {
                "RedUnpressed"@
            }
        },
        LaserType::Green => {
            if active {
                "GreenPressed"@
            } else {
                "GreenUnpressed"@
            }
        },
        LaserType::Blue => {
            if active {
                "BluePressed"@
            } else {
                "BlueUnpressed"@
            }
        },
    }
}

/// The smaller of two integers.
pub open spec fn spec_min(a: int, b: int) -> int {
    if a < b {
        a
    } else {
        b
    }
}

/// The side-effect table after the first `k` forbidden directions have
/// been written, in declaration order.
pub open spec fn spec_apply_forbids_upto(
    fs: Seq<MovementDirection>,
    t: MovementSideEffects,
    k: int,
) -> MovementSideEffects
    decreases k,
{
    if k <= 0 {
        t
    } else {
        spec_with_effect(
            spec_apply_forbids_upto(fs, t, k - 1),
            fs[k - 1],
            SideEffect::DisabledMovement,
        )
    }
}

/// The side-effect table after the first `k` multi-move pairs have been
/// written, in declaration order. A pair whose count is below one is
/// malformed level data and writes nothing.
pub open spec fn spec_apply_multis_upto(
    ds: Seq<MovementDirection>,
    vs: Seq<i32>,
    t: MovementSideEffects,
    k: int,
) -> MovementSideEffects
    decreases k,
{
    if k <= 0 {
        t
    } else {
        let prev = spec_apply_multis_upto(ds, vs, t, k - 1);
        if vs[k - 1] >= 1 {
            spec_with_effect(prev, ds[k - 1], SideEffect::MultiMove(vs[k - 1] as u32))
        } else {
            prev
        }
    }
}

/// The side-effect table after one plate press: forbidden directions
/// overwrite their entries first, then the multi-move pairs (paired by
/// index, extra entries of the longer list ignored).
pub open spec fn spec_pressed_effects(
    p: PressurePlate,
    t: MovementSideEffects,
) -> MovementSideEffects {
    spec_apply_multis_upto(
        p.multi_movement@,
        p.multi_move_values@,
        spec_apply_forbids_upto(p.forbids_movement@, t, p.forbids_movement@.len() as int),
        spec_min(p.multi_movement@.len() as int, p.multi_move_values@.len() as int),
    )
}

/// The plates after the player's coordinate changed to `c`: every plate
/// on that cell is latched, all others are untouched.
pub open spec fn spec_plates_after_step(
    plates: Seq<PressurePlate>,
    c: GridCoords,
) -> Seq<PressurePlate> {
    plates.map(
        |i: int, p: PressurePlate|
            if p.grid_coords == c {
                p.spec_activated()
            } else {
                p
            },
    )
}

/// The side-effect table after the player's coordinate changed to `c` and
/// the first `k` plates reacted: each plate on that cell overwrites
/// entries in iteration order, so on ties the last-iterated plate wins.
pub open spec fn spec_effects_after_step_upto(
    plates: Seq<PressurePlate>,
    c: GridCoords,
    t: MovementSideEffects,
    k: int,
) -> MovementSideEffects
    decreases k,
{
    if k <= 0 {
        t
    } else {
        let prev = spec_effects_after_step_upto(plates, c, t, k - 1);
        if plates[k - 1].grid_coords == c {
            spec_pressed_effects(plates[k - 1], prev)
        } else {
            prev
        }
    }
}

/// Reacts to a player coordinate change: latches every plate whose cell
/// the player now occupies and publishes its side effects, in iteration
/// order (the declaration order of the level data). Returns whether any
/// plate was stepped on.
pub fn step_on_panel(
    player_coords: GridCoords,
    plates: &mut Vec<PressurePlate>,
    effects: &mut MovementSideEffects,
) -> (stepped: bool)
    ensures
        final(plates)@ == spec_plates_after_step(old(plates)@, player_coords),
        *final(effects) == spec_effects_after_step_upto(
            old(plates)@,
            player_coords,
            *old(effects),
            old(plates)@.len() as int,
        ),
        stepped == exists|i: int|
            0 <= i < old(plates)@.len() && (#[trigger] old(plates)@[i]).grid_coords
                == player_coords,
{
    let mut stepped = false;
    let mut i: usize = 0;
    let n = plates.len();
    while i < n
        invariant
            0 <= i <= n,
            n == plates@.len(),
            n == old(plates)@.len(),
            forall|j: int| i <= j < n ==> plates@[j] == old(plates)@[j],
            forall|j: int|
                0 <= j < i ==> plates@[j] == spec_plates_after_step(old(plates)@, player_coords)[j],
            *effects == spec_effects_after_step_upto(
                old(plates)@,
                player_coords,
                *old(effects),
                i as int,
            ),
            stepped == exists|j: int|
                0 <= j < i && (#[trigger] old(plates)@[j]).grid_coords == player_coords,
        decreases n - i,
    {
        let on_plate = plates[i].grid_coords.x == player_coords.x && plates[i].grid_coords.y
            == player_coords.y;
        if on_plate {
            let plate = &mut plates[i];
            plate.press(effects);
            stepped = true;
        }
        i = i + 1;
    }
    proof {
        assert(plates@ =~= spec_plates_after_step(old(plates)@, player_coords));
    }
    stepped
}

/// Latching is one-way: a plate that was active before a coordinate
/// change is still active after it, whatever cell the player moved to.
pub proof fn lemma_panel_latch_monotonic(plates: Seq<PressurePlate>, c: GridCoords, i: int)
    requires
        0 <= i < plates.len(),
        plates[i].spec_active(),
    ensures
        spec_plates_after_step(plates, c)[i].spec_active(),
{
}

/// A plate the player steps on is active afterwards, and a plate on any
/// other cell keeps its latch exactly as it was.
pub proof fn lemma_step_latches(plates: Seq<PressurePlate>, c: GridCoords, i: int)
    requires
        0 <= i < plates.len(),
    ensures
        plates[i].grid_coords == c ==> spec_plates_after_step(plates, c)[i].spec_active(),
        plates[i].grid_coords != c ==> spec_plates_after_step(plates, c)[i] == plates[i],
{
}

/// Decodes one gate-color field value ("Red", "Green" or "Blue"); any
/// other string is malformed level data and decodes to nothing.
pub open spec fn spec_parse_laser_color(s: Seq<char>) -> Option<LaserType> {
    if s == "Red"@ {
        Some(LaserType::Red)
    } else if s == "Green"@ {
        Some(LaserType::Green)
    } else if s == "Blue"@ {
        Some(LaserType::Blue)
    } else {
        None
    }
}

/// Decodes a gate-color enum string from level data; unrecognized values
/// yield `None` so the field's effect is simply absent, never fatal.
pub fn parse_laser_color(s: &String) -> (r: Option<LaserType>)
    ensures
        r == spec_parse_laser_color(s@),
{
    if s.eq(&String::from_str("Red")) {
        Some(LaserType::Red)
    } else if s.eq(&String::from_str("Green")) {
        Some(LaserType::Green)
    } else if s.eq(&String::from_str("Blue")) {
        Some(LaserType::Blue)
    } else {
        None
    }
}

/// Decodes one key-name field value ("W", "S", "A" or "D") to the
/// movement direction it stands for; any other string decodes to nothing.
pub open spec fn spec_parse_direction_key(s: Seq<char>) -> Option<MovementDirection> {
    if s == "W"@ {
        Some(MovementDirection::Up)
    } else if s == "S"@ {
        Some(MovementDirection::Down)
    } else if s == "A"@ {
        Some(MovementDirection::Left)
    } else if s == "D"@ {
        Some(MovementDirection::Right)
    } else {
        None
    }
}

/// Decodes a key-name enum string from level data; unrecognized values
/// yield `None` so the entry is simply skipped, never fatal.
pub fn parse_direction_key(s: &String) -> (r: Option<MovementDirection>)
    ensures
        r == spec_parse_direction_key(s@),
{
    if s.eq(&String::from_str("W")) {
        Some(MovementDirection::Up)
    } else if s.eq(&String::from_str("S")) {
        Some(MovementDirection::Down)
    } else if s.eq(&String::from_str("A")) {
        Some(MovementDirection::Left)
    } else if s.eq(&String::from_str("D")) {
        Some(MovementDirection::Right)
    } else {
        None
    }
}

/// The directions named by a list of key-name field values, in order,
/// with unrecognized and absent entries skipped.
pub open spec fn spec_parse_direction_keys(ss: Seq<Option<Seq<char>>>) -> Seq<MovementDirection>
    decreases ss.len(),
{
    if ss.len() == 0 {
        Seq::empty()
    } else {
        let rest = spec_parse_direction_keys(ss.drop_last());
        match ss.last() {
            Some(s) => match spec_parse_direction_key(s) {
                Some(d) => rest.push(d),
                None => rest,
            },
            None => rest,
        }
    }
}

/// Decodes an enum-set field from level data into the directions it
/// names, keeping declaration order; malformed or absent entries are
/// skipped, never fatal.
pub fn parse_direction_keys(ss: &Vec<Option<String>>) -> (r: Vec<MovementDirection>)
    ensures
        r@ == spec_parse_direction_keys(ss.deep_view()),
{
    let mut out: Vec<MovementDirection> = Vec::new();
    let mut i: usize = 0;
    while i < ss.len()
        invariant
            0 <= i <= ss@.len(),
            ss.deep_view().len() == ss@.len(),
            out@ == spec_parse_direction_keys(ss.deep_view().take(i as int)),
        decreases ss@.len() - i,
    {
        proof {
            assert(ss.deep_view().take(i + 1).drop_last() =~= ss.deep_view().take(i as int));
            assert(ss.deep_view()[i as int] == ss@[i as int].deep_view());
        }
        match &ss[i] {
            Some(s) => {
                match parse_direction_key(s) {
                    Some(d) => {
                        out.push(d);
                    },
                    None => {},
                }
            },
            None => {},
        }
        i = i + 1;
    }
    proof {
        assert(ss.deep_view().take(ss@.len() as int) =~= ss.deep_view());
    }
    out
}

/// The counts named by a multi-move values field, in order, with absent
/// entries skipped.
pub open spec fn spec_parse_multi_move_values(vs: Seq<Option<i32>>) -> Seq<i32>
    decreases vs.len(),
{
    if vs.len() == 0 {
        Seq::empty()
    } else {
        let rest = spec_parse_multi_move_values(vs.drop_last());
        match vs.last() {
            Some(v) => rest.push(v),
            None => rest,
        }
    }
}

/// Decodes an integer-list field from level data into the counts it
/// names, keeping declaration order; absent entries are skipped.
pub fn parse_multi_move_values(vs: &Vec<Option<i32>>) -> (r: Vec<i32>)
    ensures
        r@ == spec_parse_multi_move_values(vs@),
{
    let mut out: Vec<i32> = Vec::new();
    let mut i: usize = 0;
    while i < vs.len()
        invariant
            0 <= i <= vs@.len(),
            out@ == spec_parse_multi_move_values(vs@.take(i as int)),
        decreases vs@.len() - i,
    {
        proof {
            assert(vs@.take(i + 1).drop_last() =~= vs@.take(i as int));
        }
        match vs[i] {
            Some(v) => {
                out.push(v);
            },
            None => {},
        }
        i = i + 1;
    }
    proof {
        assert(vs@.take(vs@.len() as int) =~= vs@);
    }
    out
}

} // verus!
