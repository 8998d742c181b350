use gridgate::actions::MovementDirection;
use gridgate::effects::{MovementSideEffects, SideEffect};
use gridgate::panel::{
    parse_direction_key, parse_direction_keys, parse_laser_color, parse_multi_move_values,
    step_on_panel, PressurePlate,
};
use gridgate::tiles::LaserType;
use gridgate::wasd::Wasd;
use gridgate::GridCoords;

fn forbid_plate(at: GridCoords, directions: Vec<MovementDirection>) -> PressurePlate {
    PressurePlate::new(at, None, directions, Vec::new(), Vec::new())
}

#[test]
fn stepping_latches_and_publishes_effects() {
    let mut plates = vec![forbid_plate(GridCoords::new(2, 0), vec![MovementDirection::Left])];
    let mut effects = MovementSideEffects::new();
    let stepped = step_on_panel(GridCoords::new(2, 0), &mut plates, &mut effects);
    assert!(stepped);
    assert!(plates[0].is_active());
    assert_eq!(effects.get(MovementDirection::Left), SideEffect::DisabledMovement);
    assert_eq!(effects.get(MovementDirection::Right), SideEffect::NoEffect);
}

#[test]
fn stepping_elsewhere_changes_nothing() {
    let mut plates = vec![forbid_plate(GridCoords::new(2, 0), vec![MovementDirection::Left])];
    let mut effects = MovementSideEffects::new();
    let stepped = step_on_panel(GridCoords::new(1, 0), &mut plates, &mut effects);
    assert!(!stepped);
    assert!(!plates[0].is_active());
    assert_eq!(effects, MovementSideEffects::new());
}

#[test]
fn panel_latch_is_one_way() {
    // Once active, moving away (and stepping around the level) never
    // releases the latch within the level instance.
    let mut plates = vec![forbid_plate(GridCoords::new(2, 0), vec![MovementDirection::Left])];
    let mut effects = MovementSideEffects::new();
    step_on_panel(GridCoords::new(2, 0), &mut plates, &mut effects);
    assert!(plates[0].is_active());
    step_on_panel(GridCoords::new(1, 0), &mut plates, &mut effects);
    step_on_panel(GridCoords::new(0, 0), &mut plates, &mut effects);
    assert!(plates[0].is_active());
}

#[test]
fn multi_move_pairs_are_paired_by_index() {
    let plate = PressurePlate::new(
        GridCoords::new(0, 0),
        None,
        Vec::new(),
        vec![MovementDirection::Right, MovementDirection::Up],
        vec![2, 5],
    );
    let mut plates = vec![plate];
    let mut effects = MovementSideEffects::new();
    step_on_panel(GridCoords::new(0, 0), &mut plates, &mut effects);
    assert_eq!(effects.get(MovementDirection::Right), SideEffect::MultiMove(2));
    assert_eq!(effects.get(MovementDirection::Up), SideEffect::MultiMove(5));
}

#[test]
fn extra_multi_move_entries_are_ignored() {
    // Only min(directions, values) pairs apply.
    let plate = PressurePlate::new(
        GridCoords::new(0, 0),
        None,
        Vec::new(),
        vec![MovementDirection::Right, MovementDirection::Up],
        vec![2],
    );
    let mut plates = vec![plate];
    let mut effects = MovementSideEffects::new();
    step_on_panel(GridCoords::new(0, 0), &mut plates, &mut effects);
    assert_eq!(effects.get(MovementDirection::Right), SideEffect::MultiMove(2));
    assert_eq!(effects.get(MovementDirection::Up), SideEffect::NoEffect);
}

#[test]
fn nonpositive_multi_move_counts_are_skipped() {
    let plate = PressurePlate::new(
        GridCoords::new(0, 0),
        None,
        Vec::new(),
        vec![MovementDirection::Right, MovementDirection::Up],
        vec![0, -3],
    );
    let mut plates = vec![plate];
    let mut effects = MovementSideEffects::new();
    step_on_panel(GridCoords::new(0, 0), &mut plates, &mut effects);
    assert_eq!(effects.get(MovementDirection::Right), SideEffect::NoEffect);
    assert_eq!(effects.get(MovementDirection::Up), SideEffect::NoEffect);
}

#[test]
fn later_plate_wins_on_the_same_direction() {
    // Two plates on one cell both write the same direction: the
    // last-iterated plate's entry stands.
    let first = PressurePlate::new(
        GridCoords::new(0, 0),
        None,
        vec![MovementDirection::Right],
        Vec::new(),
        Vec::new(),
    );
    let second = PressurePlate::new(
        GridCoords::new(0, 0),
        None,
        Vec::new(),
        vec![MovementDirection::Right],
        vec![4],
    );
    let mut plates = vec![first, second];
    let mut effects = MovementSideEffects::new();
    step_on_panel(GridCoords::new(0, 0), &mut plates, &mut effects);
    assert_eq!(effects.get(MovementDirection::Right), SideEffect::MultiMove(4));
    assert!(plates[0].is_active() && plates[1].is_active());
}

#[test]
fn parse_laser_color_values() {
    assert_eq!(parse_laser_color(&"Red".to_string()), Some(LaserType::Red));
    assert_eq!(parse_laser_color(&"Green".to_string()), Some(LaserType::Green));
    assert_eq!(parse_laser_color(&"Blue".to_string()), Some(LaserType::Blue));
    assert_eq!(parse_laser_color(&"Purple".to_string()), None);
    assert_eq!(parse_laser_color(&"".to_string()), None);
}

#[test]
fn parse_direction_key_values() {
    assert_eq!(parse_direction_key(&"W".to_string()), Some(MovementDirection::Up));
    assert_eq!(parse_direction_key(&"S".to_string()), Some(MovementDirection::Down));
    assert_eq!(parse_direction_key(&"A".to_string()), Some(MovementDirection::Left));
    assert_eq!(parse_direction_key(&"D".to_string()), Some(MovementDirection::Right));
    assert_eq!(parse_direction_key(&"Q".to_string()), None);
}

#[test]
fn parse_direction_keys_skips_malformed_entries() {
    let entries = vec![
        Some("W".to_string()),
        None,
        Some("X".to_string()),
        Some("D".to_string()),
    ];
    assert_eq!(
        parse_direction_keys(&entries),
        vec![MovementDirection::Up, MovementDirection::Right]
    );
}

#[test]
fn parse_multi_move_values_skips_absent_entries() {
    let entries = vec![Some(2), None, Some(7)];
    assert_eq!(parse_multi_move_values(&entries), vec![2, 7]);
}

#[test]
fn plate_slice_names() {
    let mut plate = PressurePlate::new(
        GridCoords::new(0, 0),
        Some(LaserType::Red),
        Vec::new(),
        Vec::new(),
        Vec::new(),
    );
    assert_eq!(plate.slice_name(), Some("RedUnpressed"));
    let mut effects = MovementSideEffects::new();
    plate.press(&mut effects);
    assert_eq!(plate.slice_name(), Some("RedPressed"));
    let plain = forbid_plate(GridCoords::new(0, 0), Vec::new());
    assert_eq!(plain.slice_name(), None);
}

#[test]
fn wasd_labels_and_forbidden_flag() {
    let mut wasd = Wasd::from(MovementDirection::Left);
    assert_eq!(wasd.text(), "A");
    assert!(!wasd.forbidden);
    let mut effects = MovementSideEffects::new();
    effects.set(MovementDirection::Left, SideEffect::DisabledMovement);
    wasd.set_forbidden_from(&effects);
    assert!(wasd.forbidden);
    effects.set(MovementDirection::Left, SideEffect::MultiMove(2));
    wasd.set_forbidden_from(&effects);
    assert!(!wasd.forbidden);
    assert_eq!(Wasd::from(MovementDirection::Up).text(), "W");
    assert_eq!(Wasd::from(MovementDirection::Down).text(), "S");
    assert_eq!(Wasd::from(MovementDirection::Right).text(), "D");
}
