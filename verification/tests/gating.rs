use gridgate::color::ColorControl;
use gridgate::gating::{is_open, is_passable, open_lasers};
use gridgate::grid::{LevelDataError, TileIndex};
use gridgate::panel::PressurePlate;
use gridgate::tiles::{tile_kind_from_code, DoorBundle, Laser, LaserType, TileKind};
use gridgate::GridCoords;

fn plate_opening(color: Option<LaserType>, at: GridCoords) -> PressurePlate {
    PressurePlate::new(at, color, Vec::new(), Vec::new(), Vec::new())
}

#[test]
fn wall_is_never_passable() {
    let plates = Vec::new();
    assert!(!is_passable(&TileKind::Wall, ColorControl::Red, &plates));
    assert!(!is_passable(&TileKind::Wall, ColorControl::Blue, &plates));
}

#[test]
fn floor_is_always_passable() {
    let plates = Vec::new();
    assert!(is_passable(&TileKind::Floor, ColorControl::Red, &plates));
    assert!(is_passable(&TileKind::Floor, ColorControl::Blue, &plates));
}

#[test]
fn gating_symmetry_without_panels() {
    // A door of color c is passable iff the player's color resolves to c.
    let plates = Vec::new();
    for (color, laser, expected) in [
        (ColorControl::Red, LaserType::Red, true),
        (ColorControl::Red, LaserType::Blue, false),
        (ColorControl::Red, LaserType::Green, false),
        (ColorControl::Blue, LaserType::Blue, true),
        (ColorControl::Blue, LaserType::Red, false),
        (ColorControl::Blue, LaserType::Green, false),
    ] {
        let door = TileKind::Door(Laser::new(laser));
        assert_eq!(is_passable(&door, color, &plates), expected);
    }
}

#[test]
fn active_panel_opens_its_color() {
    let mut plate = plate_opening(Some(LaserType::Green), GridCoords::new(0, 0));
    let mut effects = gridgate::effects::MovementSideEffects::new();
    assert!(!is_open(LaserType::Green, ColorControl::Blue, &vec![plate.clone()]));
    plate.press(&mut effects);
    let plates = vec![plate];
    assert!(is_open(LaserType::Green, ColorControl::Blue, &plates));
    // The plate opens only its own color.
    assert!(!is_open(LaserType::Red, ColorControl::Blue, &plates));
}

#[test]
fn inactive_panel_opens_nothing() {
    let plates = vec![plate_opening(Some(LaserType::Red), GridCoords::new(0, 0))];
    assert!(!is_open(LaserType::Red, ColorControl::Blue, &plates));
}

#[test]
fn color_always_opens_its_own_channel() {
    let plates = Vec::new();
    assert!(is_open(LaserType::Red, ColorControl::Red, &plates));
    assert!(is_open(LaserType::Blue, ColorControl::Blue, &plates));
    assert!(!is_open(LaserType::Green, ColorControl::Red, &plates));
    assert!(!is_open(LaserType::Green, ColorControl::Blue, &plates));
}

#[test]
fn tile_codes_decode_exactly() {
    assert_eq!(tile_kind_from_code(1), Some(TileKind::Wall));
    assert_eq!(tile_kind_from_code(2), Some(TileKind::Floor));
    assert_eq!(
        tile_kind_from_code(3),
        Some(TileKind::Door(Laser::new(LaserType::Red)))
    );
    assert_eq!(
        tile_kind_from_code(4),
        Some(TileKind::Door(Laser::new(LaserType::Green)))
    );
    assert_eq!(
        tile_kind_from_code(5),
        Some(TileKind::Door(Laser::new(LaserType::Blue)))
    );
    assert_eq!(tile_kind_from_code(0), None);
    assert_eq!(tile_kind_from_code(6), None);
    assert_eq!(tile_kind_from_code(-1), None);
}

#[test]
fn door_bundle_from_cell_codes() {
    assert_eq!(
        DoorBundle::bundle_int_cell(3).map(|b| b.door),
        Some(Laser::new(LaserType::Red))
    );
    assert_eq!(
        DoorBundle::bundle_int_cell(4).map(|b| b.door),
        Some(Laser::new(LaserType::Green))
    );
    assert_eq!(
        DoorBundle::bundle_int_cell(5).map(|b| b.door),
        Some(Laser::new(LaserType::Blue))
    );
    assert!(DoorBundle::bundle_int_cell(2).is_none());
    assert!(DoorBundle::bundle_int_cell(7).is_none());
}

#[test]
fn laser_new_starts_closed() {
    let laser = Laser::new(LaserType::Blue);
    assert_eq!(laser.laser_type, LaserType::Blue);
    assert!(!laser.is_open);
}

#[test]
fn laser_type_names() {
    assert_eq!(LaserType::Red.name(), "Red");
    assert_eq!(LaserType::Green.name(), "Green");
    assert_eq!(LaserType::Blue.name(), "Blue");
}

#[test]
fn unknown_tile_code_aborts_level_load() {
    let codes = vec![2, 9, 2];
    let r = TileIndex::from_codes(3, 1, &codes);
    assert_eq!(r.err(), Some(LevelDataError::UnknownTileCode(9)));
}

#[test]
fn mismatched_dimensions_abort_level_load() {
    let codes = vec![2, 2, 2];
    let r = TileIndex::from_codes(2, 1, &codes);
    assert_eq!(r.err(), Some(LevelDataError::BadDimensions));
}

#[test]
fn tile_index_lookup() {
    // 2 x 2 grid, row-major from the bottom row: floor, wall / red door, floor.
    let codes = vec![2, 1, 3, 2];
    let tiles = TileIndex::from_codes(2, 2, &codes).unwrap();
    assert_eq!(tiles.get(GridCoords::new(0, 0)), Some(TileKind::Floor));
    assert_eq!(tiles.get(GridCoords::new(1, 0)), Some(TileKind::Wall));
    assert_eq!(
        tiles.get(GridCoords::new(0, 1)),
        Some(TileKind::Door(Laser::new(LaserType::Red)))
    );
    assert_eq!(tiles.get(GridCoords::new(1, 1)), Some(TileKind::Floor));
    assert_eq!(tiles.get(GridCoords::new(2, 0)), None);
    assert_eq!(tiles.get(GridCoords::new(-1, 0)), None);
}

#[test]
fn open_lasers_recomputes_flags() {
    let codes = vec![3, 5];
    let mut tiles = TileIndex::from_codes(2, 1, &codes).unwrap();
    let plates = Vec::new();
    open_lasers(&mut tiles, ColorControl::Red, &plates);
    assert_eq!(
        tiles.get(GridCoords::new(0, 0)),
        Some(TileKind::Door(Laser { laser_type: LaserType::Red, is_open: true }))
    );
    assert_eq!(
        tiles.get(GridCoords::new(1, 0)),
        Some(TileKind::Door(Laser { laser_type: LaserType::Blue, is_open: false }))
    );
    // Pure and repeatable: identical inputs give identical flags.
    open_lasers(&mut tiles, ColorControl::Red, &plates);
    assert_eq!(
        tiles.get(GridCoords::new(0, 0)),
        Some(TileKind::Door(Laser { laser_type: LaserType::Red, is_open: true }))
    );
}

#[test]
fn laser_sprite_visibility_follows_stored_flag() {
    let codes = vec![3, 2];
    let mut tiles = TileIndex::from_codes(2, 1, &codes).unwrap();
    let plates = Vec::new();
    open_lasers(&mut tiles, ColorControl::Blue, &plates);
    // A shut red gate shows its beam; a floor cell gives no answer.
    assert_eq!(
        gridgate::lasers::laser_visible_at(&tiles, GridCoords::new(0, 0)),
        Some(true)
    );
    assert_eq!(gridgate::lasers::laser_visible_at(&tiles, GridCoords::new(1, 0)), None);
    open_lasers(&mut tiles, ColorControl::Red, &plates);
    assert_eq!(
        gridgate::lasers::laser_visible_at(&tiles, GridCoords::new(0, 0)),
        Some(false)
    );
}
