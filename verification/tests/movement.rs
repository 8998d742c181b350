use gridgate::actions::{actions_from_input, select_movement, MovementDirection};
use gridgate::color::ColorControl;
use gridgate::effects::{MovementSideEffects, SideEffect};
use gridgate::grid::TileIndex;
use gridgate::movement::MovementState;
use gridgate::player::Player;
use gridgate::GridCoords;

fn floors(width: usize) -> TileIndex {
    let codes = vec![2; width];
    TileIndex::from_codes(width, 1, &codes).unwrap()
}

#[test]
fn direction_deltas() {
    assert_eq!(MovementDirection::Up.delta(), (0, 1));
    assert_eq!(MovementDirection::Down.delta(), (0, -1));
    assert_eq!(MovementDirection::Left.delta(), (-1, 0));
    assert_eq!(MovementDirection::Right.delta(), (1, 0));
}

#[test]
fn all_directions_in_order() {
    assert_eq!(
        MovementDirection::all(),
        [
            MovementDirection::Up,
            MovementDirection::Down,
            MovementDirection::Left,
            MovementDirection::Right,
        ]
    );
}

#[test]
fn first_pressed_direction_wins() {
    assert_eq!(select_movement(true, true, true, true), Some(MovementDirection::Up));
    assert_eq!(select_movement(false, true, true, false), Some(MovementDirection::Down));
    assert_eq!(select_movement(false, false, true, true), Some(MovementDirection::Left));
    assert_eq!(select_movement(false, false, false, true), Some(MovementDirection::Right));
    assert_eq!(select_movement(false, false, false, false), None);
}

#[test]
fn quiet_tick_produces_no_actions() {
    assert_eq!(actions_from_input(false, false, false, false, false, false), None);
    let a = actions_from_input(false, false, false, false, true, false).unwrap();
    assert_eq!(a.player_movement, None);
    assert_eq!(a.color_switch, Some(()));
    assert_eq!(a.level_reset, None);
}

#[test]
fn wall_impermeability() {
    // Floor at (0,0), wall at (1,0): an intent into the wall moves nothing.
    let codes = vec![2, 1];
    let tiles = TileIndex::from_codes(2, 1, &codes).unwrap();
    let plates = Vec::new();
    let mut player = Player::new(GridCoords::new(0, 0));
    player.handle_intent(MovementDirection::Right, &tiles, &plates);
    assert_eq!(player.grid_coords, GridCoords::new(0, 0));
    assert_eq!(player.movement_state, MovementState::Idle);
}

#[test]
fn leaving_the_grid_is_blocked() {
    let tiles = floors(1);
    let plates = Vec::new();
    let mut player = Player::new(GridCoords::new(0, 0));
    player.handle_intent(MovementDirection::Left, &tiles, &plates);
    assert_eq!(player.grid_coords, GridCoords::new(0, 0));
    assert_eq!(player.movement_state, MovementState::Idle);
}

#[test]
fn plain_move_commits_one_cell() {
    let tiles = floors(3);
    let plates = Vec::new();
    let mut player = Player::new(GridCoords::new(0, 0));
    player.handle_intent(MovementDirection::Right, &tiles, &plates);
    assert_eq!(player.grid_coords, GridCoords::new(1, 0));
    assert_eq!(player.movement_state, MovementState::Moving(MovementDirection::Right));
}

#[test]
fn idle_reentrancy_drops_second_intent() {
    // Two intents in the same tick: the second sees a sliding actor and is
    // dropped, with no direction change mid-slide.
    let tiles = floors(3);
    let plates = Vec::new();
    let mut player = Player::new(GridCoords::new(0, 0));
    player.handle_intent(MovementDirection::Right, &tiles, &plates);
    let mid_slide = player;
    player.handle_intent(MovementDirection::Up, &tiles, &plates);
    assert_eq!(player, mid_slide);
}

#[test]
fn disabled_direction_is_a_no_op() {
    let tiles = floors(3);
    let plates = Vec::new();
    let mut player = Player::new(GridCoords::new(1, 0));
    player.side_effects.set(MovementDirection::Left, SideEffect::DisabledMovement);
    player.handle_intent(MovementDirection::Left, &tiles, &plates);
    assert_eq!(player.grid_coords, GridCoords::new(1, 0));
    assert_eq!(player.movement_state, MovementState::Idle);
    // The other directions are unaffected.
    player.handle_intent(MovementDirection::Right, &tiles, &plates);
    assert_eq!(player.grid_coords, GridCoords::new(2, 0));
}

#[test]
fn multi_move_exhaustion() {
    // A MultiMove(3) effect, unobstructed, gives exactly 3 single-cell
    // advances and ends Idle.
    let tiles = floors(5);
    let plates = Vec::new();
    let mut player = Player::new(GridCoords::new(0, 0));
    player.side_effects.set(MovementDirection::Right, SideEffect::MultiMove(3));
    player.handle_intent(MovementDirection::Right, &tiles, &plates);
    assert_eq!(player.grid_coords, GridCoords::new(1, 0));
    assert_eq!(
        player.movement_state,
        MovementState::MultiMoving { direction: MovementDirection::Right, left: 3 }
    );
    player.next_movement_state(&tiles, &plates);
    assert_eq!(player.grid_coords, GridCoords::new(2, 0));
    assert_eq!(
        player.movement_state,
        MovementState::MultiMoving { direction: MovementDirection::Right, left: 2 }
    );
    player.next_movement_state(&tiles, &plates);
    assert_eq!(player.grid_coords, GridCoords::new(3, 0));
    assert_eq!(
        player.movement_state,
        MovementState::MultiMoving { direction: MovementDirection::Right, left: 1 }
    );
    player.next_movement_state(&tiles, &plates);
    assert_eq!(player.grid_coords, GridCoords::new(3, 0));
    assert_eq!(player.movement_state, MovementState::Idle);
}

#[test]
fn blocked_multi_move_forfeits_remaining_steps() {
    // Wall at (2,0): the second advance is blocked, the rest is forfeited.
    let codes = vec![2, 2, 1, 2];
    let tiles = TileIndex::from_codes(4, 1, &codes).unwrap();
    let plates = Vec::new();
    let mut player = Player::new(GridCoords::new(0, 0));
    player.side_effects.set(MovementDirection::Right, SideEffect::MultiMove(3));
    player.handle_intent(MovementDirection::Right, &tiles, &plates);
    assert_eq!(player.grid_coords, GridCoords::new(1, 0));
    player.next_movement_state(&tiles, &plates);
    assert_eq!(player.grid_coords, GridCoords::new(1, 0));
    assert_eq!(player.movement_state, MovementState::Idle);
}

#[test]
fn transform_movement_state_table() {
    let moving = MovementState::Moving(MovementDirection::Up);
    assert_eq!(SideEffect::NoEffect.transform_movement_state(moving), moving);
    assert_eq!(
        SideEffect::DisabledMovement.transform_movement_state(moving),
        MovementState::Idle
    );
    assert_eq!(
        SideEffect::MultiMove(4).transform_movement_state(moving),
        MovementState::MultiMoving { direction: MovementDirection::Up, left: 4 }
    );
    assert_eq!(
        SideEffect::MultiMove(4).transform_movement_state(MovementState::Idle),
        MovementState::Idle
    );
    let already = MovementState::MultiMoving { direction: MovementDirection::Down, left: 2 };
    assert_eq!(SideEffect::MultiMove(4).transform_movement_state(already), already);
}

#[test]
fn side_effect_overwrite_not_merge() {
    // Writing DisabledMovement then MultiMove(3) for the same direction
    // leaves only MultiMove(3) in effect.
    let mut effects = MovementSideEffects::new();
    effects.set(MovementDirection::Down, SideEffect::DisabledMovement);
    effects.set(MovementDirection::Down, SideEffect::MultiMove(3));
    assert_eq!(effects.get(MovementDirection::Down), SideEffect::MultiMove(3));
    assert_eq!(effects.get(MovementDirection::Up), SideEffect::NoEffect);
    assert_eq!(effects.get(MovementDirection::Left), SideEffect::NoEffect);
    assert_eq!(effects.get(MovementDirection::Right), SideEffect::NoEffect);
}

#[test]
fn absent_entries_behave_as_no_effect() {
    let effects = MovementSideEffects::new();
    for d in MovementDirection::all() {
        assert_eq!(effects.get(d), SideEffect::NoEffect);
    }
}

#[test]
fn anim_info_tags() {
    let idle = MovementState::Idle;
    assert_eq!(idle.anim_info(&ColorControl::Red).tag_name, "red_idle");
    assert_eq!(idle.anim_info(&ColorControl::Blue).tag_name, "blue_idle");
    let up = MovementState::Moving(MovementDirection::Up);
    assert_eq!(up.anim_info(&ColorControl::Red).tag_name, "walk_up");
    assert!(!up.anim_info(&ColorControl::Red).flip_x);
    let left = MovementState::Moving(MovementDirection::Left);
    assert_eq!(left.anim_info(&ColorControl::Blue).tag_name, "blue_walk_right");
    assert!(left.anim_info(&ColorControl::Blue).flip_x);
    let down = MovementState::MultiMoving { direction: MovementDirection::Down, left: 2 };
    assert_eq!(down.anim_info(&ColorControl::Red).tag_name, "red_walk_down");
    assert!(!down.anim_info(&ColorControl::Red).flip_x);
}

#[test]
fn color_switch_flips() {
    let mut c = ColorControl::Blue;
    c.switch();
    assert_eq!(c, ColorControl::Red);
    c.switch();
    assert_eq!(c, ColorControl::Blue);
}

#[test]
fn is_moving_reports_flight() {
    assert!(!MovementState::Idle.is_moving());
    assert!(MovementState::Moving(MovementDirection::Up).is_moving());
    assert!(
        MovementState::MultiMoving { direction: MovementDirection::Up, left: 1 }.is_moving()
    );
}

#[test]
fn level_cell_conversion_flips_rows() {
    assert_eq!(GridCoords::from_level_cell(2, 0, 5), GridCoords::new(2, 4));
    assert_eq!(GridCoords::from_level_cell(0, 4, 5), GridCoords::new(0, 0));
}
