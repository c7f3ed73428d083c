use jumper::player::{spawn_player, PlayerAction, PLAYER_SPEED, PLAYER_START_X, PLAYER_START_Y};
use jumper::spriteloader::{get_zero, player_atlas_grid, stage_atlas_grid, AsciiSheet};

#[test]
fn stage_sheet_handle_is_shared() {
    let sheet = AsciiSheet(42);
    assert_eq!(get_zero(&sheet), 42);
}

#[test]
fn atlas_grids() {
    let stage = stage_atlas_grid();
    assert_eq!((stage.cell_px, stage.cols, stage.rows, stage.pad_tenths_px), (32, 2, 2, 20));
    let player = player_atlas_grid();
    assert_eq!((player.cell_px, player.cols, player.rows, player.pad_tenths_px), (32, 2, 5, 1));
}

#[test]
fn spawn_player_defaults() {
    let b = spawn_player();
    assert!(b.player.active);
    assert!(!b.player.just_moved);
    assert!(!b.player.jumping);
    assert!(b.player.facing_right);
    assert_eq!(b.player.speed, PLAYER_SPEED);
    assert_eq!(b.player.player_action, PlayerAction::Idle);
    assert_eq!(b.attack_timer.timer.duration_ms, 150);
    assert!(!b.attack_timer.timer.repeating);
    assert_eq!(b.encounter_tracker.timer.duration_ms, 1000);
    assert!(b.encounter_tracker.timer.repeating);
    assert_eq!((b.velocity.x, b.velocity.y), (0, 0));
    assert_eq!((b.x, b.y), (PLAYER_START_X, PLAYER_START_Y));
}
