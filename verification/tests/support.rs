use platformer_core::camera::{camera_follow_player, sync_camera_with_player, Translation};
use platformer_core::components::{flip_sprite, EntityDirection, SpriteIndices};
use platformer_core::error::{FatalError, WarnError};
use platformer_core::level_settings::{CameraFollow, LevelSettings};
use platformer_core::menu::quit_requested;
use platformer_core::movement::SyncCameraWithPlayer;
use platformer_core::player::Direction;
use platformer_core::util::{grid_coords_from_vec3, parse_i32, str_eq, GridCoords};

#[test]
fn sprites_mirror_exactly_the_left_facing() {
    assert!(flip_sprite(&EntityDirection::L));
    assert!(!flip_sprite(&EntityDirection::R));
    assert_eq!(EntityDirection::default(), EntityDirection::R);

    assert!(Direction::L.should_flip_sprite());
    assert!(!Direction::R.should_flip_sprite());
    assert_eq!(Direction::default(), Direction::R);
}

#[test]
fn sprite_indices_hold_their_range() {
    let s = SpriteIndices::new(3, 9);
    assert_eq!(s.first_sprite, 3);
    assert_eq!(s.last_sprite, 9);
}

#[test]
fn grid_cells_floor_the_translation() {
    let tile = 16_000;
    assert_eq!(grid_coords_from_vec3(0, 0, tile), GridCoords { x: 0, y: 0 });
    assert_eq!(grid_coords_from_vec3(15_999, 8_000, tile), GridCoords { x: 0, y: 0 });
    assert_eq!(grid_coords_from_vec3(16_000, 32_000, tile), GridCoords { x: 1, y: 2 });
    assert_eq!(grid_coords_from_vec3(-1, -16_000, tile), GridCoords { x: -1, y: -1 });
    assert_eq!(grid_coords_from_vec3(-16_001, 0, tile), GridCoords { x: -2, y: 0 });
}

#[test]
fn parse_i32_accepts_exactly_signed_decimal() {
    assert_eq!(parse_i32("0"), Some(0));
    assert_eq!(parse_i32("007"), Some(7));
    assert_eq!(parse_i32("-42"), Some(-42));
    assert_eq!(parse_i32("+42"), Some(42));
    assert_eq!(parse_i32("2147483647"), Some(i32::MAX));
    assert_eq!(parse_i32("-2147483648"), Some(i32::MIN));
    assert_eq!(parse_i32("2147483648"), None);
    assert_eq!(parse_i32("-2147483649"), None);
    assert_eq!(parse_i32(""), None);
    assert_eq!(parse_i32("-"), None);
    assert_eq!(parse_i32("+"), None);
    assert_eq!(parse_i32("12a"), None);
    assert_eq!(parse_i32(" 12"), None);
    assert_eq!(parse_i32("99999999999999999999"), None);
}

#[test]
fn str_eq_compares_by_characters() {
    assert!(str_eq("CameraFollow", "CameraFollow"));
    assert!(!str_eq("CameraFollow", "cameraFollow"));
    assert!(!str_eq("a", "ab"));
    assert!(str_eq("", ""));
}

#[test]
fn camera_follows_only_when_the_level_says_so() {
    let player = Translation { x_milli: 5_000, y_milli: 6_000 };
    let mut camera = Translation { x_milli: 0, y_milli: 0 };

    let stay = LevelSettings { camera_follow: CameraFollow(false) };
    camera_follow_player(&stay, &mut camera, &player);
    assert_eq!(camera, Translation { x_milli: 0, y_milli: 0 });

    let follow = LevelSettings { camera_follow: CameraFollow(true) };
    camera_follow_player(&follow, &mut camera, &player);
    assert_eq!(camera, player);
}

#[test]
fn the_seam_snap_needs_a_sync_order() {
    let player = Translation { x_milli: 8_000, y_milli: 9_000 };
    let mut camera = Translation { x_milli: 1, y_milli: 2 };

    sync_camera_with_player(&Vec::new(), &mut camera, &player);
    assert_eq!(camera, Translation { x_milli: 1, y_milli: 2 });

    sync_camera_with_player(&vec![SyncCameraWithPlayer], &mut camera, &player);
    assert_eq!(camera, player);
}

#[test]
fn warnings_format_their_log_line() {
    let warn = WarnError::new(String::from("level missing"), 2, true);
    assert_eq!(warn.message, "level missing");
    assert_eq!(warn.warn_code, 2);
    assert!(warn.possible_bug);
    assert_eq!(warn.trigger(), "WarnError triggered: level missing");
    assert_eq!(
        warn.trigger_msg("while respawning"),
        "WarnError triggered: level missing; additional information: while respawning"
    );
}

#[test]
fn fatal_errors_report_message_and_exit_code() {
    let fatal = FatalError::new(String::from("window missing"), 1);
    let (line, code) = fatal.exit_with_fatal_error();
    assert_eq!(line, "Fatal in-game error: window missing");
    assert_eq!(code, 1);
}

#[test]
fn quit_needs_the_whole_chord() {
    assert!(quit_requested(true, true));
    assert!(!quit_requested(true, false));
    assert!(!quit_requested(false, true));
    assert!(!quit_requested(false, false));
}
