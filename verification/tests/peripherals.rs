use hexgrid_kit::camera::{camera_should_move, wasd_move_direction};
use hexgrid_kit::window::{
    next_window_mode, FullScreenConfig, WindowConfigs, WindowModeKind, WindowUtilPlugin,
};

#[test]
fn window_configs_keep_their_fields() {
    let configs = WindowConfigs::new((800, 600), FullScreenConfig::BorderlessFullscreen);
    assert_eq!(configs.size, (800, 600));
    assert_eq!(
        configs.full_screen_mode,
        FullScreenConfig::BorderlessFullscreen
    );
}

#[test]
fn plugin_installs_fullscreen_512_configs() {
    let configs = WindowUtilPlugin.initial_window_configs();
    assert_eq!(configs.size, (512, 512));
    assert_eq!(configs.full_screen_mode, FullScreenConfig::Fullscreen);
}

#[test]
fn toggle_enters_configured_fullscreen_from_windowed() {
    assert_eq!(
        next_window_mode(WindowModeKind::Windowed, &FullScreenConfig::Fullscreen),
        WindowModeKind::Fullscreen
    );
    assert_eq!(
        next_window_mode(
            WindowModeKind::Windowed,
            &FullScreenConfig::BorderlessFullscreen
        ),
        WindowModeKind::BorderlessFullscreen
    );
}

#[test]
fn toggle_returns_to_windowed_from_any_fullscreen() {
    for config in [
        FullScreenConfig::Fullscreen,
        FullScreenConfig::BorderlessFullscreen,
    ] {
        for current in [
            WindowModeKind::Fullscreen,
            WindowModeKind::BorderlessFullscreen,
        ] {
            assert_eq!(next_window_mode(current, &config), WindowModeKind::Windowed);
        }
    }
}

#[test]
fn wasd_direction_follows_the_pressed_keys() {
    assert_eq!(wasd_move_direction(false, false, false, false), (0, 0));
    assert_eq!(wasd_move_direction(true, false, false, false), (0, 1));
    assert_eq!(wasd_move_direction(false, true, false, false), (0, -1));
    assert_eq!(wasd_move_direction(false, false, true, false), (1, 0));
    assert_eq!(wasd_move_direction(false, false, false, true), (-1, 0));
    assert_eq!(wasd_move_direction(true, false, true, false), (1, 1));
}

#[test]
fn opposing_keys_cancel_out() {
    assert_eq!(wasd_move_direction(true, true, false, false), (0, 0));
    assert_eq!(wasd_move_direction(false, false, true, true), (0, 0));
    assert_eq!(wasd_move_direction(true, true, true, true), (0, 0));
}

#[test]
fn camera_moves_only_on_a_nonzero_direction() {
    assert!(!camera_should_move((0, 0)));
    assert!(camera_should_move((1, 0)));
    assert!(camera_should_move((0, -1)));
    assert!(camera_should_move((-1, 1)));
}
