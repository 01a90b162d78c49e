use mouseless_core::models::{Position, ScreenBounds};
use mouseless_core::mouse::{relative_target, resolve_move, scroll_motion, speed_to_pixels, validate_position, ScrollAxis};
use mouseless_core::config::MovementConfig;
use mouseless_core::models::{InteractionMode, MovementSpeed, ScrollDirection};
use mouseless_core::traits::{KeyBindings, Theme};
use mouseless_core::AppInfo;

#[test]
fn test_app_info() {
    let info = AppInfo::default();
    assert_eq!(info.name, "Mouseless");
    assert!(!info.version.is_empty());
    assert!(!info.description.is_empty());
}

#[test]
fn test_position_creation() {
    let pos = Position::new(100, 200);
    assert_eq!(pos.x, 100);
    assert_eq!(pos.y, 200);
    assert_eq!(pos.screen_id, None);
    let pos_with_screen = Position::with_screen(100, 200, 1);
    assert_eq!(pos_with_screen.screen_id, Some(1));
}

#[test]
fn test_screen_bounds() {
    let bounds = ScreenBounds { id: 1, x: 0, y: 0, width: 1920, height: 1080, is_primary: true };
    let center = bounds.center();
    assert_eq!(center.x, 960);
    assert_eq!(center.y, 540);
    assert_eq!(center.screen_id, Some(1));
    assert!(bounds.contains(Position::new(500, 500)));
    assert!(!bounds.contains(Position::new(2000, 500)));
}

#[test]
fn test_default_key_bindings() {
    let bindings = KeyBindings::default();
    assert_eq!(bindings.move_up, 'i');
    assert_eq!(bindings.move_down, 'k');
    assert_eq!(bindings.left_click, 'n');
    assert_eq!(bindings.right_click, 'm');
}

#[test]
fn test_default_theme() {
    let theme = Theme::default();
    assert_eq!(theme.name, "default");
    assert_eq!(theme.overlay_opacity, 80);
    assert!(theme.glassmorphism_enabled);
}

#[test]
fn test_speed_to_pixels() {
    assert_eq!(speed_to_pixels(MovementSpeed::Slow), 5);
    assert_eq!(speed_to_pixels(MovementSpeed::Normal), 15);
    assert_eq!(speed_to_pixels(MovementSpeed::Fast), 30);
}

#[test]
fn screen_bounds_edges_and_far_screens() {
    let bounds = ScreenBounds { id: 4, x: 2_000_000_000, y: -100, width: 100_000_000, height: 50, is_primary: false };
    assert!(bounds.contains(Position::new(2_099_999_999, -51)));
    assert!(!bounds.contains(Position::new(2_000_000_000, -50)));
    let center = bounds.center();
    assert_eq!((center.x, center.y), (2_050_000_000, -75));
}

#[test]
fn pointer_targets_clamp_to_screen() {
    let screens = vec![
        ScreenBounds { id: 0, x: 0, y: 0, width: 1920, height: 1080, is_primary: true },
        ScreenBounds { id: 1, x: 1920, y: 0, width: 1280, height: 720, is_primary: false },
    ];
    assert_eq!(validate_position(&screens, Position::new(-100, -100)).unwrap(), Position::with_screen(0, 0, 0));
    assert_eq!(validate_position(&screens, Position::new(5000, 500)).unwrap(), Position::with_screen(1919, 500, 0));
    assert_eq!(
        validate_position(&screens, Position::with_screen(100, 900, 1)).unwrap(),
        Position::with_screen(1920, 719, 1)
    );
    assert!(validate_position(&screens, Position::with_screen(0, 0, 5)).is_err());
    assert_eq!(relative_target(Position::new(100, 100), 1, -2, MovementSpeed::Normal), Position::new(115, 70));
    assert_eq!(relative_target(Position::new(i32::MAX, 0), 1, 0, MovementSpeed::Fast), Position::new(i32::MAX, 0));
}

#[test]
fn test_position_validation() {
    let screens = mouseless_core::screen::ScreenManager::detect_screens().unwrap();
    let pos = Position::new(100, 100);
    let validated = validate_position(&screens, pos);
    assert!(validated.is_ok());
    let pos = Position::new(-100, -100);
    let validated = validate_position(&screens, pos).unwrap();
    assert!(validated.x >= 0);
    assert!(validated.y >= 0);
}

#[test]
fn scroll_directions_turn_the_wheels() {
    assert_eq!(scroll_motion(ScrollDirection::Up, 3), (3, ScrollAxis::Vertical));
    assert_eq!(scroll_motion(ScrollDirection::Down, 3), (-3, ScrollAxis::Vertical));
    assert_eq!(scroll_motion(ScrollDirection::Left, 6), (-6, ScrollAxis::Horizontal));
    assert_eq!(scroll_motion(ScrollDirection::Right, 6), (6, ScrollAxis::Horizontal));
    assert_eq!(scroll_motion(ScrollDirection::Down, i32::MIN), (i32::MAX, ScrollAxis::Vertical));
}

#[test]
fn moves_resolve_by_mode() {
    let current = Position::new(500, 400);
    assert_eq!(resolve_move(None, current, Position::new(0, -20)), Position::new(500, 380));
    assert_eq!(resolve_move(Some(InteractionMode::Basic), current, Position::new(20, 0)), Position::new(520, 400));
    assert_eq!(resolve_move(Some(InteractionMode::Grid), current, Position::new(320, 180)), Position::new(320, 180));
    assert_eq!(resolve_move(Some(InteractionMode::Area), current, Position::new(640, 360)), Position::new(640, 360));
    assert_eq!(resolve_move(None, current, Position::with_screen(0, 0, 2)), Position::with_screen(0, 0, 2));
    assert_eq!(resolve_move(None, Position::new(i32::MIN + 5, 0), Position::new(-60, 0)), Position::new(i32::MIN, 0));
}

#[test]
fn initial_speed_from_settings() {
    let mut movement = MovementConfig::default();
    assert_eq!(movement.initial_speed(), 100);
    movement.default_speed = MovementSpeed::Fast;
    assert_eq!(movement.initial_speed(), 200);
    movement.default_speed = MovementSpeed::Slow;
    assert_eq!(movement.initial_speed(), 50);
}
