use mouseless_core::basic_mode::BasicMode;
use mouseless_core::models::{Action, AnimationType, InteractionMode, KeyInput, MouseButton, ScrollDirection};
use mouseless_core::traits::KeyBindings;
use std::time::{SystemTime, UNIX_EPOCH};

fn create_test_input(key: char) -> KeyInput {
    let timestamp = SystemTime::now().duration_since(UNIX_EPOCH).unwrap().as_millis() as u64;
    KeyInput { key, modifiers: vec![], timestamp }
}

#[test]
fn test_basic_mode_creation() {
    let mode = BasicMode::new();
    assert_eq!(mode.get_movement_speed(), 100);
    assert!(!mode.is_fast_mode());
    assert!(!mode.is_holding());
}

#[test]
fn test_movement_keys() {
    let mut mode = BasicMode::new();
    let bindings = KeyBindings::default();
    let action = mode.process_input(create_test_input('i'), &bindings).unwrap();
    match action {
        Action::MoveCursor(pos, AnimationType::Smooth) => {
            assert_eq!(pos.x, 0);
            assert_eq!(pos.y, -20);
        }
        _ => panic!("Expected MoveCursor action for up movement"),
    }
    let action = mode.process_input(create_test_input('k'), &bindings).unwrap();
    match action {
        Action::MoveCursor(pos, AnimationType::Smooth) => {
            assert_eq!(pos.x, 0);
            assert_eq!(pos.y, 20);
        }
        _ => panic!("Expected MoveCursor action for down movement"),
    }
    let action = mode.process_input(create_test_input('j'), &bindings).unwrap();
    match action {
        Action::MoveCursor(pos, AnimationType::Smooth) => {
            assert_eq!(pos.x, -20);
            assert_eq!(pos.y, 0);
        }
        _ => panic!("Expected MoveCursor action for left movement"),
    }
    let action = mode.process_input(create_test_input('l'), &bindings).unwrap();
    match action {
        Action::MoveCursor(pos, AnimationType::Smooth) => {
            assert_eq!(pos.x, 20);
            assert_eq!(pos.y, 0);
        }
        _ => panic!("Expected MoveCursor action for right movement"),
    }
}

#[test]
fn test_click_keys() {
    let mut mode = BasicMode::new();
    let bindings = KeyBindings::default();
    assert_eq!(mode.process_input(create_test_input('n'), &bindings).unwrap(), Action::Click(MouseButton::Left));
    assert_eq!(mode.process_input(create_test_input('m'), &bindings).unwrap(), Action::Click(MouseButton::Right));
    assert_eq!(mode.process_input(create_test_input(','), &bindings).unwrap(), Action::Click(MouseButton::Middle));
}

#[test]
fn test_scroll_keys() {
    let mut mode = BasicMode::new();
    let bindings = KeyBindings::default();
    assert_eq!(mode.process_input(create_test_input('u'), &bindings).unwrap(), Action::Scroll(ScrollDirection::Up, 3));
    assert_eq!(mode.process_input(create_test_input('o'), &bindings).unwrap(), Action::Scroll(ScrollDirection::Down, 3));
    assert_eq!(mode.process_input(create_test_input('y'), &bindings).unwrap(), Action::Scroll(ScrollDirection::Left, 3));
    assert_eq!(mode.process_input(create_test_input('p'), &bindings).unwrap(), Action::Scroll(ScrollDirection::Right, 3));
}

#[test]
fn test_hold_toggle() {
    let mut mode = BasicMode::new();
    let bindings = KeyBindings::default();
    assert!(!mode.is_holding());
    let action = mode.process_input(create_test_input('b'), &bindings).unwrap();
    assert_eq!(action, Action::NoAction);
    assert!(mode.is_holding());
    let action = mode.process_input(create_test_input('b'), &bindings).unwrap();
    assert_eq!(action, Action::NoAction);
    assert!(!mode.is_holding());
}

#[test]
fn basic_mode_test_speed_toggle() {
    let mut mode = BasicMode::new();
    let bindings = KeyBindings::default();
    assert!(!mode.is_fast_mode());
    let action = mode.process_input(create_test_input('f'), &bindings).unwrap();
    assert_eq!(action, Action::ToggleSpeed);
    assert!(mode.is_fast_mode());
    let action = mode.process_input(create_test_input('i'), &bindings).unwrap();
    match action {
        Action::MoveCursor(pos, _) => {
            assert_eq!(pos.y, -60);
        }
        _ => panic!("Expected MoveCursor action"),
    }
}

#[test]
fn test_screen_switching() {
    let mut mode = BasicMode::new();
    let bindings = KeyBindings::default();
    let action = mode.process_input(create_test_input('1'), &bindings).unwrap();
    match action {
        Action::MoveCursor(pos, _) => assert_eq!(pos.screen_id, Some(1)),
        _ => panic!("Expected MoveCursor action for screen switch"),
    }
    let action = mode.process_input(create_test_input('2'), &bindings).unwrap();
    match action {
        Action::MoveCursor(pos, _) => assert_eq!(pos.screen_id, Some(2)),
        _ => panic!("Expected MoveCursor action for screen switch"),
    }
}

#[test]
fn test_mode_switching() {
    let mut mode = BasicMode::new();
    let bindings = KeyBindings::default();
    assert_eq!(mode.process_input(create_test_input('g'), &bindings).unwrap(), Action::ActivateMode(InteractionMode::Grid));
    assert_eq!(mode.process_input(create_test_input('a'), &bindings).unwrap(), Action::ActivateMode(InteractionMode::Area));
    assert_eq!(
        mode.process_input(create_test_input('r'), &bindings).unwrap(),
        Action::ActivateMode(InteractionMode::Prediction)
    );
}

#[test]
fn test_exit_key() {
    let mut mode = BasicMode::new();
    let bindings = KeyBindings::default();
    assert_eq!(mode.process_input(create_test_input(' '), &bindings).unwrap(), Action::Exit);
}

#[test]
fn basic_mode_test_movement_speed_setting() {
    let mut mode = BasicMode::new();
    mode.set_movement_speed(200);
    assert_eq!(mode.get_movement_speed(), 200);
    mode.set_movement_speed(1500);
    assert_eq!(mode.get_movement_speed(), 1000);
    mode.set_movement_speed(5);
    assert_eq!(mode.get_movement_speed(), 10);
}

#[test]
fn test_custom_movement_speed() {
    let mut mode = BasicMode::new();
    let bindings = KeyBindings::default();
    mode.set_movement_speed(200);
    let action = mode.process_input(create_test_input('i'), &bindings).unwrap();
    match action {
        Action::MoveCursor(pos, _) => assert_eq!(pos.y, -40),
        _ => panic!("Expected MoveCursor action"),
    }
}

#[test]
fn test_reset() {
    let mut mode = BasicMode::new();
    mode.set_movement_speed(200);
    mode.toggle_fast_mode();
    mode.toggle_hold_state();
    assert_eq!(mode.get_movement_speed(), 200);
    assert!(mode.is_fast_mode());
    assert!(mode.is_holding());
    mode.reset();
    assert_eq!(mode.get_movement_speed(), 100);
    assert!(!mode.is_fast_mode());
    assert!(!mode.is_holding());
}

#[test]
fn test_unrecognized_key() {
    let mut mode = BasicMode::new();
    let bindings = KeyBindings::default();
    assert_eq!(mode.process_input(create_test_input('x'), &bindings).unwrap(), Action::NoAction);
}

#[test]
fn test_state_info() {
    let mode = BasicMode::new();
    let info = mode.get_state_info();
    assert!(info.contains("speed: 1.0"));
    assert!(info.contains("fast: false"));
    assert!(info.contains("holding: false"));
}

#[test]
fn basic_state_info_exact() {
    let mut mode = BasicMode::new();
    mode.set_movement_speed(1000);
    mode.toggle_fast_mode();
    assert_eq!(mode.get_state_info(), "BasicMode { speed: 10.0, fast: true, holding: false }");
    mode.set_movement_speed(25);
    mode.toggle_hold_state();
    assert_eq!(mode.get_state_info(), "BasicMode { speed: 0.3, fast: true, holding: true }");
}

#[test]
fn basic_distances_round_to_nearest() {
    let mut mode = BasicMode::new();
    let b = KeyBindings::default();
    // 20 * 0.13 = 2.6 and 3 * 0.13 = 0.39.
    mode.set_movement_speed(13);
    assert_eq!(mode.process_input(create_test_input('l'), &b).unwrap(), Action::MoveCursor(mouseless_core::models::Position::new(3, 0), AnimationType::Smooth));
    assert_eq!(mode.process_input(create_test_input('u'), &b).unwrap(), Action::Scroll(ScrollDirection::Up, 0));
    // Fast: 20 * 0.13 * 3 = 7.8 and 3 * 0.13 * 2 = 0.78.
    mode.toggle_fast_mode();
    assert_eq!(mode.process_input(create_test_input('l'), &b).unwrap(), Action::MoveCursor(mouseless_core::models::Position::new(8, 0), AnimationType::Smooth));
    assert_eq!(mode.process_input(create_test_input('u'), &b).unwrap(), Action::Scroll(ScrollDirection::Up, 1));
}

#[test]
fn basic_speed_toggle_scales_and_restores() {
    let mut mode = BasicMode::new();
    let b = KeyBindings::default();
    let normal_move = mode.process_input(create_test_input('k'), &b).unwrap();
    let normal_scroll = mode.process_input(create_test_input('o'), &b).unwrap();
    mode.toggle_fast_mode();
    assert_eq!(mode.process_input(create_test_input('k'), &b).unwrap(), Action::MoveCursor(mouseless_core::models::Position::new(0, 60), AnimationType::Smooth));
    assert_eq!(mode.process_input(create_test_input('o'), &b).unwrap(), Action::Scroll(ScrollDirection::Down, 6));
    mode.toggle_fast_mode();
    assert_eq!(mode.process_input(create_test_input('k'), &b).unwrap(), normal_move);
    assert_eq!(mode.process_input(create_test_input('o'), &b).unwrap(), normal_scroll);
}
