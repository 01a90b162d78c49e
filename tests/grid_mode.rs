use mouseless_core::grid::GridManager;
use mouseless_core::grid_mode::GridMode;
use mouseless_core::models::{Action, AnimationType, GridConfig, InteractionMode, KeyInput, Position, ScreenBounds};
use mouseless_core::traits::KeyBindings;
use std::time::{SystemTime, UNIX_EPOCH};

fn now_ms() -> u64 {
    SystemTime::now().duration_since(UNIX_EPOCH).unwrap().as_millis() as u64
}

fn create_test_input(key: char) -> KeyInput {
    KeyInput { key, modifiers: vec![], timestamp: now_ms() }
}

fn input_at(key: char, timestamp: u64) -> KeyInput {
    KeyInput { key, modifiers: vec![], timestamp }
}

fn create_test_grid_manager() -> GridManager {
    let config = GridConfig { rows: 3, columns: 3, show_labels: true, animation_style: AnimationType::Smooth };
    let screen_bounds = ScreenBounds { id: 1, x: 0, y: 0, width: 1920, height: 1080, is_primary: true };
    GridManager::new(config, screen_bounds).unwrap()
}

#[test]
fn test_grid_mode_creation() {
    let grid_mode = GridMode::new();
    assert!(!grid_mode.is_active());
    assert!(grid_mode.get_grid_manager().is_none());
}

#[test]
fn test_grid_mode_activation() {
    let mut grid_mode = GridMode::new();
    grid_mode.activate();
    assert!(grid_mode.is_active());
    grid_mode.deactivate();
    assert!(!grid_mode.is_active());
}

#[test]
fn test_valid_key_checking() {
    let grid_mode = GridMode::new();
    assert!(grid_mode.is_valid_first_key('a'));
    assert!(grid_mode.is_valid_first_key('s'));
    assert!(grid_mode.is_valid_first_key('j'));
    assert!(grid_mode.is_valid_first_key('l'));
    assert!(!grid_mode.is_valid_first_key('q'));
    assert!(!grid_mode.is_valid_first_key('1'));
    assert!(!grid_mode.is_valid_first_key('z'));
    assert!(grid_mode.is_valid_second_key('q'));
    assert!(grid_mode.is_valid_second_key('w'));
    assert!(grid_mode.is_valid_second_key('i'));
    assert!(grid_mode.is_valid_second_key('p'));
    assert!(!grid_mode.is_valid_second_key('a'));
    assert!(!grid_mode.is_valid_second_key('1'));
    assert!(!grid_mode.is_valid_second_key('z'));
}

#[test]
fn test_key_sequence_processing() {
    let mut grid_mode = GridMode::new();
    grid_mode.set_grid_manager(Some(create_test_grid_manager()));
    grid_mode.activate();
    let key_bindings = KeyBindings::default();
    let action = grid_mode.process_input(create_test_input('a'), &key_bindings).unwrap();
    assert_eq!(action, Action::NoAction);
    assert!(grid_mode.is_waiting_for_second_key());
    let action = grid_mode.process_input(create_test_input('q'), &key_bindings).unwrap();
    match action {
        Action::MoveCursor(pos, AnimationType::Smooth) => {
            assert!(pos.x > 0);
            assert!(pos.y > 0);
        }
        _ => panic!("Expected MoveCursor action, got {:?}", action),
    }
    assert!(!grid_mode.is_waiting_for_second_key());
}

#[test]
fn test_invalid_key_sequence() {
    let mut grid_mode = GridMode::new();
    grid_mode.set_grid_manager(Some(create_test_grid_manager()));
    grid_mode.activate();
    let key_bindings = KeyBindings::default();
    let action = grid_mode.process_input(create_test_input('1'), &key_bindings).unwrap();
    assert_eq!(action, Action::NoAction);
    assert!(!grid_mode.is_waiting_for_second_key());
    grid_mode.process_input(create_test_input('a'), &key_bindings).unwrap();
    assert!(grid_mode.is_waiting_for_second_key());
    let action = grid_mode.process_input(create_test_input('1'), &key_bindings).unwrap();
    assert_eq!(action, Action::NoAction);
    assert!(!grid_mode.is_waiting_for_second_key());
}

#[test]
fn grid_mode_test_exit_keys() {
    let mut grid_mode = GridMode::new();
    grid_mode.activate();
    let key_bindings = KeyBindings::default();
    let action = grid_mode.process_input(create_test_input(' '), &key_bindings).unwrap();
    assert_eq!(action, Action::Exit);
    let action = grid_mode.process_input(create_test_input('\x1b'), &key_bindings).unwrap();
    assert_eq!(action, Action::Exit);
}

#[test]
fn test_mode_switching_keys() {
    let mut grid_mode = GridMode::new();
    grid_mode.activate();
    let key_bindings = KeyBindings::default();
    let action = grid_mode.process_input(create_test_input('p'), &key_bindings).unwrap();
    assert_eq!(action, Action::ActivateMode(InteractionMode::Prediction));
    let action = grid_mode.process_input(create_test_input('b'), &key_bindings).unwrap();
    assert_eq!(action, Action::ActivateMode(InteractionMode::Basic));
    let action = grid_mode.process_input(create_test_input('a'), &key_bindings).unwrap();
    assert_eq!(action, Action::NoAction);
}

#[test]
fn test_get_valid_combinations() {
    let mut grid_mode = GridMode::new();
    let grid_manager = create_test_grid_manager();
    assert!(grid_mode.get_valid_combinations().is_empty());
    grid_mode.set_grid_manager(Some(grid_manager));
    let combinations = grid_mode.get_valid_combinations();
    assert_eq!(combinations.len(), 9);
    for combo in combinations {
        assert_eq!(combo.len(), 2);
    }
}

#[test]
fn test_current_sequence_display() {
    let mut grid_mode = GridMode::new();
    grid_mode.set_grid_manager(Some(create_test_grid_manager()));
    grid_mode.activate();
    let key_bindings = KeyBindings::default();
    assert_eq!(grid_mode.get_current_sequence(), None);
    grid_mode.process_input(create_test_input('a'), &key_bindings).unwrap();
    assert_eq!(grid_mode.get_current_sequence(), Some("a_".to_string()));
    grid_mode.process_input(create_test_input('q'), &key_bindings).unwrap();
    assert_eq!(grid_mode.get_current_sequence(), None);
}

#[test]
fn grid_mode_resolves_exact_cell_center() {
    let mut grid_mode = GridMode::new();
    grid_mode.set_grid_manager(Some(create_test_grid_manager()));
    grid_mode.activate();
    let b = KeyBindings::default();
    assert_eq!(grid_mode.process_input(input_at('a', 1_000), &b).unwrap(), Action::NoAction);
    let action = grid_mode.process_input(input_at('t', 1_100), &b).unwrap();
    assert_eq!(action, Action::MoveCursor(Position::new(960, 540), AnimationType::Smooth));
}

#[test]
fn grid_mode_stale_combination_and_expiry() {
    let mut grid_mode = GridMode::new();
    grid_mode.set_grid_manager(Some(create_test_grid_manager()));
    grid_mode.activate();
    let b = KeyBindings::default();
    grid_mode.process_input(input_at('l', 1_000), &b).unwrap();
    assert_eq!(grid_mode.process_input(input_at('p', 1_200), &b).unwrap(), Action::NoAction);
    assert_eq!(grid_mode.get_current_sequence(), None);
    grid_mode.process_input(input_at('a', 5_000), &b).unwrap();
    assert!(grid_mode.is_waiting_for_second_key_at(6_000));
    assert!(!grid_mode.is_waiting_for_second_key_at(6_001));
    assert_eq!(grid_mode.process_input(input_at('q', 6_001), &b).unwrap(), Action::NoAction);
    assert_eq!(grid_mode.get_current_sequence(), None);
}

#[test]
fn grid_mode_inactive_and_without_grid() {
    let mut grid_mode = GridMode::new();
    let b = KeyBindings::default();
    assert_eq!(grid_mode.process_input(create_test_input(' '), &b).unwrap(), Action::NoAction);
    grid_mode.activate();
    assert_eq!(grid_mode.process_input(create_test_input('a'), &b).unwrap(), Action::NoAction);
    assert_eq!(grid_mode.get_current_sequence(), None);
}
