use mouseless_core::grid::GridManager;
use mouseless_core::mode::{ModeEvent, ModeManager, MAX_MODE_HISTORY};
use mouseless_core::models::{Action, AnimationType, GridConfig, InteractionMode, KeyInput, MouseButton, Position, ScreenBounds};
use mouseless_core::traits::KeyBindings;
use std::time::{SystemTime, UNIX_EPOCH};

fn create_test_input(key: char) -> KeyInput {
    let timestamp = SystemTime::now().duration_since(UNIX_EPOCH).unwrap().as_millis() as u64;
    KeyInput { key, modifiers: vec![], timestamp }
}

#[test]
fn test_mode_activation() {
    let mut manager = ModeManager::new(KeyBindings::default());
    assert!(!manager.is_active());
    assert_eq!(manager.get_current_mode(), None);
    manager.activate_mode(InteractionMode::Basic).unwrap();
    assert!(manager.is_active());
    assert_eq!(manager.get_current_mode(), Some(InteractionMode::Basic));
    manager.activate_mode(InteractionMode::Grid).unwrap();
    assert_eq!(manager.get_current_mode(), Some(InteractionMode::Grid));
    let history = manager.get_mode_history();
    assert_eq!(history.len(), 1);
    assert_eq!(history[0], InteractionMode::Basic);
}

#[test]
fn test_mode_deactivation() {
    let mut manager = ModeManager::new(KeyBindings::default());
    manager.activate_mode(InteractionMode::Basic).unwrap();
    assert!(manager.is_active());
    manager.deactivate_current_mode().unwrap();
    assert!(!manager.is_active());
    assert_eq!(manager.get_current_mode(), None);
}

#[test]
fn test_basic_input_processing() {
    let mut manager = ModeManager::new(KeyBindings::default());
    let action = manager.handle_input(create_test_input('i')).unwrap();
    match action {
        Action::MoveCursor(pos, _) => {
            assert_eq!(pos.x, 0);
            assert!(pos.y < 0);
        }
        _ => panic!("Expected MoveCursor action"),
    }
    assert_eq!(manager.handle_input(create_test_input('n')).unwrap(), Action::Click(MouseButton::Left));
    assert_eq!(manager.handle_input(create_test_input(' ')).unwrap(), Action::Exit);
}

#[test]
fn test_mode_switching_via_input() {
    let mut manager = ModeManager::new(KeyBindings::default());
    assert_eq!(manager.handle_input(create_test_input('g')).unwrap(), Action::ActivateMode(InteractionMode::Grid));
    assert_eq!(manager.handle_input(create_test_input('a')).unwrap(), Action::ActivateMode(InteractionMode::Area));
}

#[test]
fn mode_test_speed_toggle() {
    let mut manager = ModeManager::new(KeyBindings::default());
    assert!(!manager.is_fast_mode());
    manager.toggle_speed();
    assert!(manager.is_fast_mode());
    manager.toggle_speed();
    assert!(!manager.is_fast_mode());
}

#[test]
fn test_hold_state() {
    let mut manager = ModeManager::new(KeyBindings::default());
    assert!(!manager.is_holding());
    manager.set_hold_state(true);
    assert!(manager.is_holding());
    manager.set_hold_state(false);
    assert!(!manager.is_holding());
}

#[test]
fn test_mode_history_limit() {
    let mut manager = ModeManager::new(KeyBindings::default());
    for i in 0..15 {
        let mode = match i % 4 {
            0 => InteractionMode::Basic,
            1 => InteractionMode::Grid,
            2 => InteractionMode::Area,
            _ => InteractionMode::Prediction,
        };
        manager.add_to_history(mode);
    }
    let history = manager.get_mode_history();
    assert!(history.len() <= MAX_MODE_HISTORY);
}

#[test]
fn test_mode_manager_event_system() {
    let mut manager = ModeManager::new(KeyBindings::default());
    manager.activate_mode(InteractionMode::Basic).unwrap();
    let events = manager.take_events();
    assert_eq!(events[0], ModeEvent::ModeActivated(InteractionMode::Basic));
    manager.activate_mode(InteractionMode::Grid).unwrap();
    let events = manager.take_events();
    assert_eq!(events[0], ModeEvent::ModeChanged { from: InteractionMode::Basic, to: InteractionMode::Grid });
    manager.deactivate_current_mode().unwrap();
    let events = manager.take_events();
    assert_eq!(events[0], ModeEvent::ModeDeactivated(InteractionMode::Grid));
}

#[test]
fn test_mode_manager_state_synchronization() {
    let mut manager = ModeManager::new(KeyBindings::default());
    manager.set_movement_speed(250);
    assert_eq!(manager.get_movement_speed(), 250);
    assert!(!manager.is_holding());
    manager.set_hold_state(true);
    assert!(manager.is_holding());
    manager.toggle_speed();
    let action = manager.handle_input(create_test_input('i')).unwrap();
    match action {
        Action::MoveCursor(pos, _) => assert_eq!(pos.y, -150),
        _ => panic!("Expected MoveCursor action"),
    }
}

#[test]
fn test_mode_manager_history_tracking() {
    let mut manager = ModeManager::new(KeyBindings::default());
    assert_eq!(manager.get_mode_history().len(), 0);
    manager.activate_mode(InteractionMode::Basic).unwrap();
    manager.activate_mode(InteractionMode::Grid).unwrap();
    manager.activate_mode(InteractionMode::Area).unwrap();
    let history = manager.get_mode_history();
    assert_eq!(history.len(), 2);
    assert_eq!(history[0], InteractionMode::Grid);
    assert_eq!(history[1], InteractionMode::Basic);
}

#[test]
fn history_moves_repeated_mode_to_front() {
    let mut manager = ModeManager::new(KeyBindings::default());
    manager.activate_mode(InteractionMode::Area).unwrap();
    manager.activate_mode(InteractionMode::Basic).unwrap();
    manager.activate_mode(InteractionMode::Area).unwrap();
    assert_eq!(manager.get_mode_history(), vec![InteractionMode::Basic, InteractionMode::Area]);
    for _ in 0..20 {
        manager.add_to_history(InteractionMode::Grid);
        manager.add_to_history(InteractionMode::Prediction);
    }
    let history = manager.get_mode_history();
    assert_eq!(history, vec![InteractionMode::Prediction, InteractionMode::Grid, InteractionMode::Basic, InteractionMode::Area]);
}

#[test]
fn same_mode_twice_reports_activation() {
    let mut manager = ModeManager::new(KeyBindings::default());
    manager.activate_mode(InteractionMode::Grid).unwrap();
    manager.activate_mode(InteractionMode::Grid).unwrap();
    assert_eq!(
        manager.take_events(),
        vec![ModeEvent::ModeActivated(InteractionMode::Grid), ModeEvent::ModeActivated(InteractionMode::Grid)]
    );
    assert!(manager.get_mode_history().is_empty());
    manager.deactivate_current_mode().unwrap();
    manager.deactivate_current_mode().unwrap();
    assert_eq!(manager.take_events(), vec![ModeEvent::ModeDeactivated(InteractionMode::Grid)]);
}

#[test]
fn input_processed_reports_mode_before_switch() {
    let mut manager = ModeManager::new(KeyBindings::default());
    manager.handle_input(create_test_input('i')).unwrap();
    assert!(manager.take_events().is_empty());
    manager.activate_mode(InteractionMode::Basic).unwrap();
    manager.take_events();
    let action = manager.handle_input(create_test_input('g')).unwrap();
    assert_eq!(action, Action::ActivateMode(InteractionMode::Grid));
    assert_eq!(manager.get_current_mode(), Some(InteractionMode::Basic));
    assert_eq!(
        manager.take_events(),
        vec![ModeEvent::InputProcessed { mode: InteractionMode::Basic, action: Action::ActivateMode(InteractionMode::Grid) }]
    );
}

#[test]
fn routes_to_area_mode() {
    let mut manager = ModeManager::new(KeyBindings::default());
    manager.set_area_screen_dimensions(1920, 1080);
    manager.activate_mode(InteractionMode::Area).unwrap();
    assert_eq!(manager.get_current_areas().len(), 9);
    assert_eq!(manager.handle_input(create_test_input('q')).unwrap(), Action::HighlightArea('q'));
    assert_eq!(
        manager.handle_input(create_test_input('d')).unwrap(),
        Action::MoveCursor(Position::new(640, 360), AnimationType::Smooth)
    );
    assert_eq!(manager.handle_input(create_test_input(' ')).unwrap(), Action::DeactivateMode);
}

#[test]
fn end_to_end_default_bindings() {
    let mut manager = ModeManager::new(KeyBindings::default());
    manager.activate_mode(InteractionMode::Basic).unwrap();
    assert_eq!(
        manager.handle_input(create_test_input('i')).unwrap(),
        Action::MoveCursor(Position::new(0, -20), AnimationType::Smooth)
    );
    assert_eq!(manager.handle_input(create_test_input('f')).unwrap(), Action::ToggleSpeed);
    assert!(manager.is_fast_mode());
    assert_eq!(
        manager.handle_input(create_test_input('i')).unwrap(),
        Action::MoveCursor(Position::new(0, -60), AnimationType::Smooth)
    );
}

#[test]
fn grid_cell_position_query() {
    let mut manager = ModeManager::new(KeyBindings::default());
    assert_eq!(manager.get_grid_cell_position("aq"), None);
    let grid = GridManager::new(
        GridConfig { rows: 2, columns: 2, show_labels: true, animation_style: AnimationType::Smooth },
        ScreenBounds { id: 0, x: 0, y: 0, width: 1000, height: 800, is_primary: true },
    )
    .unwrap();
    manager.set_grid_manager(Some(grid));
    assert_eq!(manager.get_grid_cell_position("ae"), Some(Position::new(250, 600)));
    assert_eq!(manager.get_grid_cell_position("ar"), Some(Position::new(750, 600)));
    assert_eq!(manager.get_grid_cell_position("at"), None);
    manager.activate_mode(InteractionMode::Grid).unwrap();
    assert_eq!(manager.handle_input(create_test_input('a')).unwrap(), Action::NoAction);
    assert_eq!(manager.get_current_key_sequence(), Some("a_".to_string()));
    assert!(manager.is_waiting_for_second_key());
    assert_eq!(
        manager.handle_input(create_test_input('w')).unwrap(),
        Action::MoveCursor(Position::new(750, 200), AnimationType::Smooth)
    );
}
