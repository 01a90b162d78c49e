use mouseless_core::input::{ActivationConfig, ActivationKey, DoubleClickState, InputHandler, Key};
use mouseless_core::models::{Action, AnimationType, InteractionMode, KeyInput, KeyModifier, Position};
use mouseless_core::traits::KeyBindings;

fn key_input(key: char) -> KeyInput {
    KeyInput { key, modifiers: vec![], timestamp: 0 }
}

#[test]
fn test_activation_key_to_key() {
    assert_eq!(ActivationKey::CapsLock.to_key(), Key::CapsLock);
    assert_eq!(ActivationKey::Ctrl.to_key(), Key::ControlLeft);
    assert_eq!(ActivationKey::F1.to_key(), Key::F1);
}

#[test]
fn test_default_activation_config() {
    let config = ActivationConfig::default();
    assert_eq!(config.trigger_key, ActivationKey::CapsLock);
    assert!(config.double_click_required);
    assert_eq!(config.double_click_timeout_ms, 300);
}

#[test]
fn test_key_bindings_validation() {
    let valid_bindings = KeyBindings::default();
    let result = InputHandler::validate_key_bindings(&valid_bindings);
    if let Err(e) = &result {
        println!("Validation error: {:?}", e);
        println!("Default bindings: {:?}", valid_bindings);
    }
    assert!(result.is_ok());
    let mut invalid_bindings = KeyBindings::default();
    invalid_bindings.move_up = 'n';
    assert!(InputHandler::validate_key_bindings(&invalid_bindings).is_err());
}

#[test]
fn test_double_click_state() {
    let state = DoubleClickState::default();
    assert_eq!(state.click_count, 0);
    assert!(state.last_press_time.is_none());
}

#[test]
fn test_input_handler_creation() {
    let handler = InputHandler::new().unwrap();
    assert!(!handler.is_active());
}

#[test]
fn test_process_key_event() {
    let handler = InputHandler::new().unwrap();
    let key_input = KeyInput { key: 'i', modifiers: vec![], timestamp: 0 };
    let action = handler.process_key_event(key_input.clone()).unwrap();
    assert_eq!(action, Action::NoAction);
    let mut handler = handler;
    handler.activate().unwrap();
    let action = handler.process_key_event(key_input).unwrap();
    match action {
        Action::MoveCursor(pos, AnimationType::Smooth) => {
            assert_eq!(pos.x, 0);
            assert_eq!(pos.y, -10);
        }
        _ => panic!("Expected MoveCursor action"),
    }
}

#[test]
fn test_update_bindings() {
    let mut handler = InputHandler::new().unwrap();
    let mut new_bindings = KeyBindings::default();
    new_bindings.move_up = 'w';
    let result = handler.update_bindings(new_bindings.clone());
    assert!(result.is_ok());
    let stored_bindings = handler.get_key_bindings();
    assert_eq!(stored_bindings.move_up, 'w');
}

#[test]
fn test_char_to_key_conversion() {
    assert_eq!(InputHandler::char_to_key('a'), Some(Key::KeyA));
    assert_eq!(InputHandler::char_to_key('z'), Some(Key::KeyZ));
    assert_eq!(InputHandler::char_to_key('1'), Some(Key::Num1));
    assert_eq!(InputHandler::char_to_key(' '), Some(Key::Space));
    assert_eq!(InputHandler::char_to_key('!'), None);
}

#[test]
fn test_key_to_char_conversion() {
    assert_eq!(InputHandler::key_to_char(&Key::KeyA), Some('a'));
    assert_eq!(InputHandler::key_to_char(&Key::KeyZ), Some('z'));
    assert_eq!(InputHandler::key_to_char(&Key::Num1), Some('1'));
    assert_eq!(InputHandler::key_to_char(&Key::Space), Some(' '));
    assert_eq!(InputHandler::key_to_char(&Key::F1), None);
}

#[test]
fn test_is_modifier_key() {
    assert!(InputHandler::is_modifier_key(&Key::ShiftLeft));
    assert!(InputHandler::is_modifier_key(&Key::ControlLeft));
    assert!(InputHandler::is_modifier_key(&Key::Alt));
    assert!(InputHandler::is_modifier_key(&Key::MetaLeft));
    assert!(!InputHandler::is_modifier_key(&Key::KeyA));
    assert!(!InputHandler::is_modifier_key(&Key::Space));
}

#[test]
fn double_press_within_window_activates_once() {
    let mut handler = InputHandler::new().unwrap();
    handler.register_activation_hotkey().unwrap();
    assert_eq!(handler.process_key_press_safe(Key::CapsLock, 1_000).unwrap(), None);
    assert_eq!(
        handler.process_key_press_safe(Key::CapsLock, 1_200).unwrap(),
        Some(Action::ActivateMode(InteractionMode::Basic))
    );
    assert!(handler.is_active());
    // While active, another double press does nothing.
    assert_eq!(handler.process_key_press_safe(Key::CapsLock, 1_300).unwrap(), None);
    assert_eq!(handler.process_key_press_safe(Key::CapsLock, 1_350).unwrap(), None);
}

#[test]
fn slow_double_press_restarts_count() {
    let mut handler = InputHandler::new().unwrap();
    handler.register_activation_hotkey().unwrap();
    assert_eq!(handler.process_key_press_safe(Key::CapsLock, 1_000).unwrap(), None);
    assert_eq!(handler.process_key_press_safe(Key::CapsLock, 1_301).unwrap(), None);
    assert!(!handler.is_active());
    assert_eq!(
        handler.process_key_press_safe(Key::CapsLock, 1_500).unwrap(),
        Some(Action::ActivateMode(InteractionMode::Basic))
    );
}

#[test]
fn detector_counts_and_resets() {
    let mut state = DoubleClickState::default();
    assert!(!InputHandler::handle_double_click_detection(&mut state, 300, 10).unwrap());
    assert_eq!(state, DoubleClickState { last_press_time: Some(10), click_count: 1 });
    assert!(InputHandler::handle_double_click_detection(&mut state, 300, 310).unwrap());
    assert_eq!(state, DoubleClickState::default());
    assert!(!InputHandler::handle_double_click_detection(&mut state, 300, 400).unwrap());
    assert!(!InputHandler::handle_double_click_detection(&mut state, 300, 800).unwrap());
    assert_eq!(state, DoubleClickState { last_press_time: Some(800), click_count: 1 });
}

#[test]
fn single_press_policy_and_modifiers() {
    let mut handler = InputHandler::new().unwrap();
    let config = ActivationConfig {
        trigger_key: ActivationKey::F5,
        modifier_keys: vec![KeyModifier::Ctrl],
        double_click_required: false,
        double_click_timeout_ms: 300,
        activation_timeout_ms: 5000,
    };
    handler.update_activation_config(config).unwrap();
    handler.register_activation_hotkey().unwrap();
    assert_eq!(handler.process_key_press_safe(Key::F5, 0).unwrap(), None);
    assert_eq!(handler.process_key_press_safe(Key::ControlLeft, 1).unwrap(), None);
    assert_eq!(handler.process_key_press_safe(Key::F5, 2).unwrap(), Some(Action::ActivateMode(InteractionMode::Basic)));
    assert_eq!(
        handler.process_key_press_safe(Key::KeyL, 3).unwrap(),
        Some(Action::MoveCursor(Position::new(10, 0), AnimationType::Smooth))
    );
    assert_eq!(handler.process_key_press_safe(Key::KeyX, 4).unwrap(), None);
    handler.process_key_release(Key::ControlLeft);
    handler.deactivate().unwrap();
    assert_eq!(handler.process_key_press_safe(Key::F5, 5).unwrap(), None);
}

#[test]
fn unregistered_trigger_is_ignored() {
    let mut handler = InputHandler::new().unwrap();
    assert_eq!(handler.process_key_press_safe(Key::CapsLock, 0).unwrap(), None);
    assert_eq!(handler.process_key_press_safe(Key::CapsLock, 100).unwrap(), None);
    assert!(!handler.is_active());
}

#[test]
fn register_hotkey_rejects_unknown_char() {
    let mut handler = InputHandler::new().unwrap();
    assert!(handler.register_hotkey('!', vec![]).is_err());
    assert!(handler.register_hotkey('K', vec![KeyModifier::Shift]).is_ok());
}

#[test]
fn binding_validation_errors() {
    let mut b = KeyBindings::default();
    b.middle_click = Some('i');
    assert!(InputHandler::validate_key_bindings(&b).is_err());
    let mut b = KeyBindings::default();
    b.exit_key = '\t';
    assert!(InputHandler::validate_key_bindings(&b).is_err());
    let mut b = KeyBindings::default();
    b.middle_click = None;
    b.exit_key = '\'';
    assert!(InputHandler::validate_key_bindings(&b).is_ok());
    let mut handler = InputHandler::new().unwrap();
    let mut bad = KeyBindings::default();
    bad.screen_3 = '1';
    assert!(handler.update_bindings(bad).is_err());
    assert_eq!(handler.get_key_bindings(), KeyBindings::default());
    assert_eq!(handler.process_key_event(key_input('i')).unwrap(), Action::NoAction);
}
