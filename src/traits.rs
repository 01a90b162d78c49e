//! The key-binding table and the interfaces that the components implement.

use vstd::prelude::*;
use vstd::string::StringExecFns;

use crate::error::{InputResult, Result};
use crate::models::{Action, InteractionMode, KeyInput, KeyModifier};

verus! {

/// Which key triggers which basic-mode command.
#[derive(Debug, Clone, Copy, PartialEq, Eq, Structural)]
pub struct KeyBindings {
    pub move_up: char,
    pub move_down: char,
    pub move_left: char,
    pub move_right: char,
    pub left_click: char,
    pub right_click: char,
    pub middle_click: Option<char>,
    pub scroll_up: char,
    pub scroll_down: char,
    pub scroll_left: char,
    pub scroll_right: char,
    pub grid_mode: char,
    pub area_mode: char,
    pub prediction_mode: char,
    pub speed_toggle: char,
    pub hold_toggle: char,
    pub exit_key: char,
    pub screen_1: char,
    pub screen_2: char,
    pub screen_3: char,
}

/// The default layout: I/K/J/L move, N/M click (`,` middle), U/O/Y/P
/// scroll, G/A/R pick a mode, F toggles speed, B toggles hold, space
/// exits, 1/2/3 pick a screen.
pub open spec fn default_key_bindings() -> KeyBindings {
    KeyBindings {
        move_up: 'i',
        move_down: 'k',
        move_left: 'j',
        move_right: 'l',
        left_click: 'n',
        right_click: 'm',
        middle_click: Some(','),
        scroll_up: 'u',
        scroll_down: 'o',
        scroll_left: 'y',
        scroll_right: 'p',
        grid_mode: 'g',
        area_mode: 'a',
        prediction_mode: 'r',
        speed_toggle: 'f',
        hold_toggle: 'b',
        exit_key: ' ',
        screen_1: '1',
        screen_2: '2',
        screen_3: '3',
    }
}

impl Default for KeyBindings {
    fn default() -> (r: Self)
        ensures
            r == default_key_bindings(),
    {
        KeyBindings {
            move_up: 'i',
            move_down: 'k',
            move_left: 'j',
            move_right: 'l',
            left_click: 'n',
            right_click: 'm',
            middle_click: Some(','),
            scroll_up: 'u',
            scroll_down: 'o',
            scroll_left: 'y',
            scroll_right: 'p',
            grid_mode: 'g',
            area_mode: 'a',
            prediction_mode: 'r',
            speed_toggle: 'f',
            hold_toggle: 'b',
            exit_key: ' ',
            screen_1: '1',
            screen_2: '2',
            screen_3: '3',
        }
    }
}

/// Colors and effects of the overlays. Opacity is in hundredths.
#[derive(Debug, Clone, PartialEq, Eq)]
pub struct Theme {
    pub name: String,
    pub primary_color: String,
    pub secondary_color: String,
    pub background_color: String,
    pub text_color: String,
    pub overlay_opacity: i32,
    pub animation_duration_ms: u64,
    pub glassmorphism_enabled: bool,
}

impl Default for Theme {
    /// The "default" theme: blue and green on black, white text, 80% opacity.
    fn default() -> (r: Self)
        ensures
            r.name@ == "default"@,
            r.primary_color@ == "#007AFF"@,
            r.secondary_color@ == "#34C759"@,
            r.background_color@ == "#000000"@,
            r.text_color@ == "#FFFFFF"@,
            r.overlay_opacity == 80,
            r.animation_duration_ms == 200,
            r.glassmorphism_enabled,
    {
        Theme {
            name: String::from_str("default"),
            primary_color: String::from_str("#007AFF"),
            secondary_color: String::from_str("#34C759"),
            background_color: String::from_str("#000000"),
            text_color: String::from_str("#FFFFFF"),
            overlay_opacity: 80,
            animation_duration_ms: 200,
            glassmorphism_enabled: true,
        }
    }
}


/// Turns key events into actions and keeps the hotkey and binding tables.
pub trait InputProcessor: Sized {
    /// The processor's own consistency condition.
    spec fn processor_wf(&self) -> bool;

    fn process_key_event(&self, event: KeyInput) -> InputResult<Action>;

    fn register_hotkey(&mut self, key: char, modifiers: Vec<KeyModifier>) -> (r: InputResult<()>)
        requires
            old(self).processor_wf(),
        ensures
            final(self).processor_wf(),
    ;

    fn update_bindings(&mut self, bindings: KeyBindings) -> (r: InputResult<()>)
        requires
            old(self).processor_wf(),
        ensures
            final(self).processor_wf(),
    ;

    fn is_active(&self) -> bool;

    fn activate(&mut self) -> (r: InputResult<()>)
        requires
            old(self).processor_wf(),
        ensures
            final(self).processor_wf(),
    ;

    fn deactivate(&mut self) -> (r: InputResult<()>)
        requires
            old(self).processor_wf(),
        ensures
            final(self).processor_wf(),
    ;
}

/// Owns the session and routes keys to the active mode.
pub trait ModeController: Sized {
    /// The controller's own consistency condition.
    spec fn controller_wf(&self) -> bool;

    fn activate_mode(&mut self, mode: InteractionMode) -> (r: Result<()>)
        requires
            old(self).controller_wf(),
        ensures
            final(self).controller_wf(),
    ;

    fn deactivate_current_mode(&mut self) -> (r: Result<()>)
        requires
            old(self).controller_wf(),
        ensures
            final(self).controller_wf(),
    ;

    fn get_current_mode(&self) -> Option<InteractionMode>;

    fn handle_input(&mut self, input: KeyInput) -> (r: Result<Action>)
        requires
            old(self).controller_wf(),
        ensures
            final(self).controller_wf(),
    ;

    fn is_active(&self) -> bool;

    fn get_mode_history(&self) -> Vec<InteractionMode>;
}

} // verus!
