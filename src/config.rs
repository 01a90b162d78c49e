//! Application settings and their validation. Reading and writing the
//! settings file happens outside the library; every settings change comes
//! through here and is checked before it replaces the current settings.
//!
//! Multipliers and opacities are kept in hundredths.

use vstd::prelude::*;

use crate::error::{ConfigError, ConfigResult, InputError};
use crate::input::{valid_bindings, ActivationConfig, InputHandler};
use crate::models::{AnimationType, MovementSpeed};
use crate::text::{copy_string, push_char, push_decimal};
use crate::traits::{KeyBindings, Theme};
use vstd::string::{StrSliceExecFns, StringExecFns};

verus! {

/// Movement settings.
#[derive(Debug, Clone, Copy, PartialEq, Eq, Structural)]
pub struct MovementConfig {
    pub default_speed: MovementSpeed,
    /// In hundredths.
    pub fast_speed_multiplier: i32,
    /// In hundredths.
    pub slow_speed_multiplier: i32,
    pub default_animation: AnimationType,
    pub step_size: i32,
}

impl Default for MovementConfig {
    fn default() -> (r: Self)
        ensures
            r == (MovementConfig {
                default_speed: MovementSpeed::Normal,
                fast_speed_multiplier: 200,
                slow_speed_multiplier: 50,
                default_animation: AnimationType::Smooth,
                step_size: 10,
            }),
    {
        MovementConfig {
            default_speed: MovementSpeed::Normal,
            fast_speed_multiplier: 200,
            slow_speed_multiplier: 50,
            default_animation: AnimationType::Smooth,
            step_size: 10,
        }
    }
}

impl MovementConfig {
    /// The basic-mode speed, in hundredths, that the default speed tier
    /// stands for: the slow or fast multiplier, or 1.0 for the normal tier
    /// (a negative multiplier counts as 0).
    pub fn initial_speed(&self) -> (r: u32)
        ensures
            r == match self.default_speed {
                MovementSpeed::Slow => if self.slow_speed_multiplier < 0 { 0 } else { self.slow_speed_multiplier as int },
                MovementSpeed::Normal => 100,
                MovementSpeed::Fast => if self.fast_speed_multiplier < 0 { 0 } else { self.fast_speed_multiplier as int },
            },
    {
        let multiplier = match self.default_speed {
            MovementSpeed::Slow => self.slow_speed_multiplier,
            MovementSpeed::Normal => 100,
            MovementSpeed::Fast => self.fast_speed_multiplier,
        };
        if multiplier < 0 {
            0
        } else {
            multiplier as u32
        }
    }
}

/// Overlay settings.
#[derive(Debug, Clone, Copy, PartialEq, Eq, Structural)]
pub struct UIConfig {
    pub show_mode_indicators: bool,
    pub show_cursor_trail: bool,
    /// In hundredths, 0 to 100.
    pub overlay_opacity: i32,
    pub animation_duration_ms: u64,
    pub glassmorphism_enabled: bool,
}

impl Default for UIConfig {
    fn default() -> (r: Self)
        ensures
            r == (UIConfig {
                show_mode_indicators: true,
                show_cursor_trail: false,
                overlay_opacity: 80,
                animation_duration_ms: 200,
                glassmorphism_enabled: true,
            }),
    {
        UIConfig {
            show_mode_indicators: true,
            show_cursor_trail: false,
            overlay_opacity: 80,
            animation_duration_ms: 200,
            glassmorphism_enabled: true,
        }
    }
}

/// All settings.
#[derive(Debug, Clone)]
pub struct AppConfig {
    pub activation: ActivationConfig,
    pub movement: MovementConfig,
    pub ui: UIConfig,
    pub keybindings: KeyBindings,
    pub theme: Theme,
}

impl Default for AppConfig {
    fn default() -> (r: Self)
        ensures
            r.activation.trigger_key == crate::input::ActivationKey::CapsLock,
            r.activation.double_click_required,
            r.activation.double_click_timeout_ms == 300,
            r.activation.activation_timeout_ms == 5000,
            r.movement.default_speed == MovementSpeed::Normal,
            r.movement.step_size == 10,
            r.ui.show_mode_indicators,
            r.keybindings == crate::traits::default_key_bindings(),
            r.theme.name@ == "default"@,
    {
        AppConfig {
            activation: ActivationConfig::default(),
            movement: MovementConfig::default(),
            ui: UIConfig::default(),
            keybindings: KeyBindings::default(),
            theme: Theme::default(),
        }
    }
}

pub open spec fn valid_activation(a: ActivationConfig) -> bool {
    a.double_click_timeout_ms != 0 && a.activation_timeout_ms != 0
}

pub open spec fn valid_movement(m: MovementConfig) -> bool {
    m.fast_speed_multiplier > 0 && m.slow_speed_multiplier > 0 && m.step_size > 0
}

pub open spec fn valid_ui(u: UIConfig) -> bool {
    0 <= u.overlay_opacity <= 100 && u.animation_duration_ms != 0
}

pub open spec fn is_hex_digit(c: char) -> bool {
    ('0' <= c && c <= '9') || ('a' <= c && c <= 'f') || ('A' <= c && c <= 'F')
}

/// `#` followed by six hexadecimal digits.
pub open spec fn valid_color(c: Seq<char>) -> bool {
    c.len() == 7 && c[0] == '#' && forall|i: int| 1 <= i < 7 ==> is_hex_digit(#[trigger] c[i])
}

pub open spec fn valid_theme(t: Theme) -> bool {
    &&& valid_color(t.primary_color@)
    &&& valid_color(t.secondary_color@)
    &&& valid_color(t.background_color@)
    &&& valid_color(t.text_color@)
    &&& 0 <= t.overlay_opacity <= 100
}

pub open spec fn valid_config(c: AppConfig) -> bool {
    &&& valid_bindings(c.keybindings)
    &&& valid_activation(c.activation)
    &&& valid_movement(c.movement)
    &&& valid_ui(c.ui)
    &&& valid_theme(c.theme)
}

fn invalid_value(field: &str, value: String) -> (r: ConfigError)
    ensures
        r is InvalidValue,
{
    ConfigError::InvalidValue { field: String::from_str(field), value }
}

/// The decimal text of a signed number.
fn signed_text(v: i64) -> (r: String) {
    let mut s = String::new();
    if v < 0 {
        push_char(&mut s, '-');
        push_decimal(&mut s, (-(v as i128)) as u64);
    } else {
        push_decimal(&mut s, v as u64);
    }
    s
}

/// A value in hundredths written with two decimals, e.g. `1.50`.
fn hundredths_text(v: i32) -> (r: String) {
    let mut s = String::new();
    let magnitude: u64 = if v < 0 {
        push_char(&mut s, '-');
        (-(v as i64)) as u64
    } else {
        v as u64
    };
    push_decimal(&mut s, magnitude / 100);
    push_char(&mut s, '.');
    let cents = magnitude % 100;
    push_decimal(&mut s, cents / 10);
    push_decimal(&mut s, cents % 10);
    s
}

fn is_valid_color(color: &String) -> (r: bool)
    ensures
        r == valid_color(color@),
{
    let text = color.as_str();
    if text.unicode_len() != 7 || text.get_char(0) != '#' {
        return false;
    }
    let mut i: usize = 1;
    while i < 7
        invariant
            text@ == color@,
            text@.len() == 7,
            1 <= i <= 7,
            forall|j: int| 1 <= j < i ==> is_hex_digit(#[trigger] text@[j]),
        decreases 7 - i,
    {
        let c = text.get_char(i);
        if !(('0' <= c && c <= '9') || ('a' <= c && c <= 'f') || ('A' <= c && c <= 'F')) {
            return false;
        }
        i = i + 1;
    }
    true
}

fn binding_error(e: InputError) -> (r: ConfigError)
    ensures
        r is ValidationFailed,
{
    let mut reason = String::from_str("Key binding validation failed: ");
    match e {
        InputError::InvalidKeyBinding { binding } => {
            reason.append("Invalid key binding: ");
            reason.append(binding.as_str());
        },
        _ => {},
    }
    ConfigError::ValidationFailed { reason }
}

/// Checks the activation settings: both timeouts must be non-zero.
pub fn validate_activation_config(activation: &ActivationConfig) -> (r: ConfigResult<()>)
    ensures
        r is Ok <==> valid_activation(*activation),
        r matches Err(e) ==> e is InvalidValue,
{
    if activation.double_click_timeout_ms == 0 {
        return Err(invalid_value("activation.double_click_timeout_ms", String::from_str("0")));
    }
    if activation.activation_timeout_ms == 0 {
        return Err(invalid_value("activation.activation_timeout_ms", String::from_str("0")));
    }
    Ok(())
}

/// Checks the movement settings: both multipliers and the step size must be positive.
pub fn validate_movement_config(movement: &MovementConfig) -> (r: ConfigResult<()>)
    ensures
        r is Ok <==> valid_movement(*movement),
        r matches Err(e) ==> e is InvalidValue,
{
    if movement.fast_speed_multiplier <= 0 {
        return Err(invalid_value("movement.fast_speed_multiplier", hundredths_text(movement.fast_speed_multiplier)));
    }
    if movement.slow_speed_multiplier <= 0 {
        return Err(invalid_value("movement.slow_speed_multiplier", hundredths_text(movement.slow_speed_multiplier)));
    }
    if movement.step_size <= 0 {
        return Err(invalid_value("movement.step_size", signed_text(movement.step_size as i64)));
    }
    Ok(())
}

/// Checks the overlay settings: opacity within 0 to 1, a non-zero duration.
pub fn validate_ui_config(ui: &UIConfig) -> (r: ConfigResult<()>)
    ensures
        r is Ok <==> valid_ui(*ui),
        r matches Err(e) ==> e is InvalidValue,
{
    if ui.overlay_opacity < 0 || ui.overlay_opacity > 100 {
        return Err(invalid_value("ui.overlay_opacity", hundredths_text(ui.overlay_opacity)));
    }
    if ui.animation_duration_ms == 0 {
        return Err(invalid_value("ui.animation_duration_ms", String::from_str("0")));
    }
    Ok(())
}

/// Checks the theme: four `#RRGGBB` colors and an opacity within 0 to 1.
pub fn validate_theme(theme: &Theme) -> (r: ConfigResult<()>)
    ensures
        r is Ok <==> valid_theme(*theme),
        r matches Err(e) ==> e is InvalidValue,
{
    if !is_valid_color(&theme.primary_color) {
        return Err(invalid_value("theme.primary_color", copy_string(&theme.primary_color)));
    }
    if !is_valid_color(&theme.secondary_color) {
        return Err(invalid_value("theme.secondary_color", copy_string(&theme.secondary_color)));
    }
    if !is_valid_color(&theme.background_color) {
        return Err(invalid_value("theme.background_color", copy_string(&theme.background_color)));
    }
    if !is_valid_color(&theme.text_color) {
        return Err(invalid_value("theme.text_color", copy_string(&theme.text_color)));
    }
    if theme.overlay_opacity < 0 || theme.overlay_opacity > 100 {
        return Err(invalid_value("theme.overlay_opacity", hundredths_text(theme.overlay_opacity)));
    }
    Ok(())
}

/// Checks every part of the settings, key bindings first.
pub fn validate_config(config: &AppConfig) -> (r: ConfigResult<()>)
    ensures
        r is Ok <==> valid_config(*config),
        r matches Err(e) ==> if !valid_bindings(config.keybindings) {
            e is ValidationFailed
        } else {
            e is InvalidValue
        },
{
    match InputHandler::validate_key_bindings(&config.keybindings) {
        Ok(()) => {},
        Err(e) => return Err(binding_error(e)),
    }
    validate_activation_config(&config.activation)?;
    validate_movement_config(&config.movement)?;
    validate_ui_config(&config.ui)?;
    validate_theme(&config.theme)?;
    Ok(())
}

/// Shortcut labels shown by the settings window.
#[derive(Debug, Clone, PartialEq, Eq)]
pub struct HotkeyConfig {
    pub grid_mode: String,
    pub area_mode: String,
    pub prediction_mode: String,
    pub exit_key: String,
}

/// The current settings and where they are stored.
#[derive(Debug, Clone)]
pub struct ConfigManager {
    config_path: String,
    current_config: AppConfig,
}


impl ConfigManager {
    pub closed spec fn path_spec(&self) -> Seq<char> {
        self.config_path@
    }

    pub closed spec fn config_spec(&self) -> AppConfig {
        self.current_config
    }

    /// Default settings, to be stored at `config_path`.
    pub fn new(config_path: &str) -> (r: Self)
        ensures
            r.path_spec() == config_path@,
            r.config_spec().keybindings == crate::traits::default_key_bindings(),
            r.config_spec().movement.step_size == 10,
    {
        ConfigManager { config_path: String::from_str(config_path), current_config: AppConfig::default() }
    }

    /// Where the settings are stored.
    pub fn config_path(&self) -> (r: &str)
        ensures
            r@ == self.path_spec(),
    {
        self.config_path.as_str()
    }

    pub fn get_config(&self) -> (r: &AppConfig)
        ensures
            *r == self.config_spec(),
    {
        &self.current_config
    }

    /// Replaces all settings, if they are valid.
    pub fn update_config(&mut self, config: AppConfig) -> (r: ConfigResult<()>)
        ensures
            r is Ok <==> valid_config(config),
            final(self).path_spec() == old(self).path_spec(),
            final(self).config_spec() == if r is Ok { config } else { old(self).config_spec() },
    {
        validate_config(&config)?;
        self.current_config = config;
        Ok(())
    }

    /// Replaces the key bindings, if they are valid.
    pub fn update_key_bindings(&mut self, bindings: KeyBindings) -> (r: ConfigResult<()>)
        ensures
            r is Ok <==> valid_bindings(bindings),
            r matches Err(e) ==> e is ValidationFailed,
            final(self).path_spec() == old(self).path_spec(),
            final(self).config_spec().keybindings == if r is Ok { bindings } else { old(self).config_spec().keybindings },
            final(self).config_spec().activation == old(self).config_spec().activation,
            final(self).config_spec().movement == old(self).config_spec().movement,
            final(self).config_spec().ui == old(self).config_spec().ui,
            final(self).config_spec().theme == old(self).config_spec().theme,
    {
        match InputHandler::validate_key_bindings(&bindings) {
            Ok(()) => {},
            Err(e) => return Err(binding_error(e)),
        }
        self.current_config.keybindings = bindings;
        Ok(())
    }

    /// Replaces the activation settings, if they are valid.
    pub fn update_activation_config(&mut self, activation: ActivationConfig) -> (r: ConfigResult<()>)
        ensures
            r is Ok <==> valid_activation(activation),
            final(self).path_spec() == old(self).path_spec(),
            final(self).config_spec().activation == if r is Ok { activation } else { old(self).config_spec().activation },
            final(self).config_spec().keybindings == old(self).config_spec().keybindings,
            final(self).config_spec().movement == old(self).config_spec().movement,
            final(self).config_spec().ui == old(self).config_spec().ui,
            final(self).config_spec().theme == old(self).config_spec().theme,
    {
        validate_activation_config(&activation)?;
        self.current_config.activation = activation;
        Ok(())
    }

    /// Replaces the movement settings, if they are valid.
    pub fn update_movement_config(&mut self, movement: MovementConfig) -> (r: ConfigResult<()>)
        ensures
            r is Ok <==> valid_movement(movement),
            final(self).path_spec() == old(self).path_spec(),
            final(self).config_spec().movement == if r is Ok { movement } else { old(self).config_spec().movement },
            final(self).config_spec().keybindings == old(self).config_spec().keybindings,
            final(self).config_spec().activation == old(self).config_spec().activation,
            final(self).config_spec().ui == old(self).config_spec().ui,
            final(self).config_spec().theme == old(self).config_spec().theme,
    {
        validate_movement_config(&movement)?;
        self.current_config.movement = movement;
        Ok(())
    }

    /// Replaces the overlay settings, if they are valid.
    pub fn update_ui_config(&mut self, ui: UIConfig) -> (r: ConfigResult<()>)
        ensures
            r is Ok <==> valid_ui(ui),
            final(self).path_spec() == old(self).path_spec(),
            final(self).config_spec().ui == if r is Ok { ui } else { old(self).config_spec().ui },
            final(self).config_spec().keybindings == old(self).config_spec().keybindings,
            final(self).config_spec().activation == old(self).config_spec().activation,
            final(self).config_spec().movement == old(self).config_spec().movement,
            final(self).config_spec().theme == old(self).config_spec().theme,
    {
        validate_ui_config(&ui)?;
        self.current_config.ui = ui;
        Ok(())
    }

    /// Replaces the theme, if it is valid.
    pub fn update_theme(&mut self, theme: Theme) -> (r: ConfigResult<()>)
        ensures
            r is Ok <==> valid_theme(theme),
            final(self).path_spec() == old(self).path_spec(),
            final(self).config_spec().theme == if r is Ok { theme } else { old(self).config_spec().theme },
            final(self).config_spec().keybindings == old(self).config_spec().keybindings,
            final(self).config_spec().activation == old(self).config_spec().activation,
            final(self).config_spec().movement == old(self).config_spec().movement,
            final(self).config_spec().ui == old(self).config_spec().ui,
    {
        validate_theme(&theme)?;
        self.current_config.theme = theme;
        Ok(())
    }

    /// Back to the default settings.
    pub fn reset_to_defaults(&mut self)
        ensures
            final(self).path_spec() == old(self).path_spec(),
            final(self).config_spec().keybindings == crate::traits::default_key_bindings(),
            final(self).config_spec().movement.step_size == 10,
            final(self).config_spec().theme.name@ == "default"@,
    {
        self.current_config = AppConfig::default();
    }
}

} // verus!
