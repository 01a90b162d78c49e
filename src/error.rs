//! Error types of every component.

use vstd::prelude::*;

verus! {

#[verifier::external_type_specification]
#[verifier::external_body]
pub struct ExIoError(std::io::Error);

/// Relies on `std::io::Error::new` with `ErrorKind::InvalidInput`: builds an
/// error value that carries the message.
#[verifier::external_body]
pub(crate) fn invalid_input_error(message: &str) -> (r: std::io::Error) {
    std::io::Error::new(std::io::ErrorKind::InvalidInput, message.to_string())
}

/// Main error type of the library.
#[derive(Debug)]
pub enum MouselessError {
    InputError(InputError),
    MouseError(MouseError),
    UIError(UIError),
    ConfigError(ConfigError),
    PermissionError { message: String },
    PredictionError(String),
    ModeError(String),
    SystemError(std::io::Error),
}

/// Errors of input handling and key-binding validation.
#[derive(Debug, Clone, PartialEq, Eq)]
pub enum InputError {
    HotkeyRegistrationFailed { key: String },
    InvalidKeyBinding { binding: String },
    EventProcessingFailed { reason: String },
    UnsupportedInputMode { mode: String },
}

/// Errors of the pointer driver and of screen lookup.
#[derive(Debug, Clone, PartialEq, Eq)]
pub enum MouseError {
    MovementFailed { x: i32, y: i32, reason: String },
    ClickFailed { button: String, reason: String },
    ScrollFailed { direction: String, reason: String },
    ScreenDetectionFailed { reason: String },
    AnimationError { reason: String },
}

/// Errors of overlay rendering.
#[derive(Debug, Clone, PartialEq, Eq)]
pub enum UIError {
    OverlayCreationFailed { overlay_type: String },
    RenderingFailed { component: String },
    AnimationFailed { animation_type: String },
    ThemeLoadingFailed { theme_name: String },
}

/// Errors of configuration loading, saving and validation.
#[derive(Debug, Clone, PartialEq, Eq)]
pub enum ConfigError {
    LoadFailed { path: String, reason: String },
    SaveFailed { path: String, reason: String },
    InvalidValue { field: String, value: String },
    MissingField { field: String },
    ValidationFailed { reason: String },
}

pub type Result<T> = std::result::Result<T, MouselessError>;

pub type InputResult<T> = std::result::Result<T, InputError>;

pub type MouseResult<T> = std::result::Result<T, MouseError>;

pub type UIResult<T> = std::result::Result<T, UIError>;

pub type ConfigResult<T> = std::result::Result<T, ConfigError>;

} // verus!
