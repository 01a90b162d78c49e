//! Keyboard-driven pointer control: the activation detector, the mode
//! handlers (basic movement, two-key grid, nine-region areas), the mode
//! manager that routes every keystroke, and the animation interpolator.
//!
//! Everything here is plain state and computation. Reading the keyboard,
//! moving the real pointer and drawing overlays happen around the library.

pub mod animation;
pub mod area_mode;
pub mod basic_mode;
mod clock;
pub mod config;
pub mod error;
pub mod grid;
pub mod grid_mode;
pub mod input;
pub mod logging;
pub mod mode;
pub mod models;
pub mod mouse;
pub mod screen;
mod text;
pub mod traits;

use vstd::prelude::*;

verus! {

/// The library's version.
pub const VERSION: &'static str = "0.1.0";

/// Name, version and description of the application.
pub struct AppInfo {
    pub name: &'static str,
    pub version: &'static str,
    pub description: &'static str,
}

impl Default for AppInfo {
    fn default() -> (r: Self)
        ensures
            r.name@ == "Mouseless"@,
            r.version@ == VERSION@,
            r.description@ == "Keyboard-driven mouse control for macOS"@,
    {
        AppInfo { name: "Mouseless", version: VERSION, description: "Keyboard-driven mouse control for macOS" }
    }
}

} // verus!
