//! Plain value types shared by every component.

use vstd::prelude::*;

verus! {

/// A point on the desktop; an absolute position or a relative offset,
/// depending on the action that carries it.
#[derive(Debug, Clone, Copy, PartialEq, Eq, Structural)]
pub struct Position {
    pub x: i32,
    pub y: i32,
    pub screen_id: Option<u32>,
}

impl Position {
    pub fn new(x: i32, y: i32) -> (r: Self)
        ensures
            r == (Position { x, y, screen_id: None }),
    {
        Position { x, y, screen_id: None }
    }

    pub fn with_screen(x: i32, y: i32, screen_id: u32) -> (r: Self)
        ensures
            r == (Position { x, y, screen_id: Some(screen_id) }),
    {
        Position { x, y, screen_id: Some(screen_id) }
    }
}

/// Whether `(px, py)` lies in the half-open rectangle with corner `(x, y)`
/// and the given size: `x <= px < x + width`, `y <= py < y + height`.
pub open spec fn rect_contains(x: int, y: int, width: int, height: int, px: int, py: int) -> bool {
    x <= px && px < x + width && y <= py && py < y + height
}

/// Whether a rectangle's center, `(x + width / 2, y + height / 2)`, is a
/// point that `i32` can hold.
pub open spec fn rect_center_fits(x: int, y: int, width: int, height: int) -> bool {
    x + width / 2 <= i32::MAX && y + height / 2 <= i32::MAX
}

/// Whether the screen's right and bottom edges, `x + width` and
/// `y + height`, are coordinates that `i32` can hold.
pub open spec fn screen_in_range(b: ScreenBounds) -> bool {
    b.x + b.width <= i32::MAX && b.y + b.height <= i32::MAX
}

/// The bounds of one physical screen in desktop coordinates.
#[derive(Debug, Clone, Copy, PartialEq, Eq, Structural)]
pub struct ScreenBounds {
    pub id: u32,
    pub x: i32,
    pub y: i32,
    pub width: u32,
    pub height: u32,
    pub is_primary: bool,
}

impl ScreenBounds {
    pub open spec fn contains_spec(&self, p: Position) -> bool {
        rect_contains(self.x as int, self.y as int, self.width as int, self.height as int, p.x as int, p.y as int)
    }

    /// The middle of the screen, tagged with the screen's id.
    pub fn center(&self) -> (r: Position)
        requires
            rect_center_fits(self.x as int, self.y as int, self.width as int, self.height as int),
        ensures
            r.x == self.x + self.width / 2,
            r.y == self.y + self.height / 2,
            r.screen_id == Some(self.id),
    {
        Position::with_screen(
            (self.x as i64 + (self.width / 2) as i64) as i32,
            (self.y as i64 + (self.height / 2) as i64) as i32,
            self.id,
        )
    }

    /// Half-open containment: the right and bottom edges are outside.
    pub fn contains(&self, position: Position) -> (r: bool)
        ensures
            r == self.contains_spec(position),
    {
        let px = position.x as i64;
        let py = position.y as i64;
        let left = self.x as i64;
        let top = self.y as i64;
        px >= left && px < left + self.width as i64 && py >= top && py < top + self.height as i64
    }
}

#[derive(Debug, Clone, Copy, PartialEq, Eq, Structural)]
pub enum MouseButton {
    Left,
    Right,
    Middle,
}

#[derive(Debug, Clone, Copy, PartialEq, Eq, Structural)]
pub enum ScrollDirection {
    Up,
    Down,
    Left,
    Right,
}

/// How the pointer travels to a new position.
#[derive(Debug, Clone, Copy, PartialEq, Eq, Structural)]
pub enum AnimationType {
    Instant,
    Linear,
    Smooth,
    Bounce,
}

/// Speed tier of an animated movement.
#[derive(Debug, Clone, Copy, PartialEq, Eq, Structural)]
pub enum MovementSpeed {
    Slow,
    Normal,
    Fast,
}

/// Shape of the addressable grid.
#[derive(Debug, Clone, Copy, PartialEq, Eq, Structural)]
pub struct GridConfig {
    pub rows: u32,
    pub columns: u32,
    pub show_labels: bool,
    pub animation_style: AnimationType,
}

impl Default for GridConfig {
    fn default() -> (r: Self)
        ensures
            r == (GridConfig { rows: 3, columns: 3, show_labels: true, animation_style: AnimationType::Smooth }),
    {
        GridConfig { rows: 3, columns: 3, show_labels: true, animation_style: AnimationType::Smooth }
    }
}

/// One of the nine regions of area mode.
#[derive(Debug, Clone, PartialEq, Eq)]
pub struct Area {
    pub key: char,
    pub bounds: ScreenBounds,
    pub center: Position,
    pub label: String,
}

/// Kinds of on-screen targets that a prediction may point at.
#[derive(Debug, Clone, PartialEq, Eq)]
pub enum TargetType {
    Button,
    Link,
    TextField,
    MenuItem,
    Icon,
    Custom(String),
}

/// What was on screen when a prediction was asked for.
#[derive(Debug, Clone)]
pub struct ScreenContext {
    pub application_name: String,
    pub window_title: String,
    pub ui_elements: Vec<UIElement>,
    /// Milliseconds since the Unix epoch.
    pub timestamp: u64,
}

#[derive(Debug)]
pub struct UIElement {
    pub position: Position,
    pub size: (u32, u32),
    pub element_type: String,
    pub text: Option<String>,
    pub is_clickable: bool,
}

impl Clone for UIElement {
    fn clone(&self) -> (r: Self)
        ensures
            r.position == self.position,
            r.size == self.size,
            r.is_clickable == self.is_clickable,
    {
        let (w, h) = self.size;
        UIElement {
            position: self.position,
            size: (w, h),
            element_type: self.element_type.clone(),
            text: self.text.clone(),
            is_clickable: self.is_clickable,
        }
    }
}

#[derive(Debug, Clone)]
pub struct UserFeedback {
    pub target_position: Position,
    pub was_correct: bool,
    pub actual_target_type: Option<TargetType>,
    pub context: ScreenContext,
}

/// One normalized key press.
#[derive(Debug, Clone, PartialEq, Eq)]
pub struct KeyInput {
    pub key: char,
    pub modifiers: Vec<KeyModifier>,
    /// Milliseconds since the Unix epoch.
    pub timestamp: u64,
}

#[derive(Debug, Clone, Copy, PartialEq, Eq, Structural)]
pub enum KeyModifier {
    Shift,
    Ctrl,
    Alt,
    Cmd,
}

/// The single result of processing one key.
#[derive(Debug, Clone, Copy, PartialEq, Eq, Structural)]
pub enum Action {
    MoveCursor(Position, AnimationType),
    Click(MouseButton),
    Scroll(ScrollDirection, i32),
    ActivateMode(InteractionMode),
    DeactivateMode,
    ToggleSpeed,
    HighlightArea(char),
    Exit,
    NoAction,
}

#[derive(Debug, Clone, Copy, PartialEq, Eq, Structural)]
pub enum InteractionMode {
    Basic,
    Grid,
    Area,
    Prediction,
}

} // verus!
