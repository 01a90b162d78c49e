//! Basic mode: one key, one command. Movement, clicks, scrolling, screen
//! jumps and mode switches, looked up in the key-binding table.
//!
//! Speeds are kept in hundredths: a speed of 150 means 1.5 times the base
//! distance.

use vstd::prelude::*;

use crate::error::Result;
use crate::models::{Action, AnimationType, InteractionMode, KeyInput, MouseButton, Position, ScrollDirection};
use crate::text::{digit_at, digit_char, push_char};
use crate::traits::KeyBindings;
use vstd::string::StringExecFns;

verus! {

/// Slowest movement speed, in hundredths.
pub const MIN_MOVEMENT_SPEED: u32 = 10;

/// Fastest movement speed, in hundredths.
pub const MAX_MOVEMENT_SPEED: u32 = 1000;

/// The speed a fresh handler starts with: 1.0.
pub const DEFAULT_MOVEMENT_SPEED: u32 = 100;

/// Pixels moved per key at speed 1.0.
pub const BASE_MOVEMENT_DISTANCE: u32 = 20;

/// Scroll units per key at speed 1.0.
pub const BASE_SCROLL_AMOUNT: u32 = 3;

/// `value / 100` rounded to the nearest integer, halves upward.
pub open spec fn round_hundredths(value: int) -> int {
    (value + 50) / 100
}

/// Pixels per movement key: the base distance times the speed, times three
/// in fast mode, rounded.
pub open spec fn movement_distance(speed: int, fast: bool) -> int {
    round_hundredths(BASE_MOVEMENT_DISTANCE * speed * (if fast { 3int } else { 1int }))
}

/// Units per scroll key: the base amount times the speed, times two in fast
/// mode, rounded.
pub open spec fn scroll_amount(speed: int, fast: bool) -> int {
    round_hundredths(BASE_SCROLL_AMOUNT * speed * (if fast { 2int } else { 1int }))
}

/// `speed` held to the allowed range.
pub open spec fn clamp_speed(speed: int) -> int {
    if speed < MIN_MOVEMENT_SPEED {
        MIN_MOVEMENT_SPEED as int
    } else if speed > MAX_MOVEMENT_SPEED {
        MAX_MOVEMENT_SPEED as int
    } else {
        speed
    }
}

/// The command bound to `key`, first match in this order: movement, clicks,
/// scrolling, hold toggle, speed toggle, screens, modes, exit.
pub open spec fn basic_action(b: KeyBindings, key: char, speed: int, fast: bool) -> Action {
    let d = movement_distance(speed, fast);
    let s = scroll_amount(speed, fast);
    if key == b.move_up {
        Action::MoveCursor(Position { x: 0, y: (-d) as i32, screen_id: None }, AnimationType::Smooth)
    } else if key == b.move_down {
        Action::MoveCursor(Position { x: 0, y: d as i32, screen_id: None }, AnimationType::Smooth)
    } else if key == b.move_left {
        Action::MoveCursor(Position { x: (-d) as i32, y: 0, screen_id: None }, AnimationType::Smooth)
    } else if key == b.move_right {
        Action::MoveCursor(Position { x: d as i32, y: 0, screen_id: None }, AnimationType::Smooth)
    } else if key == b.left_click {
        Action::Click(MouseButton::Left)
    } else if key == b.right_click {
        Action::Click(MouseButton::Right)
    } else if b.middle_click == Some(key) {
        Action::Click(MouseButton::Middle)
    } else if key == b.scroll_up {
        Action::Scroll(ScrollDirection::Up, s as i32)
    } else if key == b.scroll_down {
        Action::Scroll(ScrollDirection::Down, s as i32)
    } else if key == b.scroll_left {
        Action::Scroll(ScrollDirection::Left, s as i32)
    } else if key == b.scroll_right {
        Action::Scroll(ScrollDirection::Right, s as i32)
    } else if key == b.hold_toggle {
        Action::NoAction
    } else if key == b.speed_toggle {
        Action::ToggleSpeed
    } else if key == b.screen_1 {
        Action::MoveCursor(Position { x: 0, y: 0, screen_id: Some(1) }, AnimationType::Smooth)
    } else if key == b.screen_2 {
        Action::MoveCursor(Position { x: 0, y: 0, screen_id: Some(2) }, AnimationType::Smooth)
    } else if key == b.screen_3 {
        Action::MoveCursor(Position { x: 0, y: 0, screen_id: Some(3) }, AnimationType::Smooth)
    } else if key == b.grid_mode {
        Action::ActivateMode(InteractionMode::Grid)
    } else if key == b.area_mode {
        Action::ActivateMode(InteractionMode::Area)
    } else if key == b.prediction_mode {
        Action::ActivateMode(InteractionMode::Prediction)
    } else if key == b.exit_key {
        Action::Exit
    } else {
        Action::NoAction
    }
}

/// Whether `key` is one of the movement, click or scroll keys, which take
/// precedence over the toggles.
pub open spec fn is_pointer_key(b: KeyBindings, key: char) -> bool {
    key == b.move_up || key == b.move_down || key == b.move_left || key == b.move_right || key == b.left_click
        || key == b.right_click || b.middle_click == Some(key) || key == b.scroll_up || key == b.scroll_down
        || key == b.scroll_left || key == b.scroll_right
}

/// A speed in hundredths written with one decimal, rounded half up: 150 is
/// "1.5", 1000 is "10.0".
pub open spec fn speed_text(speed: int) -> Seq<char> {
    let tenths = (speed + 5) / 10;
    let whole = tenths / 10;
    let whole_text = if whole >= 10 {
        seq![digit_char(whole / 10), digit_char(whole % 10)]
    } else {
        seq![digit_char(whole)]
    };
    whole_text + seq!['.', digit_char(tenths % 10)]
}

pub open spec fn bool_text(b: bool) -> Seq<char> {
    if b {
        "true"@
    } else {
        "false"@
    }
}

/// One key handled by basic mode: the bound command, computed with the
/// speed and fast flag from before the key; the hold key flips the hold
/// flag and the speed key the fast flag.
pub open spec fn basic_step(old: BasicMode, new: BasicMode, b: KeyBindings, key: char, action: Action) -> bool {
    &&& action == basic_action(b, key, old.speed_spec(), old.fast_spec())
    &&& new.speed_spec() == old.speed_spec()
    &&& new.hold_spec() == (if !is_pointer_key(b, key) && key == b.hold_toggle {
        !old.hold_spec()
    } else {
        old.hold_spec()
    })
    &&& new.fast_spec() == (if !is_pointer_key(b, key) && key != b.hold_toggle && key == b.speed_toggle {
        !old.fast_spec()
    } else {
        old.fast_spec()
    })
}

/// Basic mode handler: the speed setting, the fast toggle and the hold toggle.
#[derive(Debug, Clone)]
pub struct BasicMode {
    movement_speed: u32,
    fast_mode: bool,
    hold_state: bool,
}

fn append_bool(s: &mut String, b: bool)
    ensures
        final(s)@ == old(s)@ + bool_text(b),
{
    if b {
        s.append("true");
    } else {
        s.append("false");
    }
}

impl BasicMode {
    /// The speed, in hundredths.
    pub closed spec fn speed_spec(&self) -> int {
        self.movement_speed as int
    }

    pub closed spec fn fast_spec(&self) -> bool {
        self.fast_mode
    }

    pub closed spec fn hold_spec(&self) -> bool {
        self.hold_state
    }

    pub open spec fn wf(&self) -> bool {
        MIN_MOVEMENT_SPEED <= self.speed_spec() <= MAX_MOVEMENT_SPEED
    }

    /// Speed 1.0, fast mode off, not holding.
    pub fn new() -> (r: Self)
        ensures
            r.wf(),
            r.speed_spec() == DEFAULT_MOVEMENT_SPEED,
            !r.fast_spec(),
            !r.hold_spec(),
    {
        BasicMode { movement_speed: DEFAULT_MOVEMENT_SPEED, fast_mode: false, hold_state: false }
    }

    /// Sets the speed, in hundredths, held to 0.1 .. 10.0.
    pub fn set_movement_speed(&mut self, speed: u32)
        ensures
            final(self).wf(),
            final(self).speed_spec() == clamp_speed(speed as int),
            final(self).fast_spec() == old(self).fast_spec(),
            final(self).hold_spec() == old(self).hold_spec(),
    {
        self.movement_speed = if speed < MIN_MOVEMENT_SPEED {
            MIN_MOVEMENT_SPEED
        } else if speed > MAX_MOVEMENT_SPEED {
            MAX_MOVEMENT_SPEED
        } else {
            speed
        };
    }

    /// The speed, in hundredths.
    pub fn get_movement_speed(&self) -> (r: u32)
        ensures
            r == self.speed_spec(),
    {
        self.movement_speed
    }

    pub fn toggle_fast_mode(&mut self)
        ensures
            final(self).fast_spec() == !old(self).fast_spec(),
            final(self).speed_spec() == old(self).speed_spec(),
            final(self).hold_spec() == old(self).hold_spec(),
    {
        self.fast_mode = !self.fast_mode;
    }

    pub fn is_fast_mode(&self) -> (r: bool)
        ensures
            r == self.fast_spec(),
    {
        self.fast_mode
    }

    pub fn toggle_hold_state(&mut self)
        ensures
            final(self).hold_spec() == !old(self).hold_spec(),
            final(self).speed_spec() == old(self).speed_spec(),
            final(self).fast_spec() == old(self).fast_spec(),
    {
        self.hold_state = !self.hold_state;
    }

    pub fn is_holding(&self) -> (r: bool)
        ensures
            r == self.hold_spec(),
    {
        self.hold_state
    }

    pub fn set_hold_state(&mut self, holding: bool)
        ensures
            final(self).hold_spec() == holding,
            final(self).speed_spec() == old(self).speed_spec(),
            final(self).fast_spec() == old(self).fast_spec(),
    {
        self.hold_state = holding;
    }

    fn get_movement_distance(&self) -> (r: i32)
        requires
            self.wf(),
        ensures
            r == movement_distance(self.speed_spec(), self.fast_spec()),
            0 <= r <= 600,
    {
        let multiplier: u32 = if self.fast_mode { 3 } else { 1 };
        ((BASE_MOVEMENT_DISTANCE * self.movement_speed * multiplier + 50) / 100) as i32
    }

    fn get_scroll_amount(&self) -> (r: i32)
        requires
            self.wf(),
        ensures
            r == scroll_amount(self.speed_spec(), self.fast_spec()),
            0 <= r <= 60,
    {
        let multiplier: u32 = if self.fast_mode { 2 } else { 1 };
        ((BASE_SCROLL_AMOUNT * self.movement_speed * multiplier + 50) / 100) as i32
    }

    /// The command bound to the key; the hold and speed keys also flip their
    /// toggle. Unbound keys give `NoAction`.
    pub fn process_input(&mut self, input: KeyInput, bindings: &KeyBindings) -> (r: Result<Action>)
        requires
            old(self).wf(),
        ensures
            final(self).wf(),
            r matches Ok(action) && basic_step(*old(self), *final(self), *bindings, input.key, action),
    {
        let key = input.key;
        let distance = self.get_movement_distance();
        if key == bindings.move_up {
            return Ok(Action::MoveCursor(Position::new(0, -distance), AnimationType::Smooth));
        }
        if key == bindings.move_down {
            return Ok(Action::MoveCursor(Position::new(0, distance), AnimationType::Smooth));
        }
        if key == bindings.move_left {
            return Ok(Action::MoveCursor(Position::new(-distance, 0), AnimationType::Smooth));
        }
        if key == bindings.move_right {
            return Ok(Action::MoveCursor(Position::new(distance, 0), AnimationType::Smooth));
        }
        if key == bindings.left_click {
            return Ok(Action::Click(MouseButton::Left));
        }
        if key == bindings.right_click {
            return Ok(Action::Click(MouseButton::Right));
        }
        if let Some(middle_key) = bindings.middle_click {
            if key == middle_key {
                return Ok(Action::Click(MouseButton::Middle));
            }
        }
        let amount = self.get_scroll_amount();
        if key == bindings.scroll_up {
            return Ok(Action::Scroll(ScrollDirection::Up, amount));
        }
        if key == bindings.scroll_down {
            return Ok(Action::Scroll(ScrollDirection::Down, amount));
        }
        if key == bindings.scroll_left {
            return Ok(Action::Scroll(ScrollDirection::Left, amount));
        }
        if key == bindings.scroll_right {
            return Ok(Action::Scroll(ScrollDirection::Right, amount));
        }
        if key == bindings.hold_toggle {
            self.toggle_hold_state();
            return Ok(Action::NoAction);
        }
        if key == bindings.speed_toggle {
            self.toggle_fast_mode();
            return Ok(Action::ToggleSpeed);
        }
        if key == bindings.screen_1 {
            return Ok(Action::MoveCursor(Position::with_screen(0, 0, 1), AnimationType::Smooth));
        }
        if key == bindings.screen_2 {
            return Ok(Action::MoveCursor(Position::with_screen(0, 0, 2), AnimationType::Smooth));
        }
        if key == bindings.screen_3 {
            return Ok(Action::MoveCursor(Position::with_screen(0, 0, 3), AnimationType::Smooth));
        }
        if key == bindings.grid_mode {
            return Ok(Action::ActivateMode(InteractionMode::Grid));
        }
        if key == bindings.area_mode {
            return Ok(Action::ActivateMode(InteractionMode::Area));
        }
        if key == bindings.prediction_mode {
            return Ok(Action::ActivateMode(InteractionMode::Prediction));
        }
        if key == bindings.exit_key {
            return Ok(Action::Exit);
        }
        Ok(Action::NoAction)
    }

    /// Back to speed 1.0, fast mode off, not holding.
    pub fn reset(&mut self)
        ensures
            final(self).wf(),
            final(self).speed_spec() == DEFAULT_MOVEMENT_SPEED,
            !final(self).fast_spec(),
            !final(self).hold_spec(),
    {
        self.movement_speed = DEFAULT_MOVEMENT_SPEED;
        self.fast_mode = false;
        self.hold_state = false;
    }

    /// The state as text, e.g. `BasicMode { speed: 1.0, fast: false, holding: false }`.
    pub fn get_state_info(&self) -> (r: String)
        requires
            self.wf(),
        ensures
            r@ == "BasicMode { speed: "@ + speed_text(self.speed_spec()) + ", fast: "@ + bool_text(self.fast_spec())
                + ", holding: "@ + bool_text(self.hold_spec()) + " }"@,
    {
        let tenths = (self.movement_speed + 5) / 10;
        let whole = tenths / 10;
        let mut s = String::from_str("BasicMode { speed: ");
        let ghost start = s@;
        if whole >= 10 {
            push_char(&mut s, digit_at((whole / 10) as u64));
            push_char(&mut s, digit_at((whole % 10) as u64));
        } else {
            push_char(&mut s, digit_at(whole as u64));
        }
        push_char(&mut s, '.');
        push_char(&mut s, digit_at((tenths % 10) as u64));
        proof {
            assert(s@ =~= start + speed_text(self.speed_spec()));
        }
        s.append(", fast: ");
        append_bool(&mut s, self.fast_mode);
        s.append(", holding: ");
        append_bool(&mut s, self.hold_state);
        s.append(" }");
        s
    }
}

impl Default for BasicMode {
    fn default() -> (r: Self)
        ensures
            r.wf(),
            r.speed_spec() == DEFAULT_MOVEMENT_SPEED,
            !r.fast_spec(),
            !r.hold_spec(),
    {
        Self::new()
    }
}

/// Speed-toggle law: fast mode moves three times and scrolls twice as far
/// as normal mode, exactly so whenever the normal distance involves no
/// rounding that the tripled (doubled) one does not share: movement when
/// the speed is a multiple of 0.05, scrolling when three times the speed
/// has a fractional part below .25 or from .75 on. Toggling twice restores
/// the flag and with it both distances.
pub proof fn lemma_speed_toggle(speed: int, fast: bool)
    requires
        MIN_MOVEMENT_SPEED <= speed <= MAX_MOVEMENT_SPEED,
    ensures
        speed % 5 == 0 ==> movement_distance(speed, true) == 3 * movement_distance(speed, false),
        (3 * speed) % 100 < 25 || (3 * speed) % 100 >= 75 ==> scroll_amount(speed, true) == 2 * scroll_amount(speed, false),
        movement_distance(speed, !!fast) == movement_distance(speed, fast),
        scroll_amount(speed, !!fast) == scroll_amount(speed, fast),
{
    assert(speed % 5 == 0 ==> movement_distance(speed, true) == 3 * movement_distance(speed, false)) by {
        if speed % 5 == 0 {
            let q = speed / 5;
            assert(speed == 5 * q);
            assert(20 * speed * 3 == 100 * (3 * q));
            assert(20 * speed * 1 == 100 * q);
            assert((100 * (3 * q) + 50) / 100 == 3 * q);
            assert((100 * q + 50) / 100 == q);
        }
    }
    assert((3 * speed) % 100 < 25 || (3 * speed) % 100 >= 75 ==> scroll_amount(speed, true) == 2 * scroll_amount(
        speed,
        false,
    )) by {
        let n = (3 * speed) / 100;
        let r = (3 * speed) % 100;
        assert(3 * speed == 100 * n + r);
        assert(3 * speed * 2 == 100 * (2 * n) + 2 * r);
        if r < 25 {
            assert((100 * n + r + 50) / 100 == n);
            assert((100 * (2 * n) + 2 * r + 50) / 100 == 2 * n);
        } else if r >= 75 {
            assert((100 * n + r + 50) / 100 == n + 1);
            assert((100 * (2 * n) + 2 * r + 50) / 100 == 2 * n + 2);
        }
    }
}

} // verus!
