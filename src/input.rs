//! Keyboard input: the activation detector (single press or debounced
//! double press of a trigger key, with required modifiers), hotkey
//! registration, key-binding validation and the mapping of keys to actions
//! while a session is active.
//!
//! Times are milliseconds since the Unix epoch. The keyboard listener that
//! produces key presses and releases lives outside the library and feeds
//! them in.

use vstd::prelude::*;

use crate::error::{InputError, InputResult};
use crate::models::{Action, AnimationType, InteractionMode, KeyInput, KeyModifier, MouseButton, Position};
use crate::text::push_char;
use crate::traits::KeyBindings;
use vstd::string::StringExecFns;

verus! {

/// A physical key, as the keyboard listener reports it. Keys the library
/// never looks at are `Other`.
#[derive(Debug, Clone, Copy, PartialEq, Eq, Hash, Structural)]
pub enum Key {
    KeyA, KeyB, KeyC, KeyD, KeyE, KeyF, KeyG, KeyH, KeyI, KeyJ, KeyK, KeyL, KeyM,
    KeyN, KeyO, KeyP, KeyQ, KeyR, KeyS, KeyT, KeyU, KeyV, KeyW, KeyX, KeyY, KeyZ,
    Num0, Num1, Num2, Num3, Num4, Num5, Num6, Num7, Num8, Num9,
    Space, Comma, Dot, SemiColon, Quote,
    F1, F2, F3, F4, F5, F6, F7, F8, F9, F10, F11, F12,
    ShiftLeft, ShiftRight, ControlLeft, ControlRight, Alt, AltGr, MetaLeft, MetaRight,
    CapsLock,
    Other,
}

/// Keys that can serve as the activation trigger.
#[derive(Debug, Clone, Copy, PartialEq, Eq, Structural)]
pub enum ActivationKey {
    CapsLock,
    Ctrl,
    Shift,
    Command,
    Option,
    F1, F2, F3, F4, F5, F6, F7, F8, F9, F10, F11, F12,
}

pub open spec fn activation_key_spec(k: ActivationKey) -> Key {
    match k {
        ActivationKey::CapsLock => Key::CapsLock,
        ActivationKey::Ctrl => Key::ControlLeft,
        ActivationKey::Shift => Key::ShiftLeft,
        ActivationKey::Command => Key::MetaLeft,
        ActivationKey::Option => Key::Alt,
        ActivationKey::F1 => Key::F1,
        ActivationKey::F2 => Key::F2,
        ActivationKey::F3 => Key::F3,
        ActivationKey::F4 => Key::F4,
        ActivationKey::F5 => Key::F5,
        ActivationKey::F6 => Key::F6,
        ActivationKey::F7 => Key::F7,
        ActivationKey::F8 => Key::F8,
        ActivationKey::F9 => Key::F9,
        ActivationKey::F10 => Key::F10,
        ActivationKey::F11 => Key::F11,
        ActivationKey::F12 => Key::F12,
    }
}

impl ActivationKey {
    /// The physical key of the trigger (the left-hand one for modifiers).
    pub fn to_key(&self) -> (r: Key)
        ensures
            r == activation_key_spec(*self),
    {
        match self {
            ActivationKey::CapsLock => Key::CapsLock,
            ActivationKey::Ctrl => Key::ControlLeft,
            ActivationKey::Shift => Key::ShiftLeft,
            ActivationKey::Command => Key::MetaLeft,
            ActivationKey::Option => Key::Alt,
            ActivationKey::F1 => Key::F1,
            ActivationKey::F2 => Key::F2,
            ActivationKey::F3 => Key::F3,
            ActivationKey::F4 => Key::F4,
            ActivationKey::F5 => Key::F5,
            ActivationKey::F6 => Key::F6,
            ActivationKey::F7 => Key::F7,
            ActivationKey::F8 => Key::F8,
            ActivationKey::F9 => Key::F9,
            ActivationKey::F10 => Key::F10,
            ActivationKey::F11 => Key::F11,
            ActivationKey::F12 => Key::F12,
        }
    }
}

/// The physical key that stands for a modifier.
pub open spec fn modifier_key_spec(m: KeyModifier) -> Key {
    match m {
        KeyModifier::Shift => Key::ShiftLeft,
        KeyModifier::Ctrl => Key::ControlLeft,
        KeyModifier::Alt => Key::Alt,
        KeyModifier::Cmd => Key::MetaLeft,
    }
}

fn modifier_key(m: KeyModifier) -> (r: Key)
    ensures
        r == modifier_key_spec(m),
{
    match m {
        KeyModifier::Shift => Key::ShiftLeft,
        KeyModifier::Ctrl => Key::ControlLeft,
        KeyModifier::Alt => Key::Alt,
        KeyModifier::Cmd => Key::MetaLeft,
    }
}

/// How a session is started.
#[derive(Debug, Clone, PartialEq, Eq)]
pub struct ActivationConfig {
    pub trigger_key: ActivationKey,
    pub modifier_keys: Vec<KeyModifier>,
    pub double_click_required: bool,
    pub double_click_timeout_ms: u64,
    pub activation_timeout_ms: u64,
}

impl Default for ActivationConfig {
    /// CapsLock pressed twice within 300 ms, no modifiers.
    fn default() -> (r: Self)
        ensures
            r.trigger_key == ActivationKey::CapsLock,
            r.modifier_keys@.len() == 0,
            r.double_click_required,
            r.double_click_timeout_ms == 300,
            r.activation_timeout_ms == 5000,
    {
        ActivationConfig {
            trigger_key: ActivationKey::CapsLock,
            modifier_keys: Vec::new(),
            double_click_required: true,
            double_click_timeout_ms: 300,
            activation_timeout_ms: 5000,
        }
    }
}

/// Presses counted towards a double press.
#[derive(Debug, Clone, Copy, PartialEq, Eq, Structural)]
pub struct DoubleClickState {
    pub last_press_time: Option<u64>,
    pub click_count: u32,
}

impl Default for DoubleClickState {
    fn default() -> (r: Self)
        ensures
            r == (DoubleClickState { last_press_time: None, click_count: 0 }),
    {
        DoubleClickState { last_press_time: None, click_count: 0 }
    }
}

/// Time from `last` to `now`, 0 if the clock went backwards.
pub open spec fn elapsed_since(last: u64, now: u64) -> int {
    if now >= last {
        now - last
    } else {
        0
    }
}

/// The detector's step on a trigger press at `now`: a press within the
/// window of the previous one adds to the count and, from two presses on,
/// activates and empties the state; any other press starts a fresh count
/// of one.
pub open spec fn double_click_step(s: DoubleClickState, timeout_ms: u64, now: u64) -> (DoubleClickState, bool) {
    match s.last_press_time {
        Some(last) if elapsed_since(last, now) <= timeout_ms => {
            let count = if s.click_count == u32::MAX { u32::MAX } else { (s.click_count + 1) as u32 };
            if count >= 2 {
                (DoubleClickState { last_press_time: None, click_count: 0 }, true)
            } else {
                (DoubleClickState { last_press_time: Some(now), click_count: count }, false)
            }
        },
        _ => (DoubleClickState { last_press_time: Some(now), click_count: 1 }, false),
    }
}

/// Double-press law: from an empty detector, a first press never activates
/// and counts one; a second press within the window activates (once: the
/// detector is empty again); a second press after the window does not
/// activate and counts one afresh, so that a third press within the window
/// of the second activates.
pub proof fn lemma_double_click(timeout_ms: u64, t1: u64, t2: u64, t3: u64)
    requires
        t1 <= t2 <= t3,
    ensures
        ({
            let s0 = DoubleClickState { last_press_time: None, click_count: 0 };
            let (s1, a1) = double_click_step(s0, timeout_ms, t1);
            let (s2, a2) = double_click_step(s1, timeout_ms, t2);
            let (s3, a3) = double_click_step(s2, timeout_ms, t3);
            &&& !a1 && s1.click_count == 1
            &&& t2 - t1 < timeout_ms ==> a2 && s2 == s0
            &&& t2 - t1 > timeout_ms ==> !a2 && s2.click_count == 1 && s2.last_press_time == Some(t2)
            &&& t2 - t1 > timeout_ms && t3 - t2 < timeout_ms ==> a3
        }),
{
}

/// A character that may be bound: an ASCII letter or digit, space, or one
/// of `,` `.` `;` `'`.
pub open spec fn is_bindable_char(c: char) -> bool {
    ('a' <= c && c <= 'z') || ('A' <= c && c <= 'Z') || ('0' <= c && c <= '9') || c == ' ' || c == ','
        || c == '.' || c == ';' || c == '\''
}

/// The nineteen mandatory bindings, in table order.
pub open spec fn main_keys(b: KeyBindings) -> Seq<char> {
    seq![
        b.move_up, b.move_down, b.move_left, b.move_right, b.left_click, b.right_click,
        b.scroll_up, b.scroll_down, b.scroll_left, b.scroll_right, b.grid_mode, b.area_mode,
        b.prediction_mode, b.speed_toggle, b.hold_toggle, b.exit_key, b.screen_1, b.screen_2, b.screen_3,
    ]
}

/// Every binding, the optional middle click last.
pub open spec fn all_keys(b: KeyBindings) -> Seq<char> {
    match b.middle_click {
        Some(m) => main_keys(b).push(m),
        None => main_keys(b),
    }
}

/// No two commands share a key and every key is bindable.
pub open spec fn valid_bindings(b: KeyBindings) -> bool {
    let keys = all_keys(b);
    &&& forall|i: int, j: int| 0 <= i < j < keys.len() ==> keys[i] != keys[j]
    &&& forall|i: int| 0 <= i < keys.len() ==> is_bindable_char(#[trigger] keys[i])
}


/// The character a key types, for the keys that bindings can use.
pub open spec fn key_char_spec(k: Key) -> Option<char> {
    match k {
        Key::KeyA => Some('a'), Key::KeyB => Some('b'), Key::KeyC => Some('c'), Key::KeyD => Some('d'),
        Key::KeyE => Some('e'), Key::KeyF => Some('f'), Key::KeyG => Some('g'), Key::KeyH => Some('h'),
        Key::KeyI => Some('i'), Key::KeyJ => Some('j'), Key::KeyK => Some('k'), Key::KeyL => Some('l'),
        Key::KeyM => Some('m'), Key::KeyN => Some('n'), Key::KeyO => Some('o'), Key::KeyP => Some('p'),
        Key::KeyQ => Some('q'), Key::KeyR => Some('r'), Key::KeyS => Some('s'), Key::KeyT => Some('t'),
        Key::KeyU => Some('u'), Key::KeyV => Some('v'), Key::KeyW => Some('w'), Key::KeyX => Some('x'),
        Key::KeyY => Some('y'), Key::KeyZ => Some('z'),
        Key::Num1 => Some('1'), Key::Num2 => Some('2'), Key::Num3 => Some('3'), Key::Num4 => Some('4'),
        Key::Num5 => Some('5'), Key::Num6 => Some('6'), Key::Num7 => Some('7'), Key::Num8 => Some('8'),
        Key::Num9 => Some('9'), Key::Num0 => Some('0'),
        Key::Space => Some(' '), Key::Comma => Some(','), Key::Dot => Some('.'), Key::SemiColon => Some(';'),
        Key::Quote => Some('\''),
        _ => None,
    }
}

/// The key that types a character, letters of either case included.
pub open spec fn char_key_spec(c: char) -> Option<Key> {
    if c == 'a' || c == 'A' { Some(Key::KeyA) } else if c == 'b' || c == 'B' { Some(Key::KeyB) }
    else if c == 'c' || c == 'C' { Some(Key::KeyC) } else if c == 'd' || c == 'D' { Some(Key::KeyD) }
    else if c == 'e' || c == 'E' { Some(Key::KeyE) } else if c == 'f' || c == 'F' { Some(Key::KeyF) }
    else if c == 'g' || c == 'G' { Some(Key::KeyG) } else if c == 'h' || c == 'H' { Some(Key::KeyH) }
    else if c == 'i' || c == 'I' { Some(Key::KeyI) } else if c == 'j' || c == 'J' { Some(Key::KeyJ) }
    else if c == 'k' || c == 'K' { Some(Key::KeyK) } else if c == 'l' || c == 'L' { Some(Key::KeyL) }
    else if c == 'm' || c == 'M' { Some(Key::KeyM) } else if c == 'n' || c == 'N' { Some(Key::KeyN) }
    else if c == 'o' || c == 'O' { Some(Key::KeyO) } else if c == 'p' || c == 'P' { Some(Key::KeyP) }
    else if c == 'q' || c == 'Q' { Some(Key::KeyQ) } else if c == 'r' || c == 'R' { Some(Key::KeyR) }
    else if c == 's' || c == 'S' { Some(Key::KeyS) } else if c == 't' || c == 'T' { Some(Key::KeyT) }
    else if c == 'u' || c == 'U' { Some(Key::KeyU) } else if c == 'v' || c == 'V' { Some(Key::KeyV) }
    else if c == 'w' || c == 'W' { Some(Key::KeyW) } else if c == 'x' || c == 'X' { Some(Key::KeyX) }
    else if c == 'y' || c == 'Y' { Some(Key::KeyY) } else if c == 'z' || c == 'Z' { Some(Key::KeyZ) }
    else if c == '1' { Some(Key::Num1) } else if c == '2' { Some(Key::Num2) } else if c == '3' { Some(Key::Num3) }
    else if c == '4' { Some(Key::Num4) } else if c == '5' { Some(Key::Num5) } else if c == '6' { Some(Key::Num6) }
    else if c == '7' { Some(Key::Num7) } else if c == '8' { Some(Key::Num8) } else if c == '9' { Some(Key::Num9) }
    else if c == '0' { Some(Key::Num0) } else if c == ' ' { Some(Key::Space) } else if c == ',' { Some(Key::Comma) }
    else if c == '.' { Some(Key::Dot) } else if c == ';' { Some(Key::SemiColon) } else if c == '\'' { Some(Key::Quote) }
    else { None }
}

pub open spec fn is_modifier_key_spec(k: Key) -> bool {
    k == Key::ShiftLeft || k == Key::ShiftRight || k == Key::ControlLeft || k == Key::ControlRight || k == Key::Alt
        || k == Key::AltGr || k == Key::MetaLeft || k == Key::MetaRight
}

/// What a key does in an active session, through the bindings: a 10-pixel
/// step, a click, exit, the speed toggle or a mode switch.
pub open spec fn session_action(b: KeyBindings, c: char) -> Action {
    if c == b.move_up {
        Action::MoveCursor(Position { x: 0, y: -10i32, screen_id: None }, AnimationType::Smooth)
    } else if c == b.move_down {
        Action::MoveCursor(Position { x: 0, y: 10, screen_id: None }, AnimationType::Smooth)
    } else if c == b.move_left {
        Action::MoveCursor(Position { x: -10i32, y: 0, screen_id: None }, AnimationType::Smooth)
    } else if c == b.move_right {
        Action::MoveCursor(Position { x: 10, y: 0, screen_id: None }, AnimationType::Smooth)
    } else if c == b.left_click {
        Action::Click(MouseButton::Left)
    } else if c == b.right_click {
        Action::Click(MouseButton::Right)
    } else if c == b.exit_key {
        Action::Exit
    } else if c == b.speed_toggle {
        Action::ToggleSpeed
    } else if c == b.grid_mode {
        Action::ActivateMode(InteractionMode::Grid)
    } else if c == b.area_mode {
        Action::ActivateMode(InteractionMode::Area)
    } else if c == b.prediction_mode {
        Action::ActivateMode(InteractionMode::Prediction)
    } else {
        Action::NoAction
    }
}

fn session_action_of(b: &KeyBindings, c: char) -> (r: Action)
    ensures
        r == session_action(*b, c),
{
    if c == b.move_up {
        Action::MoveCursor(Position::new(0, -10), AnimationType::Smooth)
    } else if c == b.move_down {
        Action::MoveCursor(Position::new(0, 10), AnimationType::Smooth)
    } else if c == b.move_left {
        Action::MoveCursor(Position::new(-10, 0), AnimationType::Smooth)
    } else if c == b.move_right {
        Action::MoveCursor(Position::new(10, 0), AnimationType::Smooth)
    } else if c == b.left_click {
        Action::Click(MouseButton::Left)
    } else if c == b.right_click {
        Action::Click(MouseButton::Right)
    } else if c == b.exit_key {
        Action::Exit
    } else if c == b.speed_toggle {
        Action::ToggleSpeed
    } else if c == b.grid_mode {
        Action::ActivateMode(InteractionMode::Grid)
    } else if c == b.area_mode {
        Action::ActivateMode(InteractionMode::Area)
    } else if c == b.prediction_mode {
        Action::ActivateMode(InteractionMode::Prediction)
    } else {
        Action::NoAction
    }
}

/// Whether `keys` holds `k`.
fn holds_key(keys: &Vec<Key>, k: Key) -> (r: bool)
    ensures
        r == keys@.contains(k),
{
    let mut i: usize = 0;
    while i < keys.len()
        invariant
            i <= keys@.len(),
            forall|j: int| 0 <= j < i ==> keys@[j] != k,
        decreases keys@.len() - i,
    {
        if keys[i] == k {
            assert(keys@[i as int] == k);
            return true;
        }
        i = i + 1;
    }
    false
}

/// Adds `k` to a set of keys kept without repetition.
fn insert_key(keys: &mut Vec<Key>, k: Key)
    requires
        old(keys)@.no_duplicates(),
    ensures
        final(keys)@.no_duplicates(),
        forall|x: Key| #[trigger] final(keys)@.contains(x) <==> old(keys)@.contains(x) || x == k,
{
    if !holds_key(keys, k) {
        keys.push(k);
        proof {
            assert forall|x: Key| #[trigger] keys@.contains(x) <==> old(keys)@.contains(x) || x == k by {
                if x == k {
                    assert(keys@[keys@.len() - 1] == k);
                }
                if old(keys)@.contains(x) {
                    let j = choose|j: int| 0 <= j < old(keys)@.len() && old(keys)@[j] == x;
                    assert(keys@[j] == x);
                }
                if keys@.contains(x) && x != k {
                    let j = choose|j: int| 0 <= j < keys@.len() && keys@[j] == x;
                    assert(old(keys)@[j] == x);
                }
            }
        }
    }
}

/// Takes `k` out of a set of keys kept without repetition.
fn remove_key(keys: &mut Vec<Key>, k: Key)
    requires
        old(keys)@.no_duplicates(),
    ensures
        final(keys)@.no_duplicates(),
        forall|x: Key| #[trigger] final(keys)@.contains(x) <==> old(keys)@.contains(x) && x != k,
{
    let mut kept: Vec<Key> = Vec::new();
    let mut i: usize = 0;
    while i < keys.len()
        invariant
            i <= keys@.len(),
            keys@.no_duplicates(),
            kept@.no_duplicates(),
            forall|x: Key| #[trigger] kept@.contains(x) <==> (exists|j: int| 0 <= j < i && keys@[j] == x) && x != k,
        decreases keys@.len() - i,
    {
        let x = keys[i];
        if x != k {
            proof {
                assert(!kept@.contains(x)) by {
                    if kept@.contains(x) {
                        let j = choose|j: int| 0 <= j < i && keys@[j] == x;
                        assert(keys@[j] == keys@[i as int]);
                    }
                }
            }
            let ghost before = kept@;
            kept.push(x);
            proof {
                assert forall|y: Key| #[trigger] kept@.contains(y) <==> (exists|j: int| 0 <= j < i + 1 && keys@[j] == y) && y != k by {
                    if kept@.contains(y) {
                        let j = choose|j: int| 0 <= j < kept@.len() && kept@[j] == y;
                        if j < before.len() {
                            assert(before.contains(y));
                        } else {
                            assert(keys@[i as int] == y);
                        }
                    }
                    if (exists|j: int| 0 <= j < i + 1 && keys@[j] == y) && y != k {
                        let j = choose|j: int| 0 <= j < i + 1 && keys@[j] == y;
                        if j < i {
                            assert(before.contains(y));
                            let m = choose|m: int| 0 <= m < before.len() && before[m] == y;
                            assert(kept@[m] == y);
                        } else {
                            assert(kept@[kept@.len() - 1] == y);
                        }
                    }
                }
            }
        } else {
            proof {
                assert forall|y: Key| #[trigger] kept@.contains(y) <==> (exists|j: int| 0 <= j < i + 1 && keys@[j] == y) && y != k by {
                    if (exists|j: int| 0 <= j < i + 1 && keys@[j] == y) && y != k {
                        let j = choose|j: int| 0 <= j < i + 1 && keys@[j] == y;
                        assert(j < i);
                    }
                }
            }
        }
        i = i + 1;
    }
    proof {
        assert forall|x: Key| #[trigger] kept@.contains(x) <==> keys@.contains(x) && x != k by {
            if keys@.contains(x) && x != k {
                let j = choose|j: int| 0 <= j < keys@.len() && keys@[j] == x;
                assert(exists|j: int| 0 <= j < keys@.len() && keys@[j] == x);
            }
        }
    }
    *keys = kept;
}


fn invalid_binding(prefix: &str, key: char) -> (r: InputError)
    ensures
        r is InvalidKeyBinding,
{
    let mut binding = String::from_str(prefix);
    push_char(&mut binding, key);
    binding.append("'");
    InputError::InvalidKeyBinding { binding }
}

/// The bindings as a list, in table order, the middle click last.
fn binding_keys(b: &KeyBindings) -> (r: Vec<char>)
    ensures
        r@ == all_keys(*b),
{
    let mut keys: Vec<char> = vec![
        b.move_up, b.move_down, b.move_left, b.move_right, b.left_click, b.right_click,
        b.scroll_up, b.scroll_down, b.scroll_left, b.scroll_right, b.grid_mode, b.area_mode,
        b.prediction_mode, b.speed_toggle, b.hold_toggle, b.exit_key, b.screen_1, b.screen_2, b.screen_3,
    ];
    proof {
        assert(keys@ =~= main_keys(*b));
    }
    if let Some(m) = b.middle_click {
        keys.push(m);
    }
    keys
}

/// Keyboard state of the session: bindings, activation settings, whether a
/// session is active, the double-press detector, the registered hotkeys and
/// the modifier keys held down.
#[derive(Debug, Clone)]
pub struct InputHandler {
    key_bindings: KeyBindings,
    activation_config: ActivationConfig,
    is_active: bool,
    double_click_state: DoubleClickState,
    registered_hotkeys: Vec<Key>,
    pressed_modifiers: Vec<Key>,
}

impl InputHandler {
    pub closed spec fn bindings_spec(&self) -> KeyBindings {
        self.key_bindings
    }

    pub closed spec fn config_spec(&self) -> ActivationConfig {
        self.activation_config
    }

    pub closed spec fn active_spec(&self) -> bool {
        self.is_active
    }

    pub closed spec fn clicks_spec(&self) -> DoubleClickState {
        self.double_click_state
    }

    /// The registered hotkeys.
    pub closed spec fn registered_spec(&self) -> Seq<Key> {
        self.registered_hotkeys@
    }

    /// The modifier keys held down.
    pub closed spec fn pressed_spec(&self) -> Seq<Key> {
        self.pressed_modifiers@
    }

    pub open spec fn wf(&self) -> bool {
        self.registered_spec().no_duplicates() && self.pressed_spec().no_duplicates()
    }

    /// Whether every modifier that the activation settings require is held.
    pub open spec fn modifiers_held(&self) -> bool {
        forall|i: int|
            0 <= i < self.config_spec().modifier_keys@.len() ==> self.pressed_spec().contains(
                modifier_key_spec(#[trigger] self.config_spec().modifier_keys@[i]),
            )
    }

    /// Default bindings and activation settings, inactive, nothing registered.
    pub fn new() -> (r: InputResult<Self>)
        ensures
            r matches Ok(h) && h.wf() && !h.active_spec() && h.bindings_spec() == crate::traits::default_key_bindings()
                && h.clicks_spec() == (DoubleClickState { last_press_time: None, click_count: 0 })
                && h.registered_spec().len() == 0 && h.pressed_spec().len() == 0,
    {
        Ok(InputHandler {
            key_bindings: KeyBindings::default(),
            activation_config: ActivationConfig::default(),
            is_active: false,
            double_click_state: DoubleClickState::default(),
            registered_hotkeys: Vec::new(),
            pressed_modifiers: Vec::new(),
        })
    }

    /// Registers the trigger key and the keys of the required modifiers.
    pub fn register_activation_hotkey(&mut self) -> (r: InputResult<()>)
        requires
            old(self).wf(),
        ensures
            r is Ok,
            final(self).wf(),
            forall|k: Key|
                #[trigger] final(self).registered_spec().contains(k) <==> old(self).registered_spec().contains(k) || k
                    == activation_key_spec(old(self).config_spec().trigger_key) || exists|i: int|
                    0 <= i < old(self).config_spec().modifier_keys@.len() && k == modifier_key_spec(
                        old(self).config_spec().modifier_keys@[i],
                    ),
            final(self).config_spec() == old(self).config_spec(),
            final(self).bindings_spec() == old(self).bindings_spec(),
            final(self).active_spec() == old(self).active_spec(),
            final(self).clicks_spec() == old(self).clicks_spec(),
            final(self).pressed_spec() == old(self).pressed_spec(),
    {
        let trigger = self.activation_config.trigger_key.to_key();
        insert_key(&mut self.registered_hotkeys, trigger);
        self.register_modifiers_of_config();
        Ok(())
    }

    fn register_modifiers_of_config(&mut self)
        requires
            old(self).wf(),
        ensures
            final(self).wf(),
            forall|k: Key|
                #[trigger] final(self).registered_spec().contains(k) <==> old(self).registered_spec().contains(k)
                    || exists|i: int|
                    0 <= i < old(self).config_spec().modifier_keys@.len() && k == modifier_key_spec(
                        old(self).config_spec().modifier_keys@[i],
                    ),
            final(self).config_spec() == old(self).config_spec(),
            final(self).bindings_spec() == old(self).bindings_spec(),
            final(self).active_spec() == old(self).active_spec(),
            final(self).clicks_spec() == old(self).clicks_spec(),
            final(self).pressed_spec() == old(self).pressed_spec(),
    {
        let mut i: usize = 0;
        let ghost start = self.registered_hotkeys@;
        while i < self.activation_config.modifier_keys.len()
            invariant
                self.wf(),
                i <= self.activation_config.modifier_keys@.len(),
                self.activation_config == old(self).activation_config,
                self.key_bindings == old(self).key_bindings,
                self.is_active == old(self).is_active,
                self.double_click_state == old(self).double_click_state,
                self.pressed_modifiers@ == old(self).pressed_modifiers@,
                start == old(self).registered_hotkeys@,
                forall|k: Key|
                    #[trigger] self.registered_hotkeys@.contains(k) <==> start.contains(k) || exists|j: int|
                        0 <= j < i && k == modifier_key_spec(self.activation_config.modifier_keys@[j]),
            decreases self.activation_config.modifier_keys@.len() - i,
        {
            let key = modifier_key(self.activation_config.modifier_keys[i]);
            insert_key(&mut self.registered_hotkeys, key);
            proof {
                assert forall|k: Key|
                    #[trigger] self.registered_hotkeys@.contains(k) <==> start.contains(k) || exists|j: int|
                        0 <= j < i + 1 && k == modifier_key_spec(self.activation_config.modifier_keys@[j]) by {
                    if k == key {
                        assert(k == modifier_key_spec(self.activation_config.modifier_keys@[i as int]));
                    }
                    if exists|j: int| 0 <= j < i + 1 && k == modifier_key_spec(self.activation_config.modifier_keys@[j]) {
                        let j = choose|j: int|
                            0 <= j < i + 1 && k == modifier_key_spec(self.activation_config.modifier_keys@[j]);
                        if j < i {
                            assert(exists|j2: int|
                                0 <= j2 < i && k == modifier_key_spec(self.activation_config.modifier_keys@[j2]));
                        }
                    }
                }
            }
            i = i + 1;
        }
    }

    /// Replaces the activation settings.
    pub fn update_activation_config(&mut self, config: ActivationConfig) -> (r: InputResult<()>)
        requires
            old(self).wf(),
        ensures
            r is Ok,
            final(self).wf(),
            final(self).config_spec() == config,
            final(self).bindings_spec() == old(self).bindings_spec(),
            final(self).active_spec() == old(self).active_spec(),
            final(self).clicks_spec() == old(self).clicks_spec(),
            final(self).registered_spec() == old(self).registered_spec(),
            final(self).pressed_spec() == old(self).pressed_spec(),
    {
        self.activation_config = config;
        Ok(())
    }

    /// Accepts the bindings when no two commands share a key and every key
    /// is a letter, a digit, space or one of `,` `.` `;` `'`.
    pub fn validate_key_bindings(bindings: &KeyBindings) -> (r: InputResult<()>)
        ensures
            r is Ok <==> valid_bindings(*bindings),
            r matches Err(e) ==> e is InvalidKeyBinding,
    {
        let keys = binding_keys(bindings);
        let mut i: usize = 0;
        while i < keys.len()
            invariant
                keys@ == all_keys(*bindings),
                i <= keys@.len(),
                forall|a: int, b: int| 0 <= a < b < i ==> keys@[a] != keys@[b],
            decreases keys@.len() - i,
        {
            let mut j: usize = 0;
            while j < i
                invariant
                    keys@ == all_keys(*bindings),
                    j <= i < keys@.len(),
                    forall|a: int| 0 <= a < j ==> keys@[a] != keys@[i as int],
                decreases i - j,
            {
                if keys[j] == keys[i] {
                    if i == 19 {
                        return Err(invalid_binding("Duplicate key binding for middle_click: '", keys[i]));
                    }
                    return Err(invalid_binding("Duplicate key binding: '", keys[i]));
                }
                j = j + 1;
            }
            i = i + 1;
        }
        let mut i: usize = 0;
        while i < keys.len()
            invariant
                keys@ == all_keys(*bindings),
                i <= keys@.len(),
                forall|a: int, b: int| 0 <= a < b < keys@.len() ==> keys@[a] != keys@[b],
                forall|a: int| 0 <= a < i ==> is_bindable_char(#[trigger] keys@[a]),
            decreases keys@.len() - i,
        {
            let c = keys[i];
            let ok = ('a' <= c && c <= 'z') || ('A' <= c && c <= 'Z') || ('0' <= c && c <= '9') || c == ' ' || c
                == ',' || c == '.' || c == ';' || c == '\'';
            if !ok {
                return Err(invalid_binding("Invalid key character: '", c));
            }
            i = i + 1;
        }
        Ok(())
    }

    /// The character a key types, for the keys that bindings can use.
    pub fn key_to_char(key: &Key) -> (r: Option<char>)
        ensures
            r == key_char_spec(*key),
    {
        match key {
            Key::KeyA => Some('a'), Key::KeyB => Some('b'), Key::KeyC => Some('c'), Key::KeyD => Some('d'),
            Key::KeyE => Some('e'), Key::KeyF => Some('f'), Key::KeyG => Some('g'), Key::KeyH => Some('h'),
            Key::KeyI => Some('i'), Key::KeyJ => Some('j'), Key::KeyK => Some('k'), Key::KeyL => Some('l'),
            Key::KeyM => Some('m'), Key::KeyN => Some('n'), Key::KeyO => Some('o'), Key::KeyP => Some('p'),
            Key::KeyQ => Some('q'), Key::KeyR => Some('r'), Key::KeyS => Some('s'), Key::KeyT => Some('t'),
            Key::KeyU => Some('u'), Key::KeyV => Some('v'), Key::KeyW => Some('w'), Key::KeyX => Some('x'),
            Key::KeyY => Some('y'), Key::KeyZ => Some('z'),
            Key::Num1 => Some('1'), Key::Num2 => Some('2'), Key::Num3 => Some('3'), Key::Num4 => Some('4'),
            Key::Num5 => Some('5'), Key::Num6 => Some('6'), Key::Num7 => Some('7'), Key::Num8 => Some('8'),
            Key::Num9 => Some('9'), Key::Num0 => Some('0'),
            Key::Space => Some(' '), Key::Comma => Some(','), Key::Dot => Some('.'), Key::SemiColon => Some(';'),
            Key::Quote => Some('\''),
            _ => None,
        }
    }

    /// The key that types a character, letters of either case included.
    pub fn char_to_key(ch: char) -> (r: Option<Key>)
        ensures
            r == char_key_spec(ch),
    {
        match ch {
            'a' | 'A' => Some(Key::KeyA), 'b' | 'B' => Some(Key::KeyB), 'c' | 'C' => Some(Key::KeyC),
            'd' | 'D' => Some(Key::KeyD), 'e' | 'E' => Some(Key::KeyE), 'f' | 'F' => Some(Key::KeyF),
            'g' | 'G' => Some(Key::KeyG), 'h' | 'H' => Some(Key::KeyH), 'i' | 'I' => Some(Key::KeyI),
            'j' | 'J' => Some(Key::KeyJ), 'k' | 'K' => Some(Key::KeyK), 'l' | 'L' => Some(Key::KeyL),
            'm' | 'M' => Some(Key::KeyM), 'n' | 'N' => Some(Key::KeyN), 'o' | 'O' => Some(Key::KeyO),
            'p' | 'P' => Some(Key::KeyP), 'q' | 'Q' => Some(Key::KeyQ), 'r' | 'R' => Some(Key::KeyR),
            's' | 'S' => Some(Key::KeyS), 't' | 'T' => Some(Key::KeyT), 'u' | 'U' => Some(Key::KeyU),
            'v' | 'V' => Some(Key::KeyV), 'w' | 'W' => Some(Key::KeyW), 'x' | 'X' => Some(Key::KeyX),
            'y' | 'Y' => Some(Key::KeyY), 'z' | 'Z' => Some(Key::KeyZ),
            '1' => Some(Key::Num1), '2' => Some(Key::Num2), '3' => Some(Key::Num3), '4' => Some(Key::Num4),
            '5' => Some(Key::Num5), '6' => Some(Key::Num6), '7' => Some(Key::Num7), '8' => Some(Key::Num8),
            '9' => Some(Key::Num9), '0' => Some(Key::Num0),
            ' ' => Some(Key::Space), ',' => Some(Key::Comma), '.' => Some(Key::Dot), ';' => Some(Key::SemiColon),
            '\'' => Some(Key::Quote),
            _ => None,
        }
    }

    /// Shift, Control, Alt and Meta keys of either side.
    pub fn is_modifier_key(key: &Key) -> (r: bool)
        ensures
            r == is_modifier_key_spec(*key),
    {
        match key {
            Key::ShiftLeft | Key::ShiftRight | Key::ControlLeft | Key::ControlRight | Key::Alt | Key::AltGr
            | Key::MetaLeft | Key::MetaRight => true,
            _ => false,
        }
    }

    /// The keys the listener passes on: every key but `Other`.
    pub fn is_safe_key(key: &Key) -> (r: bool)
        ensures
            r == (*key != Key::Other),
    {
        match key {
            Key::Other => false,
            _ => true,
        }
    }
}


/// What a key press does in an active session, if anything.
pub open spec fn session_key_action(b: KeyBindings, key: Key) -> Option<Action> {
    match key_char_spec(key) {
        Some(c) => if session_action(b, c) == Action::NoAction {
            None
        } else {
            Some(session_action(b, c))
        },
        None => None,
    }
}

impl InputHandler {
    /// One step of the double-press detector for a trigger press at `now`:
    /// true when this press completes a double press.
    pub fn handle_double_click_detection(state: &mut DoubleClickState, timeout_ms: u64, now: u64) -> (r: InputResult<bool>)
        ensures
            r == Ok::<bool, InputError>(double_click_step(*old(state), timeout_ms, now).1),
            *final(state) == double_click_step(*old(state), timeout_ms, now).0,
    {
        let within = match state.last_press_time {
            Some(last) => {
                let elapsed = if now >= last { now - last } else { 0 };
                elapsed <= timeout_ms
            },
            None => false,
        };
        let should_activate = if within {
            state.click_count = state.click_count.saturating_add(1);
            state.click_count >= 2
        } else {
            state.click_count = 1;
            false
        };
        state.last_press_time = Some(now);
        if should_activate {
            state.click_count = 0;
            state.last_press_time = None;
        }
        Ok(should_activate)
    }

    /// Handles a key press at `now`. A press of the registered trigger with
    /// the required modifiers held starts a session (at once, or on the
    /// second press of a double press); while a session is active, other
    /// keys map to actions. Returns the action to hand on, if any.
    pub fn process_key_press_safe(&mut self, key: Key, now: u64) -> (r: InputResult<Option<Action>>)
        requires
            old(self).wf(),
        ensures
            final(self).wf(),
            final(self).bindings_spec() == old(self).bindings_spec(),
            final(self).config_spec() == old(self).config_spec(),
            final(self).registered_spec() == old(self).registered_spec(),
            forall|k: Key|
                #[trigger] final(self).pressed_spec().contains(k) <==> old(self).pressed_spec().contains(k) || (k == key
                    && is_modifier_key_spec(key)),
            r matches Ok(out) && ({
                let config = old(self).config_spec();
                if key == activation_key_spec(config.trigger_key) && old(self).registered_spec().contains(key) {
                    if final(self).modifiers_held() && !old(self).active_spec() {
                        if config.double_click_required {
                            let (next, activate) = double_click_step(old(self).clicks_spec(), config.double_click_timeout_ms, now);
                            &&& final(self).clicks_spec() == next
                            &&& final(self).active_spec() == activate
                            &&& out == if activate { Some(Action::ActivateMode(InteractionMode::Basic)) } else { None }
                        } else {
                            &&& final(self).clicks_spec() == old(self).clicks_spec()
                            &&& final(self).active_spec()
                            &&& out == Some(Action::ActivateMode(InteractionMode::Basic))
                        }
                    } else {
                        &&& final(self).clicks_spec() == old(self).clicks_spec()
                        &&& final(self).active_spec() == old(self).active_spec()
                        &&& out is None
                    }
                } else {
                    &&& final(self).clicks_spec() == old(self).clicks_spec()
                    &&& final(self).active_spec() == old(self).active_spec()
                    &&& out == if old(self).active_spec() { session_key_action(old(self).bindings_spec(), key) } else { None }
                }
            }),
    {
        if Self::is_modifier_key(&key) {
            insert_key(&mut self.pressed_modifiers, key);
        }
        let trigger = self.activation_config.trigger_key.to_key();
        if key == trigger && holds_key(&self.registered_hotkeys, key) {
            if self.required_modifiers_pressed() && !self.is_active {
                if self.activation_config.double_click_required {
                    let timeout = self.activation_config.double_click_timeout_ms;
                    let should_activate = match Self::handle_double_click_detection(&mut self.double_click_state, timeout, now) {
                        Ok(b) => b,
                        Err(e) => return Err(e),
                    };
                    if should_activate {
                        self.is_active = true;
                        return Ok(Some(Action::ActivateMode(InteractionMode::Basic)));
                    }
                    return Ok(None);
                } else {
                    self.is_active = true;
                    return Ok(Some(Action::ActivateMode(InteractionMode::Basic)));
                }
            }
            return Ok(None);
        }
        if self.is_active {
            return Ok(self.process_active_key_input_sync(key));
        }
        Ok(None)
    }

    fn required_modifiers_pressed(&self) -> (r: bool)
        ensures
            r == self.modifiers_held(),
    {
        let mut i: usize = 0;
        while i < self.activation_config.modifier_keys.len()
            invariant
                i <= self.activation_config.modifier_keys@.len(),
                forall|j: int|
                    0 <= j < i ==> self.pressed_modifiers@.contains(
                        modifier_key_spec(#[trigger] self.activation_config.modifier_keys@[j]),
                    ),
            decreases self.activation_config.modifier_keys@.len() - i,
        {
            let key = modifier_key(self.activation_config.modifier_keys[i]);
            if !holds_key(&self.pressed_modifiers, key) {
                return false;
            }
            i = i + 1;
        }
        true
    }

    /// Handles a key release: a released modifier is no longer held.
    pub fn process_key_release(&mut self, key: Key)
        requires
            old(self).wf(),
        ensures
            final(self).wf(),
            forall|k: Key|
                #[trigger] final(self).pressed_spec().contains(k) <==> old(self).pressed_spec().contains(k) && !(k == key
                    && is_modifier_key_spec(key)),
            final(self).bindings_spec() == old(self).bindings_spec(),
            final(self).config_spec() == old(self).config_spec(),
            final(self).active_spec() == old(self).active_spec(),
            final(self).clicks_spec() == old(self).clicks_spec(),
            final(self).registered_spec() == old(self).registered_spec(),
    {
        if Self::is_modifier_key(&key) {
            remove_key(&mut self.pressed_modifiers, key);
        }
    }

    /// The action of a key in an active session, if it has one.
    fn process_active_key_input_sync(&self, key: Key) -> (r: Option<Action>)
        ensures
            r == session_key_action(self.bindings_spec(), key),
    {
        match Self::key_to_char(&key) {
            Some(ch) => {
                let action = session_action_of(&self.key_bindings, ch);
                if action == Action::NoAction {
                    None
                } else {
                    Some(action)
                }
            },
            None => None,
        }
    }

    /// The action bound to a key event; nothing while no session is active.
    pub fn process_key_event(&self, event: KeyInput) -> (r: InputResult<Action>)
        ensures
            r == Ok::<Action, InputError>(
                if self.active_spec() { session_action(self.bindings_spec(), event.key) } else { Action::NoAction },
            ),
    {
        if !self.is_active {
            return Ok(Action::NoAction);
        }
        Ok(session_action_of(&self.key_bindings, event.key))
    }

    /// Registers a hotkey and the keys of its modifiers; fails on a
    /// character that no key types.
    pub fn register_hotkey(&mut self, key: char, modifiers: Vec<KeyModifier>) -> (r: InputResult<()>)
        requires
            old(self).wf(),
        ensures
            final(self).wf(),
            r is Ok <==> char_key_spec(key) is Some,
            r matches Err(e) ==> e is InvalidKeyBinding && *final(self) == *old(self),
            r is Ok ==> forall|k: Key|
                #[trigger] final(self).registered_spec().contains(k) <==> old(self).registered_spec().contains(k) || k
                    == char_key_spec(key).unwrap() || exists|i: int|
                    0 <= i < modifiers@.len() && k == modifier_key_spec(modifiers@[i]),
            final(self).bindings_spec() == old(self).bindings_spec(),
            final(self).config_spec() == old(self).config_spec(),
            final(self).active_spec() == old(self).active_spec(),
            final(self).pressed_spec() == old(self).pressed_spec(),
    {
        let hotkey = match Self::char_to_key(key) {
            Some(k) => k,
            None => return Err(invalid_binding("Unsupported key: '", key)),
        };
        insert_key(&mut self.registered_hotkeys, hotkey);
        let ghost start = self.registered_hotkeys@;
        let mut i: usize = 0;
        while i < modifiers.len()
            invariant
                self.wf(),
                i <= modifiers@.len(),
                self.key_bindings == old(self).key_bindings,
                self.activation_config == old(self).activation_config,
                self.is_active == old(self).is_active,
                self.pressed_modifiers@ == old(self).pressed_modifiers@,
                forall|k: Key| #[trigger] start.contains(k) <==> old(self).registered_hotkeys@.contains(k) || k == hotkey,
                forall|k: Key|
                    #[trigger] self.registered_hotkeys@.contains(k) <==> start.contains(k) || exists|j: int|
                        0 <= j < i && k == modifier_key_spec(modifiers@[j]),
            decreases modifiers@.len() - i,
        {
            let mk = modifier_key(modifiers[i]);
            insert_key(&mut self.registered_hotkeys, mk);
            proof {
                assert forall|k: Key|
                    #[trigger] self.registered_hotkeys@.contains(k) <==> start.contains(k) || exists|j: int|
                        0 <= j < i + 1 && k == modifier_key_spec(modifiers@[j]) by {
                    if k == mk {
                        assert(k == modifier_key_spec(modifiers@[i as int]));
                    }
                    if exists|j: int| 0 <= j < i + 1 && k == modifier_key_spec(modifiers@[j]) {
                        let j = choose|j: int| 0 <= j < i + 1 && k == modifier_key_spec(modifiers@[j]);
                        if j < i {
                            assert(exists|j2: int| 0 <= j2 < i && k == modifier_key_spec(modifiers@[j2]));
                        }
                    }
                }
            }
            i = i + 1;
        }
        Ok(())
    }

    /// Takes new bindings if they pass validation; on failure nothing changes.
    pub fn update_bindings(&mut self, bindings: KeyBindings) -> (r: InputResult<()>)
        requires
            old(self).wf(),
        ensures
            final(self).wf(),
            r is Ok <==> valid_bindings(bindings),
            final(self).bindings_spec() == if r is Ok { bindings } else { old(self).bindings_spec() },
            final(self).config_spec() == old(self).config_spec(),
            final(self).active_spec() == old(self).active_spec(),
            final(self).clicks_spec() == old(self).clicks_spec(),
            final(self).registered_spec() == old(self).registered_spec(),
            final(self).pressed_spec() == old(self).pressed_spec(),
    {
        Self::validate_key_bindings(&bindings)?;
        self.key_bindings = bindings;
        Ok(())
    }

    pub fn get_key_bindings(&self) -> (r: KeyBindings)
        ensures
            r == self.bindings_spec(),
    {
        self.key_bindings
    }

    pub fn is_active(&self) -> (r: bool)
        ensures
            r == self.active_spec(),
    {
        self.is_active
    }

    /// Starts a session.
    pub fn activate(&mut self) -> (r: InputResult<()>)
        requires
            old(self).wf(),
        ensures
            r is Ok,
            final(self).wf(),
            final(self).active_spec(),
            final(self).bindings_spec() == old(self).bindings_spec(),
            final(self).config_spec() == old(self).config_spec(),
            final(self).clicks_spec() == old(self).clicks_spec(),
            final(self).registered_spec() == old(self).registered_spec(),
            final(self).pressed_spec() == old(self).pressed_spec(),
    {
        self.is_active = true;
        Ok(())
    }

    /// Ends the session.
    pub fn deactivate(&mut self) -> (r: InputResult<()>)
        requires
            old(self).wf(),
        ensures
            r is Ok,
            final(self).wf(),
            !final(self).active_spec(),
            final(self).bindings_spec() == old(self).bindings_spec(),
            final(self).config_spec() == old(self).config_spec(),
            final(self).clicks_spec() == old(self).clicks_spec(),
            final(self).registered_spec() == old(self).registered_spec(),
            final(self).pressed_spec() == old(self).pressed_spec(),
    {
        self.is_active = false;
        Ok(())
    }
}


impl crate::traits::InputProcessor for InputHandler {
    open spec fn processor_wf(&self) -> bool {
        self.wf()
    }

    fn process_key_event(&self, event: KeyInput) -> InputResult<Action> {
        InputHandler::process_key_event(self, event)
    }

    fn register_hotkey(&mut self, key: char, modifiers: Vec<KeyModifier>) -> InputResult<()> {
        InputHandler::register_hotkey(self, key, modifiers)
    }

    fn update_bindings(&mut self, bindings: KeyBindings) -> InputResult<()> {
        InputHandler::update_bindings(self, bindings)
    }

    fn is_active(&self) -> bool {
        InputHandler::is_active(self)
    }

    fn activate(&mut self) -> InputResult<()> {
        InputHandler::activate(self)
    }

    fn deactivate(&mut self) -> InputResult<()> {
        InputHandler::deactivate(self)
    }
}

} // verus!
