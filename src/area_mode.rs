//! Area mode: the screen as a 3x3 board of regions keyed Q/W/E, A/S/D,
//! Z/X/C. One key highlights a region (and, after a short pause, moves to
//! its center); a second key moves to where the two regions meet.

use vstd::prelude::*;

use crate::clock::now_ms;
use crate::error::Result;
use crate::models::{Action, AnimationType, Area, KeyInput, Position, ScreenBounds};
use crate::text::push_char;
use crate::traits::KeyBindings;

verus! {

/// After this long, in milliseconds, a lone first key resolves to its own
/// region's center.
pub const SINGLE_KEY_TIMEOUT_MS: u64 = 400;

/// After this long, in milliseconds, a pending first key no longer pairs
/// with the next key.
pub const COMBINATION_EXPIRY_MS: u64 = 800;

/// The column of an area key, or -1.
pub open spec fn area_column(key: char) -> int {
    if key == 'q' || key == 'a' || key == 'z' {
        0
    } else if key == 'w' || key == 's' || key == 'x' {
        1
    } else if key == 'e' || key == 'd' || key == 'c' {
        2
    } else {
        -1
    }
}

/// The row of an area key, or -1.
pub open spec fn area_row(key: char) -> int {
    if key == 'q' || key == 'w' || key == 'e' {
        0
    } else if key == 'a' || key == 's' || key == 'd' {
        1
    } else if key == 'z' || key == 'x' || key == 'c' {
        2
    } else {
        -1
    }
}

pub open spec fn is_area_key(key: char) -> bool {
    area_column(key) >= 0
}

/// The area keys in board order, row by row.
pub open spec fn area_key_at(i: int) -> char {
    if i == 0 { 'q' } else if i == 1 { 'w' } else if i == 2 { 'e' } else if i == 3 { 'a' }
    else if i == 4 { 's' } else if i == 5 { 'd' } else if i == 6 { 'z' } else if i == 7 { 'x' }
    else { 'c' }
}

/// `c`, with the upper-case forms of the area keys mapped to the keys
/// themselves (area keys are read without regard to case).
pub open spec fn fold_area_key(c: char) -> char {
    if c == 'Q' { 'q' } else if c == 'W' { 'w' } else if c == 'E' { 'e' } else if c == 'A' { 'a' }
    else if c == 'S' { 's' } else if c == 'D' { 'd' } else if c == 'Z' { 'z' } else if c == 'X' { 'x' }
    else if c == 'C' { 'c' } else { c }
}

/// The upper-case form of an area key.
pub open spec fn area_label_char(c: char) -> char {
    if c == 'q' { 'Q' } else if c == 'w' { 'W' } else if c == 'e' { 'E' } else if c == 'a' { 'A' }
    else if c == 's' { 'S' } else if c == 'd' { 'D' } else if c == 'z' { 'Z' } else if c == 'x' { 'X' }
    else if c == 'c' { 'C' } else { c }
}

/// Where band `i` (0, 1 or 2) of a length cut in thirds starts: `i * len / 3`, rounded down.
pub open spec fn third_edge(i: int, len: int) -> int {
    i * len / 3
}

/// The middle of band `i`: `(i + 1/2) * len / 3`, rounded down.
pub open spec fn third_center(i: int, len: int) -> int {
    (2 * i + 1) * len / 6
}

/// `a` is the region of `key` on a `width x height` screen.
pub open spec fn is_area_of(a: Area, key: char, width: int, height: int) -> bool {
    let col = area_column(key);
    let row = area_row(key);
    &&& a.key == key
    &&& a.bounds.id == 0
    &&& a.bounds.is_primary
    &&& a.bounds.x == third_edge(col, width)
    &&& a.bounds.y == third_edge(row, height)
    &&& a.bounds.width == width / 3
    &&& a.bounds.height == height / 3
    &&& a.center.x == third_center(col, width)
    &&& a.center.y == third_center(row, height)
    &&& a.center.screen_id is None
    &&& a.label@ == seq![area_label_char(key)]
}

/// Where the regions of `k1` and `k2` meet, horizontally. Same column: the
/// column's center. Same row: the edge next to the left-hand region's right
/// side. Otherwise: the first region's right edge if the second lies to its
/// right, else its left edge.
pub open spec fn combination_x(k1: char, k2: char, width: int) -> int {
    let (c1, c2) = (area_column(k1), area_column(k2));
    let (r1, r2) = (area_row(k1), area_row(k2));
    if c1 == c2 {
        third_center(c1, width)
    } else if r1 == r2 {
        if c1 < c2 {
            third_edge(c1, width) + width / 3
        } else {
            third_edge(c2, width) + width / 3
        }
    } else if c1 < c2 {
        third_edge(c1, width) + width / 3
    } else {
        third_edge(c1, width)
    }
}

/// Where the regions of `k1` and `k2` meet, vertically; the same rule as
/// `combination_x` with rows and columns exchanged.
pub open spec fn combination_y(k1: char, k2: char, height: int) -> int {
    let (c1, c2) = (area_column(k1), area_column(k2));
    let (r1, r2) = (area_row(k1), area_row(k2));
    if c1 == c2 {
        if r1 < r2 {
            third_edge(r1, height) + height / 3
        } else {
            third_edge(r2, height) + height / 3
        }
    } else if r1 == r2 {
        third_center(r1, height)
    } else if r1 < r2 {
        third_edge(r1, height) + height / 3
    } else {
        third_edge(r1, height)
    }
}

proof fn lemma_thirds(i: int, len: int)
    requires
        0 <= i <= 2,
        0 <= len,
    ensures
        0 <= third_edge(i, len),
        third_edge(i, len) + len / 3 <= len,
        0 <= third_center(i, len) <= len,
{
    if i == 0 {
    } else if i == 1 {
    } else {
        assert(2 * len / 3 + len / 3 <= len);
    }
    assert(0 <= third_center(i, len) <= len) by (nonlinear_arith)
        requires
            0 <= i <= 2,
            0 <= len,
            third_center(i, len) == (2 * i + 1) * len / 6,
    ;
}


/// One key handled by area mode: `old` and `new` are the handler before
/// and after, `action` the result.
pub open spec fn area_step(old: AreaMode, new: AreaMode, input: KeyInput, action: Action) -> bool {
    let key = fold_area_key(input.key);
    let now = input.timestamp;
    let pending = if old.first_key_time_spec() matches Some(t) && now >= t && now - t
        > COMBINATION_EXPIRY_MS {
        None
    } else {
        old.first_key_spec()
    };
    if !old.active_spec() {
        action == Action::NoAction && new == old
    } else if key == ' ' || input.key == '\x1b' {
        action == Action::DeactivateMode && new == old
    } else if !is_area_key(key) {
        action == Action::NoAction && new == old
    } else {
        match pending {
            None => {
                &&& action == Action::HighlightArea(key)
                &&& new.first_key_spec() == Some(key)
                &&& new.first_key_time_spec() == Some(now)
            },
            Some(first) => {
                &&& new.first_key_spec() is None
                &&& action == if old.areas_ready() {
                    Action::MoveCursor(
                        Position {
                            x: combination_x(first, key, old.width_spec()) as i32,
                            y: combination_y(first, key, old.height_spec()) as i32,
                            screen_id: None,
                        },
                        AnimationType::Smooth,
                    )
                } else {
                    Action::NoAction
                }
            },
        }
    }
}

/// Area mode handler.
#[derive(Debug, Clone)]
pub struct AreaMode {
    is_active: bool,
    /// The nine regions in board order, once computed.
    areas: Vec<Area>,
    screen_width: u32,
    screen_height: u32,
    first_key: Option<char>,
    first_key_time: Option<u64>,
}

fn copy_area(a: &Area) -> (r: Area)
    ensures
        r.key == a.key,
        r.bounds == a.bounds,
        r.center == a.center,
        r.label@ == a.label@,
{
    Area { key: a.key, bounds: a.bounds, center: a.center, label: a.label.clone() }
}

fn area_key_at_index(i: usize) -> (r: char)
    requires
        i < 9,
    ensures
        r == area_key_at(i as int),
        area_column(r) == i % 3,
        area_row(r) == i / 3,
{
    match i {
        0 => 'q',
        1 => 'w',
        2 => 'e',
        3 => 'a',
        4 => 's',
        5 => 'd',
        6 => 'z',
        7 => 'x',
        _ => 'c',
    }
}

fn upper_key(c: char) -> (r: char)
    requires
        is_area_key(c),
    ensures
        r == area_label_char(c),
{
    match c {
        'q' => 'Q',
        'w' => 'W',
        'e' => 'E',
        'a' => 'A',
        's' => 'S',
        'd' => 'D',
        'z' => 'Z',
        'x' => 'X',
        _ => 'C',
    }
}

/// The upper-case area keys mapped to lower case; every other character unchanged.
fn fold_key(c: char) -> (r: char)
    ensures
        r == fold_area_key(c),
{
    match c {
        'Q' => 'q',
        'W' => 'w',
        'E' => 'e',
        'A' => 'a',
        'S' => 's',
        'D' => 'd',
        'Z' => 'z',
        'X' => 'x',
        'C' => 'c',
        _ => c,
    }
}

/// The nine regions of a `width x height` screen, in board order.
fn compute_areas(width: u32, height: u32) -> (r: Vec<Area>)
    requires
        width <= i32::MAX,
        height <= i32::MAX,
    ensures
        r@.len() == 9,
        forall|i: int| 0 <= i < 9 ==> is_area_of(#[trigger] r@[i], area_key_at(i), width as int, height as int),
{
    let width = width as u64;
    let height = height as u64;
    let mut areas: Vec<Area> = Vec::new();
    let mut i: usize = 0;
    while i < 9
        invariant
            width <= i32::MAX,
            height <= i32::MAX,
            i <= 9,
            areas@.len() == i,
            forall|j: int|
                0 <= j < i ==> is_area_of(#[trigger] areas@[j], area_key_at(j), width as int, height as int),
        decreases 9 - i,
    {
        let key = area_key_at_index(i);
        let col = (i % 3) as u64;
        let row = (i / 3) as u64;
        proof {
            lemma_thirds(col as int, width as int);
            lemma_thirds(row as int, height as int);
        }
        let mut label = String::new();
        push_char(&mut label, upper_key(key));
        proof {
            assert(label@ =~= seq![area_label_char(key)]);
        }
        let area = Area {
            key,
            bounds: ScreenBounds {
                id: 0,
                x: (col * width / 3) as i32,
                y: (row * height / 3) as i32,
                width: (width / 3) as u32,
                height: (height / 3) as u32,
                is_primary: true,
            },
            center: Position {
                x: ((2 * col + 1) * width / 6) as i32,
                y: ((2 * row + 1) * height / 6) as i32,
                screen_id: None,
            },
            label,
        };
        areas.push(area);
        i = i + 1;
    }
    areas
}

impl AreaMode {
    pub closed spec fn active_spec(&self) -> bool {
        self.is_active
    }

    pub closed spec fn areas_spec(&self) -> Seq<Area> {
        self.areas@
    }

    pub closed spec fn width_spec(&self) -> int {
        self.screen_width as int
    }

    pub closed spec fn height_spec(&self) -> int {
        self.screen_height as int
    }

    /// The pending first key, if any.
    pub closed spec fn first_key_spec(&self) -> Option<char> {
        self.first_key
    }

    /// When the pending first key was pressed.
    pub closed spec fn first_key_time_spec(&self) -> Option<u64> {
        self.first_key_time
    }

    /// Whether the nine regions have been computed.
    pub open spec fn areas_ready(&self) -> bool {
        self.areas_spec().len() == 9
    }

    /// The region of an area key, once computed.
    pub open spec fn area_of(&self, key: char) -> Area {
        self.areas_spec()[3 * area_row(key) + area_column(key)]
    }

    pub open spec fn wf(&self) -> bool {
        &&& self.width_spec() <= i32::MAX
        &&& self.height_spec() <= i32::MAX
        &&& (self.areas_spec().len() == 0 || self.areas_ready())
        &&& self.areas_ready() ==> forall|i: int|
            0 <= i < 9 ==> is_area_of(#[trigger] self.areas_spec()[i], area_key_at(i), self.width_spec(), self.height_spec())
        &&& (self.first_key_spec() is Some <==> self.first_key_time_spec() is Some)
        &&& (self.first_key_spec() matches Some(k) ==> is_area_key(k))
    }

    /// An inactive handler for a 1920x1080 screen, with no regions computed yet.
    pub fn new() -> (r: Self)
        ensures
            r.wf(),
            !r.active_spec(),
            r.areas_spec().len() == 0,
            r.width_spec() == 1920,
            r.height_spec() == 1080,
            r.first_key_spec() is None,
    {
        AreaMode {
            is_active: false,
            areas: Vec::new(),
            screen_width: 1920,
            screen_height: 1080,
            first_key: None,
            first_key_time: None,
        }
    }

    /// Takes new screen dimensions and recomputes the regions.
    pub fn set_screen_dimensions(&mut self, width: u32, height: u32)
        requires
            old(self).wf(),
            width <= i32::MAX,
            height <= i32::MAX,
        ensures
            final(self).wf(),
            final(self).areas_ready(),
            final(self).width_spec() == width,
            final(self).height_spec() == height,
            final(self).active_spec() == old(self).active_spec(),
            final(self).first_key_spec() == old(self).first_key_spec(),
            final(self).first_key_time_spec() == old(self).first_key_time_spec(),
    {
        self.areas = compute_areas(width, height);
        self.screen_width = width;
        self.screen_height = height;
    }

    /// Turns the mode on, drops any pending key and recomputes the regions.
    pub fn activate(&mut self)
        requires
            old(self).wf(),
        ensures
            final(self).wf(),
            final(self).active_spec(),
            final(self).areas_ready(),
            final(self).first_key_spec() is None,
            final(self).width_spec() == old(self).width_spec(),
            final(self).height_spec() == old(self).height_spec(),
    {
        self.is_active = true;
        self.reset_combination_state();
        self.calculate_areas();
    }

    /// Turns the mode off and drops any pending key.
    pub fn deactivate(&mut self)
        requires
            old(self).wf(),
        ensures
            final(self).wf(),
            !final(self).active_spec(),
            final(self).first_key_spec() is None,
            final(self).areas_spec() == old(self).areas_spec(),
            final(self).width_spec() == old(self).width_spec(),
            final(self).height_spec() == old(self).height_spec(),
    {
        self.is_active = false;
        self.reset_combination_state();
    }

    pub fn is_active(&self) -> (r: bool)
        ensures
            r == self.active_spec(),
    {
        self.is_active
    }

    /// The computed regions, in board order (none before the first computation).
    pub fn get_areas(&self) -> (r: Vec<Area>)
        requires
            self.wf(),
        ensures
            r@.len() == self.areas_spec().len(),
            forall|i: int|
                0 <= i < r@.len() ==> is_area_of(#[trigger] r@[i], area_key_at(i), self.width_spec(), self.height_spec()),
    {
        let mut out: Vec<Area> = Vec::new();
        let mut i: usize = 0;
        while i < self.areas.len()
            invariant
                self.wf(),
                i <= self.areas@.len(),
                out@.len() == i,
                forall|j: int|
                    0 <= j < i ==> is_area_of(#[trigger] out@[j], area_key_at(j), self.width_spec(), self.height_spec()),
            decreases self.areas@.len() - i,
        {
            out.push(copy_area(&self.areas[i]));
            i = i + 1;
        }
        out
    }

    /// The region of `key`, if it is an area key and the regions are computed.
    pub fn get_area(&self, key: char) -> (r: Option<Area>)
        requires
            self.wf(),
        ensures
            match r {
                Some(a) => is_area_key(key) && self.areas_ready() && is_area_of(a, key, self.width_spec(), self.height_spec()),
                None => !is_area_key(key) || !self.areas_ready(),
            },
    {
        match self.get_area_grid_position(key) {
            Some((col, row)) => {
                if self.areas.len() == 9 {
                    let i = 3 * row + col;
                    proof {
                        assert(is_area_of(self.areas@[i as int], area_key_at(i as int), self.width_spec(), self.height_spec()));
                    }
                    Some(copy_area(&self.areas[i]))
                } else {
                    None
                }
            },
            None => None,
        }
    }

    /// The pending first key, if any.
    pub fn pending_key(&self) -> (r: Option<char>)
        ensures
            r == self.first_key_spec(),
    {
        self.first_key
    }

    /// When the pending first key was pressed, in milliseconds since the Unix epoch.
    pub fn pending_key_time(&self) -> (r: Option<u64>)
        ensures
            r == self.first_key_time_spec(),
    {
        self.first_key_time
    }

    fn reset_combination_state(&mut self)
        ensures
            final(self).first_key_spec() is None,
            final(self).first_key_time_spec() is None,
            final(self).active_spec() == old(self).active_spec(),
            final(self).areas_spec() == old(self).areas_spec(),
            final(self).width_spec() == old(self).width_spec(),
            final(self).height_spec() == old(self).height_spec(),
    {
        self.first_key = None;
        self.first_key_time = None;
    }

    /// Cuts the screen into the nine regions.
    pub fn calculate_areas(&mut self)
        requires
            old(self).wf(),
        ensures
            final(self).wf(),
            final(self).areas_ready(),
            final(self).active_spec() == old(self).active_spec(),
            final(self).width_spec() == old(self).width_spec(),
            final(self).height_spec() == old(self).height_spec(),
            final(self).first_key_spec() == old(self).first_key_spec(),
            final(self).first_key_time_spec() == old(self).first_key_time_spec(),
    {
        self.areas = compute_areas(self.screen_width, self.screen_height);
    }

    /// Handles one key; the key's timestamp is the clock against which a
    /// pending first key expires.
    pub fn process_input(&mut self, input: KeyInput, _key_bindings: &KeyBindings) -> (r: Result<Action>)
        requires
            old(self).wf(),
        ensures
            final(self).wf(),
            final(self).active_spec() == old(self).active_spec(),
            final(self).areas_spec() == old(self).areas_spec(),
            final(self).width_spec() == old(self).width_spec(),
            final(self).height_spec() == old(self).height_spec(),
            r matches Ok(action) && area_step(*old(self), *final(self), input, action),
    {
        if !self.is_active {
            return Ok(Action::NoAction);
        }
        let key_char = fold_key(input.key);
        let now = input.timestamp;
        if key_char == ' ' || input.key == '\x1b' {
            return Ok(Action::DeactivateMode);
        }
        if self.get_area_grid_position(key_char).is_none() {
            return Ok(Action::NoAction);
        }
        if let Some(first_time) = self.first_key_time {
            if now >= first_time && now - first_time > COMBINATION_EXPIRY_MS {
                self.reset_combination_state();
            }
        }
        match self.first_key {
            None => {
                self.first_key = Some(key_char);
                self.first_key_time = Some(now);
                Ok(Action::HighlightArea(key_char))
            },
            Some(first_key) => {
                let combination_position = self.calculate_combination_position(first_key, key_char);
                self.reset_combination_state();
                match combination_position {
                    Some(position) => Ok(Action::MoveCursor(position, AnimationType::Smooth)),
                    None => match self.get_area(key_char) {
                        Some(area) => Ok(Action::MoveCursor(area.center, AnimationType::Smooth)),
                        None => Ok(Action::NoAction),
                    },
                }
            },
        }
    }

    /// Resolves a lone first key by the wall clock.
    pub fn handle_timeout(&mut self) -> (r: Result<Action>)
        requires
            old(self).wf(),
        ensures
            final(self).wf(),
            final(self).active_spec() == old(self).active_spec(),
            final(self).areas_spec() == old(self).areas_spec(),
            r matches Ok(action) && (action is NoAction || action is MoveCursor),
    {
        let now = now_ms();
        self.handle_timeout_at(now)
    }

    /// Resolves a lone first key at `now`: once it is older than the single
    /// key timeout, the pointer goes to its region's center and the key is
    /// dropped.
    pub fn handle_timeout_at(&mut self, now: u64) -> (r: Result<Action>)
        requires
            old(self).wf(),
        ensures
            final(self).wf(),
            final(self).active_spec() == old(self).active_spec(),
            final(self).areas_spec() == old(self).areas_spec(),
            final(self).width_spec() == old(self).width_spec(),
            final(self).height_spec() == old(self).height_spec(),
            r matches Ok(action) && if old(self).first_key_time_spec() matches Some(t) && now >= t && now - t
                > SINGLE_KEY_TIMEOUT_MS && old(self).areas_ready() {
                &&& action == Action::MoveCursor(
                    old(self).area_of(old(self).first_key_spec().unwrap()).center,
                    AnimationType::Smooth,
                )
                &&& final(self).first_key_spec() is None
            } else {
                action == Action::NoAction && *final(self) == *old(self)
            },
    {
        if let Some(first_key) = self.first_key {
            if let Some(first_time) = self.first_key_time {
                if now >= first_time && now - first_time > SINGLE_KEY_TIMEOUT_MS {
                    if let Some(area) = self.get_area(first_key) {
                        proof {
                            let i = 3 * area_row(first_key) + area_column(first_key);
                            assert(is_area_of(self.areas@[i], area_key_at(i), self.width_spec(), self.height_spec()));
                        }
                        self.reset_combination_state();
                        return Ok(Action::MoveCursor(area.center, AnimationType::Smooth));
                    }
                }
            }
        }
        Ok(Action::NoAction)
    }

    /// Where the regions of two area keys meet (see `combination_x` and
    /// `combination_y`); `None` if either key is no area key or the regions
    /// are not computed.
    pub fn calculate_combination_position(&self, first_key: char, second_key: char) -> (r: Option<Position>)
        requires
            self.wf(),
        ensures
            r == if is_area_key(first_key) && is_area_key(second_key) && self.areas_ready() {
                Some(
                    Position {
                        x: combination_x(first_key, second_key, self.width_spec()) as i32,
                        y: combination_y(first_key, second_key, self.height_spec()) as i32,
                        screen_id: None,
                    },
                )
            } else {
                None
            },
    {
        if self.areas.len() != 9 {
            return None;
        }
        let (col1, row1) = match self.get_area_grid_position(first_key) {
            Some(p) => p,
            None => return None,
        };
        let (col2, row2) = match self.get_area_grid_position(second_key) {
            Some(p) => p,
            None => return None,
        };
        let i1 = 3 * row1 + col1;
        let i2 = 3 * row2 + col2;
        let area1 = &self.areas[i1];
        let area2 = &self.areas[i2];
        proof {
            assert(is_area_of(self.areas@[i1 as int], area_key_at(i1 as int), self.width_spec(), self.height_spec()));
            assert(is_area_of(self.areas@[i2 as int], area_key_at(i2 as int), self.width_spec(), self.height_spec()));
            lemma_thirds(col1 as int, self.width_spec());
            lemma_thirds(col2 as int, self.width_spec());
            lemma_thirds(row1 as int, self.height_spec());
            lemma_thirds(row2 as int, self.height_spec());
        }
        let position = if col1 == col2 {
            let y = if row1 < row2 {
                area1.bounds.y + area1.bounds.height as i32
            } else {
                area2.bounds.y + area2.bounds.height as i32
            };
            Position { x: area1.center.x, y, screen_id: None }
        } else if row1 == row2 {
            let x = if col1 < col2 {
                area1.bounds.x + area1.bounds.width as i32
            } else {
                area2.bounds.x + area2.bounds.width as i32
            };
            Position { x, y: area1.center.y, screen_id: None }
        } else {
            let x = if col1 < col2 {
                area1.bounds.x + area1.bounds.width as i32
            } else {
                area1.bounds.x
            };
            let y = if row1 < row2 {
                area1.bounds.y + area1.bounds.height as i32
            } else {
                area1.bounds.y
            };
            Position { x, y, screen_id: None }
        };
        Some(position)
    }

    /// The `(column, row)` of an area key on the board.
    pub fn get_area_grid_position(&self, key: char) -> (r: Option<(usize, usize)>)
        ensures
            match r {
                Some((col, row)) => is_area_key(key) && col == area_column(key) && row == area_row(key),
                None => !is_area_key(key),
            },
    {
        match key {
            'q' => Some((0, 0)),
            'w' => Some((1, 0)),
            'e' => Some((2, 0)),
            'a' => Some((0, 1)),
            's' => Some((1, 1)),
            'd' => Some((2, 1)),
            'z' => Some((0, 2)),
            'x' => Some((1, 2)),
            'c' => Some((2, 2)),
            _ => None,
        }
    }
}

impl Default for AreaMode {
    fn default() -> (r: Self)
        ensures
            r.wf(),
            !r.active_spec(),
    {
        Self::new()
    }
}


/// Combination law, on any screen: Q with E (same row) meets on the row's
/// vertical center at Q's right edge; Q with A (same column) meets on the
/// column's horizontal center at Q's bottom edge; Q with D (diagonal) meets
/// at Q's bottom-right corner.
pub proof fn lemma_area_combination_laws(width: int, height: int)
    requires
        0 <= width,
        0 <= height,
    ensures
        combination_x('q', 'e', width) == third_edge(area_column('q'), width) + width / 3,
        combination_y('q', 'e', height) == third_center(area_row('q'), height),
        combination_x('q', 'a', width) == third_center(area_column('q'), width),
        combination_y('q', 'a', height) == third_edge(area_row('q'), height) + height / 3,
        combination_x('q', 'd', width) == third_edge(area_column('q'), width) + width / 3,
        combination_y('q', 'd', height) == third_edge(area_row('q'), height) + height / 3,
{
}

} // verus!
