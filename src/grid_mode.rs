//! Grid mode: a strict two-key grammar over the grid allocator. A home-row
//! key arms the sequence, a top-row key completes it and moves the pointer
//! to the addressed cell's center.

use vstd::prelude::*;

use crate::clock::now_ms;
use crate::error::Result;
use crate::grid::{combo_index, is_grid_cell, lemma_combo_at_index, GridManager};
use crate::models::{Action, AnimationType, InteractionMode, KeyInput};
use crate::text::{copy_string, push_char};
use crate::traits::KeyBindings;

verus! {

/// A sequence whose first key is older than this, in milliseconds, is
/// dropped at the next keystroke.
pub const KEY_COMBINATION_TIMEOUT_MS: u64 = 1000;

/// Space or escape: leave the mode whatever the sequence state.
pub open spec fn is_exit_key(c: char) -> bool {
    c == ' ' || c == '\x1b'
}

/// The nine keys that may start a sequence.
pub open spec fn is_home_row_key(c: char) -> bool {
    c == 'a' || c == 's' || c == 'd' || c == 'f' || c == 'g' || c == 'h' || c == 'j' || c == 'k' || c == 'l'
}

/// The ten keys that may complete a sequence.
pub open spec fn is_top_row_key(c: char) -> bool {
    c == 'q' || c == 'w' || c == 'e' || c == 'r' || c == 't' || c == 'y' || c == 'u' || c == 'i' || c == 'o'
        || c == 'p'
}

/// Whether a first key pressed at `started` has expired at `now`.
pub open spec fn sequence_expired(started: u64, now: u64) -> bool {
    now >= started && now - started > KEY_COMBINATION_TIMEOUT_MS
}

/// Where a completed sequence leads: the center of the cell that the
/// combination addresses, or nowhere if the grid has no such cell.
pub open spec fn grid_target(m: GridManager, first: char, second: char) -> Action {
    let k = combo_index(seq![first, second]);
    if 0 <= k < m.cells_spec().len() {
        Action::MoveCursor(m.cells_spec()[k].center_position, AnimationType::Smooth)
    } else {
        Action::NoAction
    }
}

/// One key handled by grid mode: `old` and `new` are the handler before
/// and after, `action` the result.
pub open spec fn grid_step(old: GridMode, new: GridMode, input: KeyInput, action: Action) -> bool {
    let key = input.key;
    let now = input.timestamp;
    let pending = if old.first_key_time_spec() matches Some(t) && sequence_expired(t, now) {
        None
    } else {
        old.first_key_spec()
    };
    if !old.active_spec() {
        action == Action::NoAction && new == old
    } else if is_exit_key(key) {
        action == Action::Exit && new == old
    } else if old.first_key_spec() is None && key == 'g' {
        action == Action::ActivateMode(InteractionMode::Grid) && new == old
    } else if old.first_key_spec() is None && key == 'p' {
        action == Action::ActivateMode(InteractionMode::Prediction) && new == old
    } else if old.first_key_spec() is None && key == 'b' {
        action == Action::ActivateMode(InteractionMode::Basic) && new == old
    } else if old.manager_spec() is None {
        action == Action::NoAction && new == old
    } else {
        match pending {
            None => {
                &&& action == Action::NoAction
                &&& if is_home_row_key(key) {
                    new.first_key_spec() == Some(key) && new.first_key_time_spec()
                        == Some(now)
                } else {
                    new.first_key_spec() == pending
                }
            },
            Some(first) => {
                &&& new.first_key_spec() is None
                &&& action == if is_top_row_key(key) {
                    grid_target(old.manager_spec().unwrap(), first, key)
                } else {
                    Action::NoAction
                }
            },
        }
    }
}

/// The pending first key of a two-key sequence and when it was pressed.
#[derive(Debug, Clone, Copy)]
struct KeySequenceState {
    first_key: Option<char>,
    first_key_time: Option<u64>,
}

/// Grid mode handler.
#[derive(Debug, Clone)]
pub struct GridMode {
    key_sequence: KeySequenceState,
    grid_manager: Option<GridManager>,
    is_active: bool,
}

impl GridMode {
    pub closed spec fn active_spec(&self) -> bool {
        self.is_active
    }

    /// The pending first key, if a sequence is armed.
    pub closed spec fn first_key_spec(&self) -> Option<char> {
        self.key_sequence.first_key
    }

    /// When the pending first key was pressed.
    pub closed spec fn first_key_time_spec(&self) -> Option<u64> {
        self.key_sequence.first_key_time
    }

    pub closed spec fn manager_spec(&self) -> Option<GridManager> {
        self.grid_manager
    }

    /// The grid, if any, is well formed, and a pending first key always
    /// carries its time.
    pub open spec fn wf(&self) -> bool {
        &&& (self.manager_spec() matches Some(m) ==> m.wf())
        &&& (self.first_key_spec() is Some <==> self.first_key_time_spec() is Some)
    }

    pub fn new() -> (r: Self)
        ensures
            r.wf(),
            !r.active_spec(),
            r.first_key_spec() is None,
            r.manager_spec() is None,
    {
        GridMode {
            key_sequence: KeySequenceState { first_key: None, first_key_time: None },
            grid_manager: None,
            is_active: false,
        }
    }

    /// Replaces the grid snapshot that sequences resolve against.
    pub fn set_grid_manager(&mut self, grid_manager: Option<GridManager>)
        requires
            old(self).wf(),
            grid_manager matches Some(m) ==> m.wf(),
        ensures
            final(self).wf(),
            final(self).manager_spec() == grid_manager,
            final(self).active_spec() == old(self).active_spec(),
            final(self).first_key_spec() == old(self).first_key_spec(),
            final(self).first_key_time_spec() == old(self).first_key_time_spec(),
    {
        self.grid_manager = grid_manager;
    }

    pub fn get_grid_manager(&self) -> (r: Option<&GridManager>)
        ensures
            match r {
                Some(m) => self.manager_spec() == Some(*m),
                None => self.manager_spec() is None,
            },
    {
        match &self.grid_manager {
            Some(m) => Some(m),
            None => None,
        }
    }

    /// Turns the mode on with an empty sequence.
    pub fn activate(&mut self)
        requires
            old(self).wf(),
        ensures
            final(self).wf(),
            final(self).active_spec(),
            final(self).first_key_spec() is None,
            final(self).manager_spec() == old(self).manager_spec(),
    {
        self.is_active = true;
        self.reset_key_sequence();
    }

    /// Turns the mode off and drops any pending sequence.
    pub fn deactivate(&mut self)
        requires
            old(self).wf(),
        ensures
            final(self).wf(),
            !final(self).active_spec(),
            final(self).first_key_spec() is None,
            final(self).manager_spec() == old(self).manager_spec(),
    {
        self.is_active = false;
        self.reset_key_sequence();
    }

    pub fn is_active(&self) -> (r: bool)
        ensures
            r == self.active_spec(),
    {
        self.is_active
    }

    fn reset_key_sequence(&mut self)
        ensures
            final(self).first_key_spec() is None,
            final(self).first_key_time_spec() is None,
            final(self).active_spec() == old(self).active_spec(),
            final(self).manager_spec() == old(self).manager_spec(),
    {
        self.key_sequence = KeySequenceState { first_key: None, first_key_time: None };
    }

    /// Whether the pending sequence, if any, has expired at `now`.
    fn is_sequence_timed_out(&self, now: u64) -> (r: bool)
        ensures
            r == (self.first_key_time_spec() matches Some(t) && sequence_expired(t, now)),
    {
        match self.key_sequence.first_key_time {
            Some(t) => now >= t && now - t > KEY_COMBINATION_TIMEOUT_MS,
            None => false,
        }
    }

    /// Handles one key; the key's timestamp is the clock against which a
    /// pending sequence expires.
    pub fn process_input(&mut self, input: KeyInput, _key_bindings: &KeyBindings) -> (r: Result<Action>)
        requires
            old(self).wf(),
        ensures
            final(self).wf(),
            final(self).active_spec() == old(self).active_spec(),
            final(self).manager_spec() == old(self).manager_spec(),
            r matches Ok(action) && grid_step(*old(self), *final(self), input, action),
    {
        if !self.is_active {
            return Ok(Action::NoAction);
        }
        if input.key == ' ' || input.key == '\x1b' {
            return Ok(Action::Exit);
        }
        if self.key_sequence.first_key.is_none() {
            match input.key {
                'g' => return Ok(Action::ActivateMode(InteractionMode::Grid)),
                'p' => return Ok(Action::ActivateMode(InteractionMode::Prediction)),
                'b' => return Ok(Action::ActivateMode(InteractionMode::Basic)),
                _ => {},
            }
        }
        if self.grid_manager.is_none() {
            return Ok(Action::NoAction);
        }
        if self.is_sequence_timed_out(input.timestamp) {
            self.reset_key_sequence();
        }
        match self.key_sequence.first_key {
            None => {
                if self.is_valid_first_key(input.key) {
                    self.key_sequence = KeySequenceState {
                        first_key: Some(input.key),
                        first_key_time: Some(input.timestamp),
                    };
                }
                Ok(Action::NoAction)
            },
            Some(first_key) => {
                let action = if self.is_valid_second_key(input.key) {
                    let mut combination = String::new();
                    push_char(&mut combination, first_key);
                    push_char(&mut combination, input.key);
                    match &self.grid_manager {
                        Some(manager) => {
                            let found = manager.get_cell_by_keys(combination.as_str());
                            proof {
                                assert(combination@ =~= seq![first_key, input.key]);
                                let k = combo_index(combination@);
                                if k >= 0 {
                                    lemma_combo_at_index(combination@);
                                    if k < manager.cells_spec().len() {
                                        assert(is_grid_cell(
                                            manager.cells_spec()[k],
                                            manager.config_spec(),
                                            manager.screen_spec(),
                                            k,
                                        ));
                                    }
                                }
                            }
                            match found {
                                Some(cell) => Action::MoveCursor(cell.center_position, AnimationType::Smooth),
                                None => Action::NoAction,
                            }
                        },
                        None => Action::NoAction,
                    }
                } else {
                    Action::NoAction
                };
                self.reset_key_sequence();
                Ok(action)
            },
        }
    }

    /// Whether `key` may start a sequence: one of the home-row keys.
    pub fn is_valid_first_key(&self, key: char) -> (r: bool)
        ensures
            r == is_home_row_key(key),
    {
        key == 'a' || key == 's' || key == 'd' || key == 'f' || key == 'g' || key == 'h' || key == 'j' || key
            == 'k' || key == 'l'
    }

    /// Whether `key` may complete a sequence: one of the top-row keys.
    pub fn is_valid_second_key(&self, key: char) -> (r: bool)
        ensures
            r == is_top_row_key(key),
    {
        key == 'q' || key == 'w' || key == 'e' || key == 'r' || key == 't' || key == 'y' || key == 'u' || key
            == 'i' || key == 'o' || key == 'p'
    }

    /// The pending sequence for display: the first key followed by `_`.
    pub fn get_current_sequence(&self) -> (r: Option<String>)
        ensures
            match self.first_key_spec() {
                Some(k) => r matches Some(s) && s@ == seq![k, '_'],
                None => r is None,
            },
    {
        match self.key_sequence.first_key {
            Some(first_key) => {
                let mut s = String::new();
                push_char(&mut s, first_key);
                push_char(&mut s, '_');
                proof {
                    assert(s@ =~= seq![first_key, '_']);
                }
                Some(s)
            },
            None => None,
        }
    }

    /// Whether a first key is pending and has not expired by the wall clock.
    pub fn is_waiting_for_second_key(&self) -> (r: bool)
        ensures
            r ==> self.first_key_spec() is Some,
    {
        let now = now_ms();
        self.is_waiting_for_second_key_at(now)
    }

    /// Whether a first key is pending and has not expired at `now`.
    pub fn is_waiting_for_second_key_at(&self, now: u64) -> (r: bool)
        ensures
            r == (self.first_key_spec() is Some && !(self.first_key_time_spec() matches Some(t) && sequence_expired(t, now))),
    {
        self.key_sequence.first_key.is_some() && !self.is_sequence_timed_out(now)
    }

    /// The combinations of every cell of the current grid, in cell order.
    pub fn get_valid_combinations(&self) -> (r: Vec<String>)
        requires
            self.wf(),
        ensures
            match self.manager_spec() {
                Some(m) => r@.len() == m.cells_spec().len() && forall|k: int|
                    0 <= k < r@.len() ==> #[trigger] r@[k]@ == m.cells_spec()[k].key_combination@,
                None => r@.len() == 0,
            },
    {
        let mut combinations: Vec<String> = Vec::new();
        match &self.grid_manager {
            Some(manager) => {
                let cells = manager.get_cells();
                let mut i: usize = 0;
                while i < cells.len()
                    invariant
                        cells@ == manager.cells_spec(),
                        i <= cells@.len(),
                        combinations@.len() == i,
                        forall|k: int| 0 <= k < i ==> #[trigger] combinations@[k]@ == cells@[k].key_combination@,
                    decreases cells@.len() - i,
                {
                    combinations.push(copy_string(&cells[i].key_combination));
                    i = i + 1;
                }
            },
            None => {},
        }
        combinations
    }
}

impl Default for GridMode {
    fn default() -> (r: Self)
        ensures
            r.wf(),
            !r.active_spec(),
            r.first_key_spec() is None,
            r.manager_spec() is None,
    {
        Self::new()
    }
}

} // verus!
