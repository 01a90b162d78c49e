//! The mode manager: owns the session (which mode, if any, is active), the
//! bounded mode history and the three handlers, routes every keystroke to
//! exactly one handler, and records the events it broadcasts.
//!
//! Events are queued in order; whoever delivers them to subscribers drains
//! the queue with `take_events`.

use vstd::prelude::*;

use crate::area_mode::{area_key_at, area_step, is_area_of, AreaMode};
use crate::basic_mode::{basic_step, BasicMode};
use crate::error::Result;
use crate::grid::GridManager;
use crate::grid_mode::{grid_step, GridMode};
use crate::models::{Action, Area, InteractionMode, KeyInput, Position};
use crate::traits::KeyBindings;

verus! {

/// The most modes the history keeps.
pub const MAX_MODE_HISTORY: usize = 10;

/// What the manager tells its subscribers.
#[derive(Debug, Clone, Copy, PartialEq, Eq, Structural)]
pub enum ModeEvent {
    ModeActivated(InteractionMode),
    ModeDeactivated(InteractionMode),
    ModeChanged { from: InteractionMode, to: InteractionMode },
    InputProcessed { mode: InteractionMode, action: Action },
}

/// `h` with every occurrence of `m` taken out, order kept.
pub open spec fn without(h: Seq<InteractionMode>, m: InteractionMode) -> Seq<InteractionMode>
    decreases h.len(),
{
    if h.len() == 0 {
        Seq::empty()
    } else {
        let rest = without(h.drop_last(), m);
        if h.last() == m {
            rest
        } else {
            rest.push(h.last())
        }
    }
}

/// The history after `m` is pushed: `m` first, its older occurrence
/// removed, cut to the capacity.
pub open spec fn history_push(h: Seq<InteractionMode>, m: InteractionMode) -> Seq<InteractionMode> {
    let full = seq![m] + without(h, m);
    if full.len() > MAX_MODE_HISTORY {
        full.take(MAX_MODE_HISTORY as int)
    } else {
        full
    }
}

proof fn lemma_without(h: Seq<InteractionMode>, m: InteractionMode)
    ensures
        without(h, m).len() <= h.len(),
        !without(h, m).contains(m),
        forall|x: InteractionMode| #[trigger] without(h, m).contains(x) ==> h.contains(x),
        h.no_duplicates() ==> without(h, m).no_duplicates(),
    decreases h.len(),
{
    if h.len() > 0 {
        let init = h.drop_last();
        lemma_without(init, m);
        let rest = without(init, m);
        assert forall|x: InteractionMode| #[trigger] init.contains(x) implies h.contains(x) by {
            let i = choose|i: int| 0 <= i < init.len() && init[i] == x;
            assert(h[i] == x);
        }
        if h.last() != m {
            let r = rest.push(h.last());
            assert forall|x: InteractionMode| #[trigger] r.contains(x) implies h.contains(x) by {
                let i = choose|i: int| 0 <= i < r.len() && r[i] == x;
                if i < rest.len() {
                    assert(rest.contains(x));
                } else {
                    assert(h[h.len() - 1] == x);
                }
            }
            assert(!r.contains(m)) by {
                if r.contains(m) {
                    let i = choose|i: int| 0 <= i < r.len() && r[i] == m;
                    if i < rest.len() {
                        assert(rest.contains(m));
                    }
                }
            }
            if h.no_duplicates() {
                assert(init.no_duplicates());
                assert(!init.contains(h.last())) by {
                    if init.contains(h.last()) {
                        let i = choose|i: int| 0 <= i < init.len() && init[i] == h.last();
                        assert(h[i] == h[h.len() - 1]);
                    }
                }
                assert(!rest.contains(h.last()));
                assert forall|i: int, j: int| 0 <= i < r.len() && 0 <= j < r.len() && i != j implies r[i] != r[j] by {
                    if i < rest.len() && j < rest.len() {
                    } else if i < rest.len() {
                        assert(rest.contains(r[i]));
                    } else {
                        assert(rest.contains(r[j]));
                    }
                }
            }
        }
    }
}

/// History law: pushing a mode onto a history of at most ten distinct modes
/// gives a history of at most ten distinct modes with that mode first.
pub proof fn lemma_history_push(h: Seq<InteractionMode>, m: InteractionMode)
    requires
        h.len() <= MAX_MODE_HISTORY,
        h.no_duplicates(),
    ensures
        history_push(h, m).len() <= MAX_MODE_HISTORY,
        history_push(h, m).no_duplicates(),
        history_push(h, m)[0] == m,
{
    lemma_without(h, m);
    let w = without(h, m);
    let full = seq![m] + w;
    assert(full.no_duplicates()) by {
        assert forall|i: int, j: int| 0 <= i < full.len() && 0 <= j < full.len() && i != j implies full[i] != full[j] by {
            if i == 0 {
                assert(full[j] == w[j - 1]);
                assert(w.contains(full[j]));
            } else if j == 0 {
                assert(full[i] == w[i - 1]);
                assert(w.contains(full[i]));
            } else {
                assert(full[i] == w[i - 1]);
                assert(full[j] == w[j - 1]);
            }
        }
    }
    if full.len() > MAX_MODE_HISTORY {
        let t = full.take(MAX_MODE_HISTORY as int);
        assert forall|i: int, j: int| 0 <= i < t.len() && 0 <= j < t.len() && i != j implies t[i] != t[j] by {
            assert(t[i] == full[i]);
            assert(t[j] == full[j]);
        }
    }
}

/// The router and owner of the session state.
#[derive(Debug, Clone)]
pub struct ModeManager {
    current_mode: Option<InteractionMode>,
    mode_history: Vec<InteractionMode>,
    events: Vec<ModeEvent>,
    key_bindings: KeyBindings,
    basic_mode: BasicMode,
    grid_mode: GridMode,
    area_mode: AreaMode,
}


impl ModeManager {
    /// The active mode; `None` between sessions.
    pub closed spec fn current_spec(&self) -> Option<InteractionMode> {
        self.current_mode
    }

    /// Earlier modes, most recent first.
    pub closed spec fn history_spec(&self) -> Seq<InteractionMode> {
        self.mode_history@
    }

    /// Events recorded and not yet taken, oldest first.
    pub closed spec fn events_spec(&self) -> Seq<ModeEvent> {
        self.events@
    }

    pub closed spec fn bindings_spec(&self) -> KeyBindings {
        self.key_bindings
    }

    pub closed spec fn basic_spec(&self) -> BasicMode {
        self.basic_mode
    }

    pub closed spec fn grid_spec(&self) -> GridMode {
        self.grid_mode
    }

    pub closed spec fn area_spec(&self) -> AreaMode {
        self.area_mode
    }

    /// The history holds at most ten distinct modes; the grid and area
    /// handlers are on exactly while their mode is the active one.
    pub open spec fn wf(&self) -> bool {
        &&& self.history_spec().len() <= MAX_MODE_HISTORY
        &&& self.history_spec().no_duplicates()
        &&& self.basic_spec().wf()
        &&& self.grid_spec().wf()
        &&& self.area_spec().wf()
        &&& self.grid_spec().active_spec() == (self.current_spec() == Some(InteractionMode::Grid))
        &&& self.area_spec().active_spec() == (self.current_spec() == Some(InteractionMode::Area))
    }

    /// No session, empty history, fresh handlers.
    pub fn new(key_bindings: KeyBindings) -> (r: Self)
        ensures
            r.wf(),
            r.current_spec() is None,
            r.history_spec().len() == 0,
            r.events_spec().len() == 0,
            r.bindings_spec() == key_bindings,
            r.basic_spec().speed_spec() == crate::basic_mode::DEFAULT_MOVEMENT_SPEED,
            !r.basic_spec().fast_spec(),
            !r.basic_spec().hold_spec(),
    {
        ModeManager {
            current_mode: None,
            mode_history: Vec::new(),
            events: Vec::new(),
            key_bindings,
            basic_mode: BasicMode::new(),
            grid_mode: GridMode::new(),
            area_mode: AreaMode::new(),
        }
    }

    /// Hands over the recorded events, oldest first, and forgets them.
    pub fn take_events(&mut self) -> (r: Vec<ModeEvent>)
        requires
            old(self).wf(),
        ensures
            final(self).wf(),
            r@ == old(self).events_spec(),
            final(self).events_spec().len() == 0,
            final(self).current_spec() == old(self).current_spec(),
            final(self).history_spec() == old(self).history_spec(),
            final(self).bindings_spec() == old(self).bindings_spec(),
            final(self).basic_spec() == old(self).basic_spec(),
            final(self).grid_spec() == old(self).grid_spec(),
            final(self).area_spec() == old(self).area_spec(),
    {
        let mut taken: Vec<ModeEvent> = Vec::new();
        std::mem::swap(&mut taken, &mut self.events);
        taken
    }

    pub fn update_key_bindings(&mut self, bindings: KeyBindings)
        requires
            old(self).wf(),
        ensures
            final(self).wf(),
            final(self).bindings_spec() == bindings,
            final(self).current_spec() == old(self).current_spec(),
            final(self).history_spec() == old(self).history_spec(),
            final(self).events_spec() == old(self).events_spec(),
            final(self).basic_spec() == old(self).basic_spec(),
            final(self).grid_spec() == old(self).grid_spec(),
            final(self).area_spec() == old(self).area_spec(),
    {
        self.key_bindings = bindings;
    }

    pub fn get_key_bindings(&self) -> (r: KeyBindings)
        ensures
            r == self.bindings_spec(),
    {
        self.key_bindings
    }

    /// Puts `mode` at the front of the history, dropping its older
    /// occurrence and, past ten entries, the oldest one.
    pub fn add_to_history(&mut self, mode: InteractionMode)
        requires
            old(self).wf(),
        ensures
            final(self).wf(),
            final(self).history_spec() == history_push(old(self).history_spec(), mode),
            final(self).current_spec() == old(self).current_spec(),
            final(self).events_spec() == old(self).events_spec(),
            final(self).bindings_spec() == old(self).bindings_spec(),
            final(self).basic_spec() == old(self).basic_spec(),
            final(self).grid_spec() == old(self).grid_spec(),
            final(self).area_spec() == old(self).area_spec(),
    {
        let ghost h = self.mode_history@;
        let mut updated: Vec<InteractionMode> = Vec::new();
        updated.push(mode);
        let mut i: usize = 0;
        while i < self.mode_history.len()
            invariant
                h == self.mode_history@,
                i <= h.len(),
                updated@ == seq![mode] + without(h.take(i as int), mode),
            decreases h.len() - i,
        {
            let m = self.mode_history[i];
            proof {
                assert(h.take(i + 1).drop_last() =~= h.take(i as int));
                assert(h.take(i + 1).last() == m);
            }
            if m != mode {
                updated.push(m);
                proof {
                    assert(updated@ =~= seq![mode] + without(h.take(i + 1), mode));
                }
            }
            i = i + 1;
        }
        proof {
            assert(h.take(h.len() as int) =~= h);
            lemma_without(h, mode);
            lemma_history_push(h, mode);
        }
        if updated.len() > MAX_MODE_HISTORY {
            updated.pop();
            proof {
                assert(updated@ =~= history_push(h, mode));
            }
        }
        self.mode_history = updated;
    }

    /// Whether fast mode is on.
    pub fn is_fast_mode(&self) -> (r: bool)
        ensures
            r == self.basic_spec().fast_spec(),
    {
        self.basic_mode.is_fast_mode()
    }

    /// Flips fast mode.
    pub fn toggle_speed(&mut self)
        requires
            old(self).wf(),
        ensures
            final(self).wf(),
            final(self).basic_spec().fast_spec() == !old(self).basic_spec().fast_spec(),
            final(self).basic_spec().speed_spec() == old(self).basic_spec().speed_spec(),
            final(self).basic_spec().hold_spec() == old(self).basic_spec().hold_spec(),
            final(self).current_spec() == old(self).current_spec(),
            final(self).history_spec() == old(self).history_spec(),
            final(self).events_spec() == old(self).events_spec(),
            final(self).bindings_spec() == old(self).bindings_spec(),
            final(self).grid_spec() == old(self).grid_spec(),
            final(self).area_spec() == old(self).area_spec(),
    {
        self.basic_mode.toggle_fast_mode();
    }

    pub fn is_holding(&self) -> (r: bool)
        ensures
            r == self.basic_spec().hold_spec(),
    {
        self.basic_mode.is_holding()
    }

    pub fn set_hold_state(&mut self, holding: bool)
        requires
            old(self).wf(),
        ensures
            final(self).wf(),
            final(self).basic_spec().hold_spec() == holding,
            final(self).basic_spec().fast_spec() == old(self).basic_spec().fast_spec(),
            final(self).basic_spec().speed_spec() == old(self).basic_spec().speed_spec(),
            final(self).current_spec() == old(self).current_spec(),
            final(self).history_spec() == old(self).history_spec(),
            final(self).events_spec() == old(self).events_spec(),
            final(self).grid_spec() == old(self).grid_spec(),
            final(self).area_spec() == old(self).area_spec(),
    {
        self.basic_mode.set_hold_state(holding);
    }

    /// Sets the basic-mode speed, in hundredths, held to 0.1 .. 10.0.
    pub fn set_movement_speed(&mut self, speed: u32)
        requires
            old(self).wf(),
        ensures
            final(self).wf(),
            final(self).basic_spec().speed_spec() == crate::basic_mode::clamp_speed(speed as int),
            final(self).basic_spec().fast_spec() == old(self).basic_spec().fast_spec(),
            final(self).basic_spec().hold_spec() == old(self).basic_spec().hold_spec(),
            final(self).current_spec() == old(self).current_spec(),
            final(self).history_spec() == old(self).history_spec(),
            final(self).events_spec() == old(self).events_spec(),
            final(self).grid_spec() == old(self).grid_spec(),
            final(self).area_spec() == old(self).area_spec(),
    {
        self.basic_mode.set_movement_speed(speed);
    }

    /// The basic-mode speed, in hundredths.
    pub fn get_movement_speed(&self) -> (r: u32)
        ensures
            r == self.basic_spec().speed_spec(),
    {
        self.basic_mode.get_movement_speed()
    }

    /// Gives grid mode a new grid snapshot.
    pub fn set_grid_manager(&mut self, grid_manager: Option<GridManager>)
        requires
            old(self).wf(),
            grid_manager matches Some(m) ==> m.wf(),
        ensures
            final(self).wf(),
            final(self).grid_spec().manager_spec() == grid_manager,
            final(self).current_spec() == old(self).current_spec(),
            final(self).history_spec() == old(self).history_spec(),
            final(self).events_spec() == old(self).events_spec(),
            final(self).basic_spec() == old(self).basic_spec(),
            final(self).area_spec() == old(self).area_spec(),
    {
        self.grid_mode.set_grid_manager(grid_manager);
    }

    /// Grid mode's pending sequence for display.
    pub fn get_current_key_sequence(&self) -> (r: Option<String>)
        ensures
            match self.grid_spec().first_key_spec() {
                Some(k) => r matches Some(s) && s@ == seq![k, '_'],
                None => r is None,
            },
    {
        self.grid_mode.get_current_sequence()
    }

    /// Whether grid mode holds an unexpired first key, by the wall clock.
    pub fn is_waiting_for_second_key(&self) -> (r: bool)
        ensures
            r ==> self.grid_spec().first_key_spec() is Some,
    {
        self.grid_mode.is_waiting_for_second_key()
    }

    /// Gives area mode new screen dimensions.
    pub fn set_area_screen_dimensions(&mut self, width: u32, height: u32)
        requires
            old(self).wf(),
            width <= i32::MAX,
            height <= i32::MAX,
        ensures
            final(self).wf(),
            final(self).area_spec().areas_ready(),
            final(self).area_spec().width_spec() == width,
            final(self).area_spec().height_spec() == height,
            final(self).current_spec() == old(self).current_spec(),
            final(self).history_spec() == old(self).history_spec(),
            final(self).events_spec() == old(self).events_spec(),
            final(self).basic_spec() == old(self).basic_spec(),
            final(self).grid_spec() == old(self).grid_spec(),
    {
        self.area_mode.set_screen_dimensions(width, height);
    }

    /// Area mode's regions, in board order.
    pub fn get_current_areas(&self) -> (r: Vec<Area>)
        requires
            self.wf(),
        ensures
            r@.len() == self.area_spec().areas_spec().len(),
            forall|i: int|
                0 <= i < r@.len() ==> is_area_of(
                    #[trigger] r@[i],
                    area_key_at(i),
                    self.area_spec().width_spec(),
                    self.area_spec().height_spec(),
                ),
    {
        self.area_mode.get_areas()
    }

    /// The center of the grid cell that a combination addresses, for
    /// overlay rendering; `None` without a grid or for an unknown combination.
    pub fn get_grid_cell_position(&self, key_combination: &str) -> (r: Option<Position>)
        requires
            self.wf(),
        ensures
            match self.grid_spec().manager_spec() {
                Some(m) => match r {
                    Some(p) => exists|k: int|
                        0 <= k < m.cells_spec().len() && #[trigger] m.cells_spec()[k].key_combination@ == key_combination@
                            && p == m.cells_spec()[k].center_position,
                    None => forall|k: int|
                        0 <= k < m.cells_spec().len() ==> #[trigger] m.cells_spec()[k].key_combination@ != key_combination@,
                },
                None => r is None,
            },
    {
        match self.grid_mode.get_grid_manager() {
            Some(manager) => match manager.get_cell_by_keys(key_combination) {
                Some(cell) => Some(cell.center_position),
                None => None,
            },
            None => None,
        }
    }

    fn send_event(&mut self, event: ModeEvent)
        ensures
            final(self).events_spec() == old(self).events_spec().push(event),
            final(self).current_spec() == old(self).current_spec(),
            final(self).history_spec() == old(self).history_spec(),
            final(self).bindings_spec() == old(self).bindings_spec(),
            final(self).basic_spec() == old(self).basic_spec(),
            final(self).grid_spec() == old(self).grid_spec(),
            final(self).area_spec() == old(self).area_spec(),
    {
        self.events.push(event);
    }

    /// Makes `mode` the active one. A different active mode is torn down
    /// first, goes to the history and is reported as `ModeChanged`;
    /// otherwise `ModeActivated` is reported.
    pub fn activate_mode(&mut self, mode: InteractionMode) -> (r: Result<()>)
        requires
            old(self).wf(),
        ensures
            r is Ok,
            final(self).wf(),
            final(self).current_spec() == Some(mode),
            match old(self).current_spec() {
                Some(previous) if previous != mode => {
                    &&& final(self).history_spec() == history_push(old(self).history_spec(), previous)
                    &&& final(self).events_spec() == old(self).events_spec().push(
                        ModeEvent::ModeChanged { from: previous, to: mode },
                    )
                },
                _ => {
                    &&& final(self).history_spec() == old(self).history_spec()
                    &&& final(self).events_spec() == old(self).events_spec().push(ModeEvent::ModeActivated(mode))
                },
            },
            mode == InteractionMode::Grid ==> final(self).grid_spec().first_key_spec() is None,
            mode == InteractionMode::Area ==> final(self).area_spec().first_key_spec() is None,
            final(self).bindings_spec() == old(self).bindings_spec(),
            final(self).basic_spec() == old(self).basic_spec(),
            final(self).grid_spec().manager_spec() == old(self).grid_spec().manager_spec(),
    {
        let previous = self.current_mode;
        self.current_mode = Some(mode);
        if let Some(prev) = previous {
            if prev != mode {
                match prev {
                    InteractionMode::Grid => self.grid_mode.deactivate(),
                    InteractionMode::Area => self.area_mode.deactivate(),
                    _ => {},
                }
            }
        }
        match mode {
            InteractionMode::Grid => self.grid_mode.activate(),
            InteractionMode::Area => self.area_mode.activate(),
            _ => {},
        }
        match previous {
            Some(prev) => {
                if prev != mode {
                    self.add_to_history(prev);
                    self.send_event(ModeEvent::ModeChanged { from: prev, to: mode });
                } else {
                    self.send_event(ModeEvent::ModeActivated(mode));
                }
            },
            None => self.send_event(ModeEvent::ModeActivated(mode)),
        }
        Ok(())
    }

    /// Ends the session: tears the active mode down and reports
    /// `ModeDeactivated`; with no active mode, nothing happens.
    pub fn deactivate_current_mode(&mut self) -> (r: Result<()>)
        requires
            old(self).wf(),
        ensures
            r is Ok,
            final(self).wf(),
            final(self).current_spec() is None,
            final(self).history_spec() == old(self).history_spec(),
            final(self).events_spec() == match old(self).current_spec() {
                Some(m) => old(self).events_spec().push(ModeEvent::ModeDeactivated(m)),
                None => old(self).events_spec(),
            },
            final(self).bindings_spec() == old(self).bindings_spec(),
            final(self).basic_spec() == old(self).basic_spec(),
            final(self).grid_spec().manager_spec() == old(self).grid_spec().manager_spec(),
    {
        let current = self.current_mode;
        self.current_mode = None;
        if let Some(mode) = current {
            match mode {
                InteractionMode::Grid => self.grid_mode.deactivate(),
                InteractionMode::Area => self.area_mode.deactivate(),
                _ => {},
            }
            self.send_event(ModeEvent::ModeDeactivated(mode));
        }
        Ok(())
    }

    pub fn get_current_mode(&self) -> (r: Option<InteractionMode>)
        ensures
            r == self.current_spec(),
    {
        self.current_mode
    }

    /// Hands a key to basic mode, with the current bindings.
    fn process_basic_input(&mut self, input: KeyInput) -> (r: Result<Action>)
        requires
            old(self).wf(),
        ensures
            final(self).wf(),
            r matches Ok(action) && basic_step(
                old(self).basic_spec(),
                final(self).basic_spec(),
                old(self).bindings_spec(),
                input.key,
                action,
            ),
            final(self).current_spec() == old(self).current_spec(),
            final(self).history_spec() == old(self).history_spec(),
            final(self).events_spec() == old(self).events_spec(),
            final(self).bindings_spec() == old(self).bindings_spec(),
            final(self).grid_spec() == old(self).grid_spec(),
            final(self).area_spec() == old(self).area_spec(),
    {
        let bindings = self.key_bindings;
        self.basic_mode.process_input(input, &bindings)
    }

    /// Routes one key to the handler of the active mode (basic mode when no
    /// mode, basic or prediction is active) and reports `InputProcessed`
    /// under the mode that was active. Actions that switch modes are for
    /// the caller to carry out.
    pub fn handle_input(&mut self, input: KeyInput) -> (r: Result<Action>)
        requires
            old(self).wf(),
        ensures
            final(self).wf(),
            final(self).current_spec() == old(self).current_spec(),
            final(self).history_spec() == old(self).history_spec(),
            final(self).bindings_spec() == old(self).bindings_spec(),
            r matches Ok(action) && ({
                &&& match old(self).current_spec() {
                    Some(InteractionMode::Grid) => {
                        &&& grid_step(old(self).grid_spec(), final(self).grid_spec(), input, action)
                        &&& final(self).basic_spec() == old(self).basic_spec()
                        &&& final(self).area_spec() == old(self).area_spec()
                    },
                    Some(InteractionMode::Area) => {
                        &&& area_step(old(self).area_spec(), final(self).area_spec(), input, action)
                        &&& final(self).basic_spec() == old(self).basic_spec()
                        &&& final(self).grid_spec() == old(self).grid_spec()
                    },
                    _ => {
                        &&& basic_step(
                            old(self).basic_spec(),
                            final(self).basic_spec(),
                            old(self).bindings_spec(),
                            input.key,
                            action,
                        )
                        &&& final(self).grid_spec() == old(self).grid_spec()
                        &&& final(self).area_spec() == old(self).area_spec()
                    },
                }
                &&& final(self).events_spec() == match old(self).current_spec() {
                    Some(m) => old(self).events_spec().push(ModeEvent::InputProcessed { mode: m, action }),
                    None => old(self).events_spec(),
                }
            }),
    {
        let current = self.current_mode;
        let bindings = self.key_bindings;
        let action = match current {
            Some(InteractionMode::Grid) => self.grid_mode.process_input(input, &bindings)?,
            Some(InteractionMode::Area) => self.area_mode.process_input(input, &bindings)?,
            _ => self.process_basic_input(input)?,
        };
        if let Some(mode) = current {
            self.send_event(ModeEvent::InputProcessed { mode, action });
        }
        Ok(action)
    }

    pub fn is_active(&self) -> (r: bool)
        ensures
            r == self.current_spec() is Some,
    {
        self.current_mode.is_some()
    }

    /// Earlier modes, most recent first.
    pub fn get_mode_history(&self) -> (r: Vec<InteractionMode>)
        ensures
            r@ == self.history_spec(),
    {
        let mut out: Vec<InteractionMode> = Vec::new();
        let mut i: usize = 0;
        while i < self.mode_history.len()
            invariant
                i <= self.mode_history@.len(),
                out@ == self.mode_history@.take(i as int),
            decreases self.mode_history@.len() - i,
        {
            out.push(self.mode_history[i]);
            i = i + 1;
            proof {
                assert(out@ =~= self.mode_history@.take(i as int));
            }
        }
        proof {
            assert(self.mode_history@.take(self.mode_history@.len() as int) =~= self.mode_history@);
        }
        out
    }
}


impl crate::traits::ModeController for ModeManager {
    open spec fn controller_wf(&self) -> bool {
        self.wf()
    }

    fn activate_mode(&mut self, mode: InteractionMode) -> Result<()> {
        ModeManager::activate_mode(self, mode)
    }

    fn deactivate_current_mode(&mut self) -> Result<()> {
        ModeManager::deactivate_current_mode(self)
    }

    fn get_current_mode(&self) -> Option<InteractionMode> {
        ModeManager::get_current_mode(self)
    }

    fn handle_input(&mut self, input: KeyInput) -> Result<Action> {
        ModeManager::handle_input(self, input)
    }

    fn is_active(&self) -> bool {
        ModeManager::is_active(self)
    }

    fn get_mode_history(&self) -> Vec<InteractionMode> {
        ModeManager::get_mode_history(self)
    }
}

} // verus!
