//! The mode state machine and the per-tick controller logic: key handling,
//! debounced resizing, pointer-driven editing, and cadenced generation
//! advance.

use vstd::prelude::*;

verus! {

use crate::cell::Cell;
use crate::theme::{Theme, cycled, bolus_toggled};
use crate::universe::{Universe, GridView, lemma_no_spontaneous_life};

/// Width, in cells, of the grid a fresh game starts with.
pub const GRID_W: usize = 64;

/// Height, in cells, of the grid a fresh game starts with.
pub const GRID_H: usize = 48;

/// Side length, in pixels, of one cell on screen.
pub const SCALE: u32 = 10;

/// The advance interval a fresh game starts with, in milliseconds.
pub const DEFAULT_UPDATE_CAP_MS: u64 = 500;

/// How much one speed-control press changes the advance interval, in
/// milliseconds.
pub const UPDATE_TIME_STEP_MS: u64 = 50;

/// The debounce window for viewport-size changes, in milliseconds: a resize
/// is committed only once this much time has accumulated.
pub const RESIZE_TIME_LIMIT_MS: u64 = 200;

/// The controller's mode: editing the grid, running the simulation, or
/// showing the help overlay.
#[derive(Clone, Copy, Debug, PartialEq, Eq, Structural)]
pub enum State {
    DesignMode,
    SimulationMode,
    HelpMode,
}

/// The pause toggle: design and simulation swap; help is left untouched.
pub open spec fn toggled(s: State) -> State {
    match s {
        State::DesignMode => State::SimulationMode,
        State::SimulationMode => State::DesignMode,
        State::HelpMode => State::HelpMode,
    }
}

impl State {
    /// Swaps design and simulation mode; a no-op in help mode.
    pub fn toggle(&mut self)
        ensures
            *final(self) == toggled(*old(self)),
    {
        *self = match *self {
            State::DesignMode => State::SimulationMode,
            State::SimulationMode => State::DesignMode,
            State::HelpMode => State::HelpMode,
        };
    }
}

/// The key presses the controller reacts to. Any other key is a no-op, so a
/// caller maps it to no event at all.
#[derive(Clone, Copy, Debug, PartialEq, Eq, Structural)]
pub enum Key {
    /// Toggle the help overlay.
    H,
    /// Clear the board.
    C,
    /// Fill the board with live cells.
    A,
    /// Cycle the theme.
    T,
    /// Invert every cell.
    I,
    /// Fill the board with a random pattern.
    R,
    /// The dedicated toggle for the special theme.
    B,
    /// Lengthen the advance interval.
    Plus,
    /// Shorten the advance interval.
    Minus,
    /// Toggle pause: swap design and simulation mode.
    Space,
    /// Confirm: leave the help overlay.
    Enter,
    /// Quit.
    Escape,
    /// Toggle fullscreen.
    F11,
}

/// Saturating addition on 64-bit counters.
pub open spec fn sat_add64(a: u64, b: u64) -> u64 {
    if a + b > u64::MAX {
        u64::MAX
    } else {
        (a + b) as u64
    }
}

/// Subtraction on 64-bit counters, clamped at zero.
pub open spec fn sat_sub64(a: u64, b: u64) -> u64 {
    if a - b < 0 {
        0
    } else {
        (a - b) as u64
    }
}

/// The mode after one key event: toggle-help leaves help for design and
/// enters help from anywhere else, toggle-pause swaps design and simulation,
/// confirm leaves help for design, and every other key keeps the mode.
pub open spec fn state_after_key(s: State, k: Option<Key>) -> State {
    match k {
        Some(Key::H) => if s is HelpMode {
            State::DesignMode
        } else {
            State::HelpMode
        },
        Some(Key::Space) => toggled(s),
        Some(Key::Enter) => if s is HelpMode {
            State::DesignMode
        } else {
            s
        },
        _ => s,
    }
}

/// The theme after one key event.
pub open spec fn theme_after_key(t: Theme, k: Option<Key>) -> Theme {
    match k {
        Some(Key::T) => cycled(t),
        Some(Key::B) => bolus_toggled(t),
        _ => t,
    }
}

/// The advance interval after one key event: the speed controls move it by a
/// fixed step and it never goes below zero.
pub open spec fn cap_after_key(cap: u64, k: Option<Key>) -> u64 {
    match k {
        Some(Key::Plus) => sat_add64(cap, UPDATE_TIME_STEP_MS),
        Some(Key::Minus) => sat_sub64(cap, UPDATE_TIME_STEP_MS),
        _ => cap,
    }
}

/// The fullscreen flag after one key event.
pub open spec fn fullscreen_after_key(f: bool, k: Option<Key>) -> bool {
    if k == Some(Key::F11) {
        !f
    } else {
        f
    }
}

/// Whether the key event fills the grid with a random pattern; the one grid
/// effect whose outcome is not a function of the current state. Help mode
/// ignores it like every other grid-editing input.
pub open spec fn grid_key_is_random(s: State, k: Option<Key>) -> bool {
    k == Some(Key::R) && !(s is HelpMode)
}

/// The grid after one key event, for every key but the random fill: clear,
/// fill and invert act on the whole grid, help mode ignores them all.
pub open spec fn grid_after_key(g: GridView, s: State, k: Option<Key>) -> GridView {
    if s is HelpMode {
        g
    } else {
        match k {
            Some(Key::C) => g.filled(Cell::Dead),
            Some(Key::A) => g.filled(Cell::Alive),
            Some(Key::I) => g.inverted(),
            _ => g,
        }
    }
}

/// A screen coordinate translated to a grid coordinate: clamped to the
/// window (an empty window clamps to zero), then divided by the per-cell
/// pixel scale.
pub open spec fn grid_coord(pos: u32, window: u32) -> u32 {
    (if window == 0 {
        0u32
    } else if pos > window - 1 {
        (window - 1) as u32
    } else {
        pos
    }) / SCALE
}

/// Everything the controller reads from outside during one tick: elapsed
/// time, the most recent key event, the pointer, and the viewport size.
#[derive(Clone, Copy, Debug)]
pub struct TickInput {
    /// Real time elapsed since the previous tick, in milliseconds.
    pub dt_ms: u64,
    /// The most recent key pressed this tick, if any; last-pressed wins.
    pub key: Option<Key>,
    /// Whether the primary edit button is held.
    pub left_down: bool,
    /// Whether the alternate edit button is held.
    pub right_down: bool,
    /// Pointer x, in screen pixels.
    pub mouse_x: u32,
    /// Pointer y, in screen pixels.
    pub mouse_y: u32,
    /// Viewport width, in pixels.
    pub screen_w: u32,
    /// Viewport height, in pixels.
    pub screen_h: u32,
}

/// The orchestrating controller: the grid, the mode, the theme, and the
/// timing and resize-debounce bookkeeping.
pub struct GameOfLife {
    pub universe: Universe,
    pub state: State,
    /// The advance interval, in milliseconds.
    pub update_frame_cap_ms: u64,
    /// Time accumulated towards the next generation advance.
    pub passed_time_ms: u64,
    /// Time accumulated since the last committed resize.
    pub passed_resize_time_ms: u64,
    /// Whether a viewport-size change waits for the debounce window.
    pub resize_queued: bool,
    /// The pointer's grid column, from the last tick.
    pub mouse_gx: u32,
    /// The pointer's grid row, from the last tick.
    pub mouse_gy: u32,
    pub fullscreen: bool,
    /// Viewport width, in pixels, as last seen.
    pub window_width: u32,
    /// Viewport height, in pixels, as last seen.
    pub window_height: u32,
    pub theme: Theme,
}

/// Whether the viewport size reported this tick differs from the last one
/// seen.
pub open spec fn tick_dims_changed(g: GameOfLife, input: TickInput) -> bool {
    input.screen_w != g.window_width || input.screen_h != g.window_height
}

/// Whether a resize wants to happen this tick: the size just changed or a
/// change is still queued.
pub open spec fn tick_resize_pending(g: GameOfLife, input: TickInput) -> bool {
    tick_dims_changed(g, input) || g.resize_queued
}

/// The resize-debounce timer as of this tick.
pub open spec fn tick_resize_timer(g: GameOfLife, input: TickInput) -> u64 {
    sat_add64(g.passed_resize_time_ms, input.dt_ms)
}

/// Whether this tick commits a resize: one is pending and the debounce
/// window has elapsed.
pub open spec fn tick_applies_resize(g: GameOfLife, input: TickInput) -> bool {
    tick_resize_pending(g, input) && tick_resize_timer(g, input) >= RESIZE_TIME_LIMIT_MS
}

/// Whether this tick leaves a resize queued for a later tick.
pub open spec fn tick_queues_resize(g: GameOfLife, input: TickInput) -> bool {
    tick_resize_pending(g, input) && tick_resize_timer(g, input) < RESIZE_TIME_LIMIT_MS
}

/// The grid width a committed resize produces, in cells.
pub open spec fn tick_new_width(input: TickInput) -> usize {
    (input.screen_w / SCALE) as usize
}

/// The grid height a committed resize produces, in cells.
pub open spec fn tick_new_height(input: TickInput) -> usize {
    (input.screen_h / SCALE) as usize
}

/// The advance timer as of this tick: a value that already reached the
/// interval on the previous tick starts over, then the elapsed time is
/// added.
pub open spec fn tick_advance_timer(g: GameOfLife, input: TickInput) -> u64 {
    sat_add64(
        if g.passed_time_ms >= g.update_frame_cap_ms {
            0u64
        } else {
            g.passed_time_ms
        },
        input.dt_ms,
    )
}

/// Whether this tick advances the grid by one generation: the mode (after
/// the key event) is simulation and the advance timer reached the interval
/// (after the key event).
pub open spec fn tick_advances(g: GameOfLife, input: TickInput) -> bool {
    state_after_key(g.state, input.key) is SimulationMode && tick_advance_timer(g, input)
        >= cap_after_key(g.update_frame_cap_ms, input.key)
}

/// The cell value this tick writes at the pointer, if any: in design mode
/// (after the key event) the primary button paints a live cell and the
/// alternate button a dead one, primary winning when both are held.
pub open spec fn tick_edit(g: GameOfLife, input: TickInput) -> Option<Cell> {
    if state_after_key(g.state, input.key) is DesignMode && input.left_down {
        Some(Cell::Alive)
    } else if state_after_key(g.state, input.key) is DesignMode && input.right_down {
        Some(Cell::Dead)
    } else {
        None
    }
}

/// Whether the grid this tick ends with is a function of the starting state
/// and the input: always, except when a random fill survives to the end of
/// the tick (a committed resize discards it).
pub open spec fn tick_grid_deterministic(g: GameOfLife, input: TickInput) -> bool {
    !grid_key_is_random(g.state, input.key) || tick_applies_resize(g, input)
}

/// The grid at the end of the tick, in the deterministic case: the key's
/// whole-grid effect, then a committed resize, then a generation advance or
/// a pointer edit, in the order the tick performs them. A pointer edit
/// outside the grid is dropped.
pub open spec fn tick_grid_after(g: GameOfLife, input: TickInput) -> GridView {
    let u1 = grid_after_key(g.universe@, g.state, input.key);
    let u2 = if tick_applies_resize(g, input) {
        GridView::dead_grid(tick_new_width(input) as nat, tick_new_height(input) as nat)
    } else {
        u1
    };
    let u3 = if tick_advances(g, input) {
        u2.advanced()
    } else {
        u2
    };
    let gx = grid_coord(input.mouse_x, input.screen_w) as int;
    let gy = grid_coord(input.mouse_y, input.screen_h) as int;
    match tick_edit(g, input) {
        Some(c) => if u3.in_bounds(gx, gy) {
            u3.with_cell(gx, gy, c)
        } else {
            u3
        },
        None => u3,
    }
}

impl GameOfLife {
    /// The grid invariant the controller maintains.
    pub open spec fn wf(self) -> bool {
        self.universe@.wf()
    }

    /// A fresh game: a dead starting grid, help mode, the default theme and
    /// advance interval, and all timers at zero.
    pub fn new() -> (r: GameOfLife)
        ensures
            r.wf(),
            r.universe@ == GridView::dead_grid(GRID_W as nat, GRID_H as nat),
            r.state == State::HelpMode,
            r.update_frame_cap_ms == DEFAULT_UPDATE_CAP_MS,
            r.passed_time_ms == 0,
            r.passed_resize_time_ms == 0,
            r.resize_queued == false,
            r.mouse_gx == 0,
            r.mouse_gy == 0,
            r.fullscreen == false,
            r.window_width == 0,
            r.window_height == 0,
            r.theme == Theme::Default,
    {
        GameOfLife {
            universe: Universe::new(GRID_W, GRID_H),
            state: State::HelpMode,
            update_frame_cap_ms: DEFAULT_UPDATE_CAP_MS,
            passed_time_ms: 0,
            passed_resize_time_ms: 0,
            resize_queued: false,
            mouse_gx: 0,
            mouse_gy: 0,
            fullscreen: false,
            window_width: 0,
            window_height: 0,
            theme: Theme::Default,
        }
    }

    /// Records the viewport size and reports whether it differs from the
    /// size seen last tick.
    pub fn screen_size_changed(&mut self, new_width: u32, new_height: u32) -> (changed: bool)
        ensures
            changed == (new_width != old(self).window_width || new_height
                != old(self).window_height),
            *final(self) == (GameOfLife {
                window_width: new_width,
                window_height: new_height,
                ..*old(self)
            }),
    {
        let changed = new_width != self.window_width || new_height != self.window_height;
        self.window_width = new_width;
        self.window_height = new_height;
        changed
    }

    /// Replaces the grid by its next generation; nothing else changes.
    pub fn update_cells(&mut self)
        requires
            old(self).wf(),
        ensures
            final(self).wf(),
            final(self).universe@ == old(self).universe@.advanced(),
            *final(self) == (GameOfLife { universe: final(self).universe, ..*old(self) }),
    {
        let next = self.universe.advance_generation();
        self.universe = next;
    }

    /// Applies one key event: mode transitions, whole-grid operations, theme
    /// selection, speed controls and the fullscreen flag, with help mode
    /// ignoring all grid-editing input. Reports whether the quit key was
    /// pressed.
    pub fn handle_key(&mut self, key: Option<Key>) -> (quit: bool)
        requires
            old(self).wf(),
        ensures
            final(self).wf(),
            quit == (key == Some(Key::Escape)),
            final(self).state == state_after_key(old(self).state, key),
            final(self).theme == theme_after_key(old(self).theme, key),
            final(self).update_frame_cap_ms == cap_after_key(old(self).update_frame_cap_ms, key),
            final(self).fullscreen == fullscreen_after_key(old(self).fullscreen, key),
            final(self).universe@.width == old(self).universe@.width,
            final(self).universe@.height == old(self).universe@.height,
            !grid_key_is_random(old(self).state, key) ==> final(self).universe@ == grid_after_key(
                old(self).universe@,
                old(self).state,
                key,
            ),
            final(self).passed_time_ms == old(self).passed_time_ms,
            final(self).passed_resize_time_ms == old(self).passed_resize_time_ms,
            final(self).resize_queued == old(self).resize_queued,
            final(self).mouse_gx == old(self).mouse_gx,
            final(self).mouse_gy == old(self).mouse_gy,
            final(self).window_width == old(self).window_width,
            final(self).window_height == old(self).window_height,
    {
        let in_help = match self.state {
            State::HelpMode => true,
            _ => false,
        };
        match key {
            Some(Key::H) => {
                if in_help {
                    self.state = State::DesignMode;
                } else {
                    self.state = State::HelpMode;
                }
            },
            Some(Key::C) => {
                if !in_help {
                    self.universe.fill(Cell::Dead);
                }
            },
            Some(Key::A) => {
                if !in_help {
                    self.universe.fill(Cell::Alive);
                }
            },
            Some(Key::T) => {
                self.theme.cycle();
            },
            Some(Key::I) => {
                if !in_help {
                    self.universe.invert();
                }
            },
            Some(Key::R) => {
                if !in_help {
                    self.universe.fill_random();
                }
            },
            Some(Key::B) => {
                self.theme.toggle_bolus();
            },
            Some(Key::Plus) => {
                self.update_frame_cap_ms = self.update_frame_cap_ms.saturating_add(
                    UPDATE_TIME_STEP_MS,
                );
            },
            Some(Key::Minus) => {
                self.update_frame_cap_ms = self.update_frame_cap_ms.saturating_sub(
                    UPDATE_TIME_STEP_MS,
                );
            },
            Some(Key::Space) => {
                self.state.toggle();
            },
            Some(Key::Enter) => {
                if in_help {
                    self.state = State::DesignMode;
                }
            },
            Some(Key::Escape) => {
                return true;
            },
            Some(Key::F11) => {
                self.fullscreen = !self.fullscreen;
            },
            None => {},
        }
        false
    }

    /// One tick of the controller: integrates elapsed time, applies the key
    /// event, commits or queues a debounced resize, tracks the pointer, and
    /// either edits the grid (design mode) or advances it on its cadence
    /// (simulation mode). Returns whether the caller should terminate.
    pub fn update(&mut self, input: TickInput) -> (quit: bool)
        requires
            old(self).wf(),
            tick_new_width(input) * tick_new_height(input) <= usize::MAX,
        ensures
            final(self).wf(),
            quit == (input.key == Some(Key::Escape)),
            final(self).state == state_after_key(old(self).state, input.key),
            final(self).theme == theme_after_key(old(self).theme, input.key),
            final(self).update_frame_cap_ms == cap_after_key(
                old(self).update_frame_cap_ms,
                input.key,
            ),
            final(self).fullscreen == fullscreen_after_key(old(self).fullscreen, input.key),
            final(self).window_width == input.screen_w,
            final(self).window_height == input.screen_h,
            final(self).mouse_gx == grid_coord(input.mouse_x, input.screen_w),
            final(self).mouse_gy == grid_coord(input.mouse_y, input.screen_h),
            final(self).resize_queued == tick_queues_resize(*old(self), input),
            final(self).passed_resize_time_ms == (if tick_applies_resize(*old(self), input) {
                0u64
            } else {
                tick_resize_timer(*old(self), input)
            }),
            final(self).passed_time_ms == (if tick_advances(*old(self), input) {
                0u64
            } else {
                tick_advance_timer(*old(self), input)
            }),
            final(self).universe@.width == (if tick_applies_resize(*old(self), input) {
                tick_new_width(input) as nat
            } else {
                old(self).universe@.width
            }),
            final(self).universe@.height == (if tick_applies_resize(*old(self), input) {
                tick_new_height(input) as nat
            } else {
                old(self).universe@.height
            }),
            tick_grid_deterministic(*old(self), input) ==> final(self).universe@
                == tick_grid_after(*old(self), input),
    {
        if self.passed_time_ms >= self.update_frame_cap_ms {
            self.passed_time_ms = 0;
        }
        self.passed_time_ms = self.passed_time_ms.saturating_add(input.dt_ms);
        self.passed_resize_time_ms = self.passed_resize_time_ms.saturating_add(input.dt_ms);

        let quit = self.handle_key(input.key);

        let size_changed = self.screen_size_changed(input.screen_w, input.screen_h);
        if size_changed || self.resize_queued {
            if self.passed_resize_time_ms >= RESIZE_TIME_LIMIT_MS {
                let new_w = (self.window_width / SCALE) as usize;
                let new_h = (self.window_height / SCALE) as usize;
                self.universe.resize(new_w, new_h);
                self.resize_queued = false;
                self.passed_resize_time_ms = 0;
            } else {
                self.resize_queued = true;
            }
        }

        self.mouse_gx = to_grid_coord(input.mouse_x, self.window_width);
        self.mouse_gy = to_grid_coord(input.mouse_y, self.window_height);

        match self.state {
            State::SimulationMode => {
                if self.passed_time_ms >= self.update_frame_cap_ms {
                    self.update_cells();
                    self.passed_time_ms = 0;
                }
            },
            State::DesignMode => {
                let gx = self.mouse_gx as usize;
                let gy = self.mouse_gy as usize;
                if input.left_down {
                    if gx < self.universe.width() && gy < self.universe.height() {
                        self.universe.set(gx, gy, Cell::Alive);
                    }
                } else if input.right_down {
                    if gx < self.universe.width() && gy < self.universe.height() {
                        self.universe.set(gx, gy, Cell::Dead);
                    }
                }
            },
            State::HelpMode => {},
        }

        quit
    }
}

/// Translates a screen coordinate to a grid coordinate, clamping to the
/// window first.
pub fn to_grid_coord(pos: u32, window: u32) -> (r: u32)
    ensures
        r == grid_coord(pos, window),
{
    let clamped = if window == 0 {
        0
    } else if pos > window - 1 {
        window - 1
    } else {
        pos
    };
    clamped / SCALE
}

/// The mode transition table: toggle-help leaves help for design and enters
/// help from every other mode; toggle-pause swaps design and simulation and
/// leaves help alone; confirm leaves help for design.
pub proof fn lemma_mode_transitions(s: State)
    ensures
        state_after_key(State::HelpMode, Some(Key::H)) == State::DesignMode,
        s != State::HelpMode ==> state_after_key(s, Some(Key::H)) == State::HelpMode,
        state_after_key(State::DesignMode, Some(Key::Space)) == State::SimulationMode,
        state_after_key(State::SimulationMode, Some(Key::Space)) == State::DesignMode,
        state_after_key(State::HelpMode, Some(Key::Space)) == State::HelpMode,
        state_after_key(State::HelpMode, Some(Key::Enter)) == State::DesignMode,
{
}

/// A committed resize discards all prior content: when a resize is pending,
/// the debounce window has elapsed and neither edit button is held, the tick
/// ends with the all-dead window-over-scale grid, whatever the grid held
/// before and whatever the key event did to it — even a generation advance
/// on the same tick leaves it all dead. The queue is cleared and the
/// debounce timer restarts by `update`'s own ensures.
pub proof fn lemma_resize_commit_discards(g: GameOfLife, input: TickInput)
    requires
        tick_applies_resize(g, input),
        !input.left_down,
        !input.right_down,
    ensures
        tick_grid_deterministic(g, input),
        !tick_queues_resize(g, input),
        tick_grid_after(g, input) == GridView::dead_grid(
            tick_new_width(input) as nat,
            tick_new_height(input) as nat,
        ),
{
    let d = GridView::dead_grid(tick_new_width(input) as nat, tick_new_height(input) as nat);
    assert(d.all_cells_are(Cell::Dead));
    if tick_advances(g, input) {
        lemma_no_spontaneous_life(d);
        assert(d.advanced().cells =~= d.cells);
        assert(d.advanced() =~= d);
    }
}

/// No resize before the debounce window elapses: when a resize is pending
/// but the accumulated resize time still falls short of the window, the tick
/// only queues it; and on a tick that otherwise does nothing — no key event,
/// no held button, no generation advance — the grid itself is untouched.
pub proof fn lemma_resize_debounce_queues(g: GameOfLife, input: TickInput)
    requires
        tick_resize_pending(g, input),
        tick_resize_timer(g, input) < RESIZE_TIME_LIMIT_MS,
        input.key is None,
        !input.left_down,
        !input.right_down,
        !tick_advances(g, input),
    ensures
        !tick_applies_resize(g, input),
        tick_queues_resize(g, input),
        tick_grid_deterministic(g, input),
        tick_grid_after(g, input) == g.universe@,
{
}

/// The debounce window reopens after a commit: a committing tick leaves the
/// resize timer at zero (an ensures of `update`), so the next tick can
/// commit again only once a full window has elapsed since. This is the
/// inductive step behind "at most one resize per debounce window".
pub proof fn lemma_debounce_window_reopens(g: GameOfLife, input: TickInput)
    requires
        g.passed_resize_time_ms == 0,
        input.dt_ms < RESIZE_TIME_LIMIT_MS,
    ensures
        !tick_applies_resize(g, input),
{
}

} // verus!
