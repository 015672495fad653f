//! The presentation state machine: a time-driven automaton over three modes
//! (idle, shuffle animation, settled answer) plus an orthogonal help flag.
//!
//! Every transition is a function of the current record, the current instant
//! in milliseconds, and — where a shuffle needs one — a random draw. The
//! draws come in as arguments to the deterministic cores (`ask_at`,
//! `tick_step`), so the whole automaton is verified for every possible draw;
//! `ask` and `tick` obtain the draws from the thread-local generator.

use vstd::prelude::*;

use crate::rng::random_below;

verus! {

/// Number of answers on the device face.
pub const ANSWER_COUNT: usize = 6;

/// How long the shuffle animation runs after an ask, in milliseconds.
pub const ANIMATION_DURATION_MS: u64 = 2000;

/// Pause between two shuffle steps, in milliseconds.
pub const ANIMATION_STEP_MS: u64 = 120;

/// How long the settled answer stays highlighted, in milliseconds.
pub const ANSWER_FLASH_MS: u64 = 1500;

/// Upper bound on the event loop's wait for a key, in milliseconds.
pub const TICK_RATE_MS: u64 = 50;

/// Latest instant the machine accepts: it leaves room for the furthest
/// deadline it ever schedules, `now + ANIMATION_DURATION_MS`.
pub const MAX_INSTANT_MS: u64 = u64::MAX - ANIMATION_DURATION_MS;

/// The presentation mode and its per-mode data. Instants are milliseconds
/// on the caller's monotonic clock.
#[derive(Clone, Copy, PartialEq, Eq, Debug)]
pub enum State {
    /// Awaiting user input; no cell is highlighted.
    Idle,
    /// Shuffle in progress; `current_index` is the cell presently lit.
    Animating { final_index: usize, current_index: usize, end_at: u64, next_switch: u64 },
    /// Final answer locked; `index` stays lit until `until`.
    Showing { index: usize, until: u64 },
}

/// The whole application record the event loop owns.
#[derive(Clone, Copy, PartialEq, Eq, Debug)]
pub struct App {
    pub state: State,
    pub help_visible: bool,
    pub last_answer: Option<usize>,
}

impl App {
    /// Validity of the record: every stored index addresses one of the six
    /// answers, and no settled answer is remembered while a shuffle runs.
    pub open spec fn wf(self) -> bool {
        &&& (self.state matches State::Animating { final_index, current_index, .. }
            ==> final_index < ANSWER_COUNT && current_index < ANSWER_COUNT)
        &&& (self.state matches State::Showing { index, .. } ==> index < ANSWER_COUNT)
        &&& (self.last_answer matches Some(i) ==> i < ANSWER_COUNT)
        &&& (self.state is Animating ==> self.last_answer is None)
    }

    /// Fresh record: idle, help hidden, no answer remembered.
    pub fn new() -> (a: App)
        ensures
            a.state is Idle,
            a.help_visible == false,
            a.last_answer is None,
            a.wf(),
    {
        App { state: State::Idle, help_visible: false, last_answer: None }
    }

    /// Flip the help overlay; the presentation mode and the remembered
    /// answer are untouched.
    pub fn toggle_help(&mut self)
        ensures
            *final(self) == toggled(*old(self)),
            final(self).help_visible == !old(self).help_visible,
            final(self).state == old(self).state,
            final(self).last_answer == old(self).last_answer,
            old(self).wf() ==> final(self).wf(),
    {
        self.help_visible = !self.help_visible;
    }

    /// Start a shuffle at instant `now` with the given draws: the answer the
    /// animation will settle on and the cell lit first, which must differ so
    /// the start of the animation is visible.
    pub fn ask_at(&mut self, now: u64, final_index: usize, current_index: usize)
        requires
            final_index < ANSWER_COUNT,
            current_index < ANSWER_COUNT,
            current_index != final_index,
            now <= MAX_INSTANT_MS,
        ensures
            *final(self) == ask_transition(*old(self), now, final_index, current_index),
            final(self).wf(),
    {
        self.last_answer = None;
        self.state = State::Animating {
            final_index,
            current_index,
            end_at: now + ANIMATION_DURATION_MS,
            next_switch: now,
        };
    }

    /// Start a shuffle at instant `now`, drawing the settled answer uniformly
    /// from the six cells and the first lit cell uniformly from the other
    /// five. Which cells were drawn is chance; everything else is pinned.
    pub fn ask(&mut self, now: u64)
        requires
            now <= MAX_INSTANT_MS,
        ensures
            exists|f: usize, c: usize|
                f < ANSWER_COUNT && c < ANSWER_COUNT && c != f
                && (*final(self) == ask_transition(*old(self), now, f, c)),
            final(self).state matches State::Animating { end_at, next_switch, .. }
                && end_at == now + ANIMATION_DURATION_MS && next_switch == now,
            final(self).state matches State::Animating { final_index, current_index, .. }
                ==> current_index != final_index,
            final(self).last_answer is None,
            final(self).help_visible == old(self).help_visible,
            final(self).wf(),
    {
        let f = random_below(ANSWER_COUNT);
        let r = random_below(ANSWER_COUNT - 1);
        let c = if r >= f { r + 1 } else { r };
        self.ask_at(now, f, c);
        proof {
            assert(*final(self) == ask_transition(*old(self), now, f, c));
        }
    }
}

/// What a key press carries, as far as the machine reads it.
#[derive(Clone, Copy, PartialEq, Eq, Debug)]
pub enum KeyCode {
    Enter,
    Esc,
    Char(char),
    Other,
}

/// A keyboard event as the machine sees it: the code, whether `Control` was
/// held, and whether this reports a key release rather than a press.
#[derive(Clone, Copy, PartialEq, Eq, Debug)]
pub struct KeyInput {
    pub code: KeyCode,
    pub ctrl: bool,
    pub release: bool,
}

/// The record after `toggle_help`.
pub open spec fn toggled(app: App) -> App {
    App { help_visible: !app.help_visible, ..app }
}

/// The record with the help flag forced to `h`.
pub open spec fn with_help(app: App, h: bool) -> App {
    App { help_visible: h, ..app }
}

/// Whether `code` is the given letter, in either case.
pub open spec fn is_char_of(code: KeyCode, lower: char, upper: char) -> bool {
    code matches KeyCode::Char(c) && (c == lower || c == upper)
}

/// `Ctrl+C`: quit at once.
pub open spec fn is_quit_chord(key: KeyInput) -> bool {
    key.ctrl && is_char_of(key.code, 'c', 'C')
}

/// `Ctrl+H`: toggle the help overlay.
pub open spec fn is_help_chord(key: KeyInput) -> bool {
    key.ctrl && is_char_of(key.code, 'h', 'H')
}

/// `Esc`, `q` or `Q`: quit, unless the overlay takes the keystroke.
pub open spec fn is_quit_code(code: KeyCode) -> bool {
    code is Esc || is_char_of(code, 'q', 'Q')
}

/// `Enter` or `Space`: ask, unless the overlay takes the keystroke.
pub open spec fn is_ask_code(code: KeyCode) -> bool {
    code is Enter || (code matches KeyCode::Char(c) && c == ' ')
}

/// Whether `key` ends the program, following the dispatch order: releases
/// are ignored, `Ctrl+C` always quits, `Ctrl+H` never does, and a quit key
/// quits only when no overlay is up to dismiss first.
pub open spec fn key_quits(app: App, key: KeyInput) -> bool {
    if key.release {
        false
    } else if is_quit_chord(key) {
        true
    } else if is_help_chord(key) {
        false
    } else if is_quit_code(key.code) {
        !app.help_visible
    } else {
        false
    }
}

/// Whether `key` starts a new ask: an ask key pressed while no overlay is
/// up to dismiss.
pub open spec fn key_asks(app: App, key: KeyInput) -> bool {
    &&& !key.release
    &&& !is_quit_chord(key)
    &&& !is_help_chord(key)
    &&& !is_quit_code(key.code)
    &&& is_ask_code(key.code)
    &&& !app.help_visible
}

/// The record after a key that does not start an ask: `Ctrl+H` toggles the
/// overlay, a quit or ask key first dismisses an open overlay, and every
/// other key leaves the record alone.
pub open spec fn key_transition(app: App, key: KeyInput) -> App {
    if key.release {
        app
    } else if is_quit_chord(key) {
        app
    } else if is_help_chord(key) {
        toggled(app)
    } else if is_quit_code(key.code) {
        with_help(app, false)
    } else if is_ask_code(key.code) {
        with_help(app, false)
    } else {
        app
    }
}

/// The record after an ask at `now` that drew `final_index` and lit
/// `current_index` first: the remembered answer is cleared, the animation
/// ends `ANIMATION_DURATION_MS` later, and the first shuffle step is due
/// immediately.
pub open spec fn ask_transition(app: App, now: u64, final_index: usize, current_index: usize) -> App {
    App {
        state: State::Animating {
            final_index,
            current_index,
            end_at: (now + ANIMATION_DURATION_MS) as u64,
            next_switch: now,
        },
        help_visible: app.help_visible,
        last_answer: None,
    }
}

/// The cell a shuffle step moves the light to: `r` is a uniform draw from
/// `0 .. ANSWER_COUNT - 1`, remapped over the gap at `avoid` so the result
/// is uniform on the other five cells and never equals `avoid`.
pub open spec fn distinct_pick(avoid: usize, r: usize) -> usize {
    if r >= avoid {
        (r + 1) as usize
    } else {
        r
    }
}

/// The record after a clock advance to `now`, with `r` the draw a shuffle
/// step would use. Exactly one of four things happens: nothing (no deadline
/// reached), the flash expires, the animation settles, or the light moves.
pub open spec fn tick_transition(app: App, now: u64, r: usize) -> App {
    match app.state {
        State::Idle => app,
        State::Showing { index, until } => {
            if now >= until {
                App { state: State::Idle, ..app }
            } else {
                app
            }
        },
        State::Animating { final_index, current_index, end_at, next_switch } => {
            if now >= end_at {
                App {
                    state: State::Showing {
                        index: final_index,
                        until: (now + ANSWER_FLASH_MS) as u64,
                    },
                    help_visible: app.help_visible,
                    last_answer: Some(final_index),
                }
            } else if now >= next_switch {
                App {
                    state: State::Animating {
                        final_index,
                        current_index: distinct_pick(current_index, r),
                        end_at,
                        next_switch: (now + ANIMATION_STEP_MS) as u64,
                    },
                    ..app
                }
            } else {
                app
            }
        },
    }
}

impl App {
    /// Advance the clock to `now` with the shuffle draw `r` given: the
    /// deterministic core of `tick`.
    pub fn tick_step(&mut self, now: u64, r: usize)
        requires
            old(self).wf(),
            r < ANSWER_COUNT - 1,
            now <= MAX_INSTANT_MS,
        ensures
            *final(self) == tick_transition(*old(self), now, r),
            final(self).wf(),
    {
        match self.state {
            State::Idle => {},
            State::Showing { index, until } => {
                if now >= until {
                    self.state = State::Idle;
                }
            },
            State::Animating { final_index, current_index, end_at, next_switch } => {
                if now >= end_at {
                    self.last_answer = Some(final_index);
                    self.state = State::Showing { index: final_index, until: now + ANSWER_FLASH_MS };
                } else if now >= next_switch {
                    let next_index = if r >= current_index { r + 1 } else { r };
                    self.state = State::Animating {
                        final_index,
                        current_index: next_index,
                        end_at,
                        next_switch: now + ANIMATION_STEP_MS,
                    };
                }
            },
        }
    }

    /// Advance the clock to `now`. When a shuffle step is due its draw comes
    /// from the thread-local generator, so the lit cell after the call is
    /// chance; every other effect of the advance is pinned.
    pub fn tick(&mut self, now: u64)
        requires
            old(self).wf(),
            now <= MAX_INSTANT_MS,
        ensures
            exists|r: usize|
                r < ANSWER_COUNT - 1 && (*final(self) == tick_transition(*old(self), now, r)),
            final(self).wf(),
    {
        let r = random_below(ANSWER_COUNT - 1);
        self.tick_step(now, r);
        proof {
            assert(*final(self) == tick_transition(*old(self), now, r));
        }
    }

    /// Apply a keyboard event at instant `now`; the result says whether the
    /// program should terminate. Every path is pinned except the draws of a
    /// fresh ask; the remembered answer changes only when an ask clears it.
    pub fn on_key(&mut self, key: KeyInput, now: u64) -> (quit: bool)
        requires
            old(self).wf(),
            now <= MAX_INSTANT_MS,
        ensures
            quit == key_quits(*old(self), key),
            !key_asks(*old(self), key) ==> *final(self) == key_transition(*old(self), key),
            key_asks(*old(self), key) ==> (exists|f: usize, c: usize|
                f < ANSWER_COUNT && c < ANSWER_COUNT && c != f
                && *final(self) == ask_transition(*old(self), now, f, c)),
            final(self).last_answer == old(self).last_answer
                || (final(self).last_answer is None && final(self).state is Animating),
            final(self).wf(),
    {
        if key.release {
            return false;
        }
        if key.ctrl {
            match key.code {
                KeyCode::Char(c) => {
                    if c == 'c' || c == 'C' {
                        return true;
                    }
                    if c == 'h' || c == 'H' {
                        self.toggle_help();
                        return false;
                    }
                },
                _ => {},
            }
        }
        match key.code {
            KeyCode::Esc => {
                if self.help_visible {
                    self.help_visible = false;
                    false
                } else {
                    true
                }
            },
            KeyCode::Enter => {
                if self.help_visible {
                    self.help_visible = false;
                } else {
                    self.ask(now);
                }
                false
            },
            KeyCode::Char(c) => {
                if c == 'q' || c == 'Q' {
                    if self.help_visible {
                        self.help_visible = false;
                        false
                    } else {
                        true
                    }
                } else if c == ' ' {
                    if self.help_visible {
                        self.help_visible = false;
                        false
                    } else {
                        self.ask(now);
                        false
                    }
                } else {
                    false
                }
            },
            _ => false,
        }
    }
}

} // verus!
