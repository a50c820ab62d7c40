//! The watcher bank, the per-tick refresh of its histories, and the three
//! edge-triggered run predicates (start, split, reset).

use vstd::prelude::*;
use crate::levels::{classify, spec_classify, spec_next_level, Levels};
use crate::settings::{spec_segment_enabled, Settings};
use crate::watcher::{refreshed, shifted, Pair, Watcher};

verus! {

/// Run-phase value meaning "no run is in progress" (the idle sentinel).
pub const PHASE_IDLE: u8 = 0;

/// Highest run-phase value that still counts as "inside a run".
pub const PHASE_RUN_MAX: u8 = 6;

/// Run-phase value seen while the final stage's closing sequence plays.
pub const PHASE_SHOWDOWN_PLAYING: u8 = 2;

/// Run-phase value that marks the run as completed.
pub const PHASE_COMPLETED: u8 = 4;

/// Menu-trigger value meaning the start trigger is armed; a drop below it
/// is the falling edge that fires the trigger.
pub const TRIGGER_ARMED: u8 = 3;

/// The menu-timeout counter must have exceeded this value for the menu to
/// count as having been idle long enough (debounce).
pub const MENU_IDLE_DEBOUNCE: u16 = 10;

/// The fixed set of five named watchers the system tracks.
#[derive(Clone, Copy, PartialEq, Eq, Debug)]
pub struct Watchers {
    /// Canonical progress level, derived each tick, never directly observed.
    pub levelid: Watcher<Levels>,
    /// Raw byte encoding the global run/menu phase.
    pub state: Watcher<u8>,
    /// Menu idle-time counter.
    pub menu_timeout: Watcher<u16>,
    /// Raw menu trigger byte.
    pub menu_trigger: Watcher<u8>,
    /// Raw menu selection byte (sticky: meaningless raw values keep the
    /// previous selection).
    pub menu_selection: Watcher<u8>,
}

/// One tick's best-effort raw reads; `None` marks a field that could not
/// be read this tick, never a fatal condition.
#[derive(Clone, Copy, PartialEq, Eq, Debug)]
pub struct Readings {
    /// The global run/menu phase byte.
    pub state: Option<u8>,
    /// Raw area discriminant for the level classifier.
    pub area_id: Option<u8>,
    /// Raw sub-area discriminant for the level classifier.
    pub sub_id: Option<u8>,
    /// Menu idle-time counter.
    pub menu_timeout: Option<u16>,
    /// Raw menu trigger byte.
    pub menu_trigger: Option<u8>,
    /// Raw menu selection byte.
    pub menu_selection: Option<u8>,
}

/// The aggregate tick state: the immutable configuration, once initialized,
/// and the watcher bank.
#[derive(Clone, Copy, PartialEq, Eq, Debug)]
pub struct State {
    /// `None` until the host hands over the configuration; every predicate
    /// is false until then.
    pub settings: Option<Settings>,
    pub watchers: Watchers,
}

/// An absent reading defaulted to the zero sentinel.
pub open spec fn spec_or_zero_u8(reading: Option<u8>) -> u8 {
    match reading {
        Some(v) => v,
        None => 0,
    }
}

/// The sticky menu-selection rule: only the meaningful raw values 1, 2 and
/// 15 are latched; any other raw value keeps the previous selection, or 0
/// before any selection was latched.
pub open spec fn spec_sticky_selection(w: Watcher<u8>, raw: u8) -> u8 {
    if raw == 1 || raw == 2 || raw == 15 {
        raw
    } else {
        match w.pair {
            Some(p) => p.current,
            None => 0,
        }
    }
}

/// The whole bank after one tick's refresh: the run-phase, level and
/// menu-selection watchers always shift (with defaulted readings), the
/// menu-timeout and menu-trigger watchers only on a successful read. The
/// level fed back into the bank is classified from the defaulted raw
/// discriminants and the run-phase reading of this same tick.
pub open spec fn spec_refresh_bank(w: Watchers, r: Readings) -> Watchers {
    let phase = spec_or_zero_u8(r.state);
    let level = spec_classify(spec_or_zero_u8(r.area_id), spec_or_zero_u8(r.sub_id), phase);
    Watchers {
        state: shifted(w.state, phase),
        levelid: shifted(w.levelid, level),
        menu_timeout: refreshed(w.menu_timeout, r.menu_timeout),
        menu_trigger: refreshed(w.menu_trigger, r.menu_trigger),
        menu_selection: shifted(
            w.menu_selection,
            spec_sticky_selection(w.menu_selection, spec_or_zero_u8(r.menu_selection)),
        ),
    }
}

/// The start predicate: true iff auto-start is enabled, the menu had been
/// idle past the debounce threshold, a meaningful selection (1 or 15) was
/// pending, the run-phase is idle, and the trigger just fell out of the
/// armed state. False while any watcher it reads is unprimed.
pub open spec fn spec_start(s: State) -> bool {
    match (s.settings, s.watchers.menu_timeout.pair, s.watchers.menu_selection.pair,
           s.watchers.menu_trigger.pair, s.watchers.state.pair) {
        (Some(settings), Some(menu_timeout), Some(menu_selection), Some(menu_trigger), Some(phase)) => {
            &&& settings.start
            &&& menu_selection.previous == 15 || menu_selection.previous == 1
            &&& phase.current == PHASE_IDLE
            &&& menu_timeout.previous > MENU_IDLE_DEBOUNCE
            &&& menu_trigger.previous == TRIGGER_ARMED
            &&& menu_trigger.current < TRIGGER_ARMED
        }
        _ => false,
    }
}

/// The split predicate: true iff the segment flag of the level being
/// departed is enabled and the current level is its one legal successor;
/// departing the last level has no successor and instead requires the
/// run-phase completion edge. False while any watcher it reads is unprimed.
pub open spec fn spec_split(s: State) -> bool {
    match (s.settings, s.watchers.levelid.pair, s.watchers.state.pair) {
        (Some(settings), Some(level), Some(phase)) => {
            &&& spec_segment_enabled(settings, level.previous)
            &&& match spec_next_level(level.previous) {
                Some(next) => level.current == next,
                None => phase.previous == PHASE_SHOWDOWN_PLAYING && phase.current == PHASE_COMPLETED,
            }
        }
        _ => false,
    }
}

/// The reset predicate: true iff auto-reset is enabled and the run-phase
/// just fell from any in-run value back to idle. False while the run-phase
/// watcher is unprimed.
pub open spec fn spec_reset(s: State) -> bool {
    match (s.settings, s.watchers.state.pair) {
        (Some(settings), Some(phase)) => {
            &&& settings.reset
            &&& phase.previous > PHASE_IDLE
            &&& phase.previous <= PHASE_RUN_MAX
            &&& phase.current == PHASE_IDLE
        }
        _ => false,
    }
}

impl State {
    /// A fresh state: no configuration yet, nothing observed yet.
    pub fn new() -> (s: State)
        ensures
            s.settings is None,
            s.watchers.levelid.pair is None,
            s.watchers.state.pair is None,
            s.watchers.menu_timeout.pair is None,
            s.watchers.menu_trigger.pair is None,
            s.watchers.menu_selection.pair is None,
    {
        State {
            settings: None,
            watchers: Watchers {
                levelid: Watcher::new(),
                state: Watcher::new(),
                menu_timeout: Watcher::new(),
                menu_trigger: Watcher::new(),
                menu_selection: Watcher::new(),
            },
        }
    }

    /// Hands over the configuration exactly once: the first call stores it,
    /// every later call is a no-op, so the configuration is immutable after
    /// first initialization.
    pub fn init_settings(&mut self, settings: Settings)
        ensures
            final(self).watchers == old(self).watchers,
            old(self).settings is None ==> final(self).settings == Some(settings),
            old(self).settings is Some ==> final(self).settings == old(self).settings,
    {
        if self.settings.is_none() {
            self.settings = Some(settings);
        }
    }

    /// Refreshes the whole bank from one tick's raw reads, then classifies
    /// and feeds the canonical level back into the bank's level watcher.
    /// The configuration is untouched.
    pub fn update(&mut self, reading: Readings)
        ensures
            final(self).settings == old(self).settings,
            final(self).watchers == spec_refresh_bank(old(self).watchers, reading),
    {
        let phase: u8 = match reading.state {
            Some(v) => v,
            None => 0,
        };
        let phase_pair = self.watchers.state.update_infallible(phase);

        // Determine the current level from the defaulted raw discriminants
        // and the run-phase reading of this same tick.
        let area_id: u8 = match reading.area_id {
            Some(v) => v,
            None => 0,
        };
        let sub_id: u8 = match reading.sub_id {
            Some(v) => v,
            None => 0,
        };
        let current_level = classify(area_id, sub_id, phase_pair.current);
        self.watchers.levelid.update_infallible(current_level);

        // Fields related to the start trigger tolerate a transient read
        // failure: an absent reading leaves their history untouched.
        self.watchers.menu_timeout.update(reading.menu_timeout);
        self.watchers.menu_trigger.update(reading.menu_trigger);

        // Sticky selection: latch only the meaningful raw values.
        let raw_selection: u8 = match reading.menu_selection {
            Some(v) => v,
            None => 0,
        };
        let menu_selection: u8 = match raw_selection {
            1 | 2 | 15 => raw_selection,
            _ => match &self.watchers.menu_selection.pair {
                Some(x) => x.current,
                None => 0,
            },
        };
        self.watchers.menu_selection.update_infallible(menu_selection);
    }

    /// Decides whether the timer should be started this tick.
    pub fn start(&self) -> (r: bool)
        ensures
            r == spec_start(*self),
    {
        let settings = match &self.settings {
            Some(s) => s,
            None => return false,
        };
        if !settings.start {
            return false;
        }

        let menu_timeout = match &self.watchers.menu_timeout.pair {
            Some(p) => p,
            None => return false,
        };
        let menu_selection = match &self.watchers.menu_selection.pair {
            Some(p) => p,
            None => return false,
        };
        let menu_trigger = match &self.watchers.menu_trigger.pair {
            Some(p) => p,
            None => return false,
        };
        let phase = match &self.watchers.state.pair {
            Some(p) => p,
            None => return false,
        };

        (menu_selection.previous == 15 || menu_selection.previous == 1)
            && phase.current == PHASE_IDLE
            && menu_timeout.previous > MENU_IDLE_DEBOUNCE
            && menu_trigger.previous == TRIGGER_ARMED
            && menu_trigger.current < TRIGGER_ARMED
    }

    /// Decides whether the current segment should be split this tick.
    pub fn split(&self) -> (r: bool)
        ensures
            r == spec_split(*self),
    {
        let settings = match &self.settings {
            Some(s) => s,
            None => return false,
        };
        let level = match &self.watchers.levelid.pair {
            Some(p) => p,
            None => return false,
        };
        let phase = match &self.watchers.state.pair {
            Some(p) => p,
            None => return false,
        };

        match level.previous {
            Levels::ToxicCaves => settings.toxic_caves && level.current == Levels::Bonus1,
            Levels::Bonus1 => settings.bonus_1 && level.current == Levels::LavaPowerHouse,
            Levels::LavaPowerHouse => settings.lava_powerhouse && level.current == Levels::Bonus2,
            Levels::Bonus2 => settings.bonus_2 && level.current == Levels::TheMachine,
            Levels::TheMachine => settings.the_machine && level.current == Levels::Bonus3,
            Levels::Bonus3 => settings.bonus_3 && level.current == Levels::TheShowdown,
            Levels::TheShowdown => {
                settings.the_showdown
                    && phase.previous == PHASE_SHOWDOWN_PLAYING
                    && phase.current == PHASE_COMPLETED
            }
        }
    }

    /// Decides whether the timer should be reset this tick.
    pub fn reset(&self) -> (r: bool)
        ensures
            r == spec_reset(*self),
    {
        let settings = match &self.settings {
            Some(s) => s,
            None => return false,
        };
        if !settings.reset {
            return false;
        }
        let phase = match &self.watchers.state.pair {
            Some(p) => p,
            None => return false,
        };

        phase.previous > PHASE_IDLE && phase.previous <= PHASE_RUN_MAX && phase.current == PHASE_IDLE
    }
}

}
