//! The per-tick decision function: from the attachment probe, one tick's
//! raw reads and the external timer's phase to the refreshed state and at
//! most one control signal.
//!
//! The host shell performs the reads, queries the timer and delivers the
//! chosen signal; everything it needs to decide is here.

use vstd::prelude::*;
use crate::state::{spec_refresh_bank, spec_reset, spec_split, spec_start, Readings, State};

verus! {

/// The external timer's phase, as queried once per tick.
#[derive(Clone, Copy, PartialEq, Eq, Structural, Debug)]
pub enum TimerState {
    NotRunning,
    Running,
    Paused,
}

/// The control signal a tick emits, fire-and-forget, at most one per tick.
#[derive(Clone, Copy, PartialEq, Eq, Structural, Debug)]
pub enum TimerAction {
    Start,
    Split,
    Reset,
}

/// The signal chosen for a refreshed state under the given timer phase:
/// while the timer runs (or is paused), reset takes priority and split is
/// only consulted when reset does not fire; while it is not running, only
/// start is consulted.
pub open spec fn spec_action(s: State, timer: TimerState) -> Option<TimerAction> {
    match timer {
        TimerState::Running | TimerState::Paused => {
            if spec_reset(s) {
                Some(TimerAction::Reset)
            } else if spec_split(s) {
                Some(TimerAction::Split)
            } else {
                None
            }
        }
        TimerState::NotRunning => {
            if spec_start(s) {
                Some(TimerAction::Start)
            } else {
                None
            }
        }
    }
}

/// One tick: if the external process is not attached, nothing is mutated
/// and no signal is emitted — the tick is silently retried later. If it is
/// attached, the bank is refreshed from this tick's reads and the signal,
/// if any, follows `spec_action` on the refreshed state.
pub fn tick(state: &mut State, attached: bool, reading: Readings, timer: TimerState) -> (action:
    Option<TimerAction>)
    ensures
        !attached ==> *final(state) == *old(state) && action is None,
        attached ==> {
            &&& final(state).settings == old(state).settings
            &&& final(state).watchers == spec_refresh_bank(old(state).watchers, reading)
            &&& action == spec_action(*final(state), timer)
        },
{
    if !attached {
        return None;
    }

    state.update(reading);

    match timer {
        TimerState::Running | TimerState::Paused => {
            if state.reset() {
                Some(TimerAction::Reset)
            } else if state.split() {
                Some(TimerAction::Split)
            } else {
                None
            }
        }
        TimerState::NotRunning => {
            if state.start() {
                Some(TimerAction::Start)
            } else {
                None
            }
        }
    }
}

}
