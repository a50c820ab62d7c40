//! The laws of the three run predicates, stated once over all watcher
//! histories and proved from the predicates' definitions.

use vstd::prelude::*;
use crate::levels::{spec_next_level, Levels};
use crate::settings::{spec_segment_enabled, Settings};
use crate::state::{
    spec_reset, spec_split, spec_start, State, MENU_IDLE_DEBOUNCE, PHASE_COMPLETED, PHASE_IDLE,
    PHASE_RUN_MAX, PHASE_SHOWDOWN_PLAYING, TRIGGER_ARMED,
};
use crate::tick::{spec_action, TimerAction, TimerState};
use crate::watcher::Pair;

verus! {

/// While the timer runs (or is paused), reset takes priority: whenever the
/// reset predicate holds, the tick emits the reset signal and the split
/// predicate cannot make itself heard in the same tick.
pub proof fn lemma_reset_takes_priority(s: State, timer: TimerState)
    requires
        timer is Running || timer is Paused,
        spec_reset(s),
    ensures
        spec_action(s, timer) == Some(TimerAction::Reset),
{
}

/// A split can only fire when the configuration is present, the level
/// watcher is primed, and the flag of the segment being departed is
/// enabled — so a disabled flag silences its segment's split for every
/// watcher history.
pub proof fn lemma_split_needs_enabled_flag(s: State)
    ensures
        spec_split(s) ==> {
            &&& s.settings matches Some(settings)
            &&& s.watchers.levelid.pair matches Some(level)
            &&& spec_segment_enabled(settings, level.previous)
        },
{
}

/// The split predicate fires exactly on the one legal forward transition
/// out of the departed level — its unique successor in the fixed
/// progression order, or, for the last level, the run-phase completion
/// edge — and only with that segment's flag enabled. Since the successor
/// is unique, at most one (previous, current) level pair satisfies the
/// predicate per departed level.
pub proof fn lemma_split_characterization(
    s: State,
    settings: Settings,
    level: Pair<Levels>,
    phase: Pair<u8>,
)
    requires
        s.settings == Some(settings),
        s.watchers.levelid.pair == Some(level),
        s.watchers.state.pair == Some(phase),
    ensures
        spec_split(s) <==> {
            &&& spec_segment_enabled(settings, level.previous)
            &&& match spec_next_level(level.previous) {
                Some(next) => level.current == next,
                None => phase.previous == PHASE_SHOWDOWN_PLAYING && phase.current
                    == PHASE_COMPLETED,
            }
        },
{
}

/// The reset predicate fires exactly when auto-reset is enabled and the
/// run-phase fell from an in-run value (1 through 6) back to the idle
/// sentinel.
pub proof fn lemma_reset_characterization(s: State, settings: Settings, phase: Pair<u8>)
    requires
        s.settings == Some(settings),
        s.watchers.state.pair == Some(phase),
    ensures
        spec_reset(s) <==> {
            &&& settings.reset
            &&& 1 <= phase.previous <= PHASE_RUN_MAX
            &&& phase.current == PHASE_IDLE
        },
{
}

/// The start predicate fires exactly when auto-start is enabled, a
/// meaningful menu selection (1 or 15) was pending, the run-phase is idle,
/// the menu had been idle past the debounce threshold, and the trigger
/// shows the strict falling edge out of the armed state: previously armed,
/// now below armed.
pub proof fn lemma_start_characterization(
    s: State,
    settings: Settings,
    menu_timeout: Pair<u16>,
    menu_selection: Pair<u8>,
    menu_trigger: Pair<u8>,
    phase: Pair<u8>,
)
    requires
        s.settings == Some(settings),
        s.watchers.menu_timeout.pair == Some(menu_timeout),
        s.watchers.menu_selection.pair == Some(menu_selection),
        s.watchers.menu_trigger.pair == Some(menu_trigger),
        s.watchers.state.pair == Some(phase),
    ensures
        spec_start(s) <==> {
            &&& settings.start
            &&& menu_selection.previous == 15 || menu_selection.previous == 1
            &&& phase.current == PHASE_IDLE
            &&& menu_timeout.previous > MENU_IDLE_DEBOUNCE
            &&& menu_trigger.previous == TRIGGER_ARMED
            &&& menu_trigger.current < TRIGGER_ARMED
        },
{
}

}
