//! The static configuration: nine independent boolean toggles, immutable
//! after first initialization, all defaulting to enabled.

use vstd::prelude::*;
use crate::levels::Levels;

verus! {

/// The user-facing toggles: automatic start and reset, and one enable flag
/// per level segment.
#[derive(Clone, Copy, PartialEq, Eq, Structural, Debug)]
pub struct Settings {
    /// Start the timer automatically from the menu.
    pub start: bool,
    /// Reset the timer automatically when a run drops back to idle.
    pub reset: bool,
    pub toxic_caves: bool,
    pub bonus_1: bool,
    pub lava_powerhouse: bool,
    pub bonus_2: bool,
    pub the_machine: bool,
    pub bonus_3: bool,
    pub the_showdown: bool,
}

/// Whether the segment that ends by leaving `level` is enabled.
pub open spec fn spec_segment_enabled(settings: Settings, level: Levels) -> bool {
    match level {
        Levels::ToxicCaves => settings.toxic_caves,
        Levels::Bonus1 => settings.bonus_1,
        Levels::LavaPowerHouse => settings.lava_powerhouse,
        Levels::Bonus2 => settings.bonus_2,
        Levels::TheMachine => settings.the_machine,
        Levels::Bonus3 => settings.bonus_3,
        Levels::TheShowdown => settings.the_showdown,
    }
}

impl Default for Settings {
    /// Every toggle defaults to enabled.
    fn default() -> (s: Settings)
        ensures
            s == (Settings {
                start: true,
                reset: true,
                toxic_caves: true,
                bonus_1: true,
                lava_powerhouse: true,
                bonus_2: true,
                the_machine: true,
                bonus_3: true,
                the_showdown: true,
            }),
    {
        Settings {
            start: true,
            reset: true,
            toxic_caves: true,
            bonus_1: true,
            lava_powerhouse: true,
            bonus_2: true,
            the_machine: true,
            bonus_3: true,
            the_showdown: true,
        }
    }
}

}
