//! The canonical progress level and its derivation from the raw area and
//! sub-area discriminants.
//!
//! The raw sub-area identifier aliases between a main stage and its bonus
//! stage; the global run-phase byte's sentinel value `6` disambiguates
//! "currently inside a bonus stage" from "currently inside the following
//! main stage".

use vstd::prelude::*;

verus! {

/// Run-phase value meaning "a bonus stage is active"; it tells a bonus
/// stage apart from the main stage that shares its raw sub-area id.
pub const PHASE_BONUS_STAGE: u8 = 6;

/// The seven mutually exclusive stages of progress, in the one legal
/// forward order: each run visits them exactly in declaration order.
#[derive(Clone, Copy, PartialEq, Eq, Hash, Structural, Debug)]
pub enum Levels {
    ToxicCaves,
    Bonus1,
    LavaPowerHouse,
    Bonus2,
    TheMachine,
    Bonus3,
    TheShowdown,
}

/// The stage that legally follows `level`, or `None` for the last one.
pub open spec fn spec_next_level(level: Levels) -> Option<Levels> {
    match level {
        Levels::ToxicCaves => Some(Levels::Bonus1),
        Levels::Bonus1 => Some(Levels::LavaPowerHouse),
        Levels::LavaPowerHouse => Some(Levels::Bonus2),
        Levels::Bonus2 => Some(Levels::TheMachine),
        Levels::TheMachine => Some(Levels::Bonus3),
        Levels::Bonus3 => Some(Levels::TheShowdown),
        Levels::TheShowdown => None,
    }
}

/// The decision table mapping the raw discriminants and the current
/// run-phase byte to the canonical level. `area_id` values outside 1..=3,
/// including the zero seen before any area has been populated, fall through
/// to the first stage.
pub open spec fn spec_classify(area_id: u8, sub_id: u8, phase_current: u8) -> Levels {
    let in_bonus = (sub_id == 1 || sub_id == 2) && phase_current == PHASE_BONUS_STAGE;
    if area_id == 1 {
        if in_bonus { Levels::Bonus1 } else { Levels::LavaPowerHouse }
    } else if area_id == 2 {
        if in_bonus { Levels::Bonus2 } else { Levels::TheMachine }
    } else if area_id == 3 {
        if in_bonus { Levels::Bonus3 } else { Levels::TheShowdown }
    } else {
        Levels::ToxicCaves
    }
}

/// Derives the canonical level from the two raw discriminant bytes and the
/// current run-phase byte. Classification is total: every combination of
/// raw bytes yields a level.
pub fn classify(area_id: u8, sub_id: u8, phase_current: u8) -> (level: Levels)
    ensures
        level == spec_classify(area_id, sub_id, phase_current),
{
    match area_id {
        1 => match sub_id {
            1 | 2 => if phase_current == PHASE_BONUS_STAGE { Levels::Bonus1 } else { Levels::LavaPowerHouse },
            _ => Levels::LavaPowerHouse,
        },
        2 => match sub_id {
            1 | 2 => if phase_current == PHASE_BONUS_STAGE { Levels::Bonus2 } else { Levels::TheMachine },
            _ => Levels::TheMachine,
        },
        3 => match sub_id {
            1 | 2 => if phase_current == PHASE_BONUS_STAGE { Levels::Bonus3 } else { Levels::TheShowdown },
            _ => Levels::TheShowdown,
        },
        _ => Levels::ToxicCaves,
    }
}

}
