//! Core logic of an autosplitter for a pinball platformer: a two-slot
//! watcher primitive, the derivation of a canonical progress level from raw
//! memory fields, the three edge-triggered run predicates (start, split,
//! reset), and the per-tick decision function that combines them.
//!
//! All process attachment, memory reading and timer signalling is left to a
//! thin unverified shell; this crate works on the plain values the shell
//! hands it and decides which signal, if any, a tick emits.

use vstd::prelude::*;

pub mod laws;
pub mod levels;
pub mod settings;
pub mod state;
pub mod tick;
pub mod watcher;

verus! {

/// Body of the host's panic hook. The hook itself traps the module; the
/// core contributes no cleanup to it, and nothing in this crate ever calls
/// it: every verified function here is total and panic-free, so the hook
/// can only be reached from the unverified shell around the library.
pub fn panic() {
}

}
