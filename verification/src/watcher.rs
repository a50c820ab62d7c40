//! The generic "previous vs. current value" tracking primitive: a two-slot
//! history of one observed signal, the unit of edge detection.

use vstd::prelude::*;

verus! {

/// The two most recent readings of one observed value.
#[derive(Clone, Copy, PartialEq, Eq, Debug)]
pub struct Pair<T> {
    /// The reading before the latest one.
    pub previous: T,
    /// The latest reading.
    pub current: T,
}

/// A two-slot history of one observed value. `pair` is `None` until the
/// first successful observation primes it; no predicate may assume a pair
/// exists before checking.
#[derive(Clone, Copy, PartialEq, Eq, Debug)]
pub struct Watcher<T> {
    pub pair: Option<Pair<T>>,
}

/// The watcher after a reading `v` is shifted in: the old `current` slides
/// into `previous`; the very first reading fills both slots.
pub open spec fn shifted<T>(w: Watcher<T>, v: T) -> Watcher<T> {
    match w.pair {
        Some(p) => Watcher { pair: Some(Pair { previous: p.current, current: v }) },
        None => Watcher { pair: Some(Pair { previous: v, current: v }) },
    }
}

/// The watcher after a fallible refresh: an absent reading preserves the
/// existing history, a present one is shifted in.
pub open spec fn refreshed<T>(w: Watcher<T>, reading: Option<T>) -> Watcher<T> {
    match reading {
        Some(v) => shifted(w, v),
        None => w,
    }
}

impl<T: Copy> Watcher<T> {
    /// A watcher that has not yet observed anything.
    pub fn new() -> (w: Watcher<T>)
        ensures
            w.pair is None,
    {
        Watcher { pair: None }
    }

    /// Fallible refresh: an absent reading is a no-op, preserving whatever
    /// history exists, so a single transient read failure never corrupts
    /// the history; a present reading is shifted in.
    pub fn update(&mut self, reading: Option<T>)
        ensures
            reading matches Some(v) ==> *final(self) == shifted(*old(self), v),
            reading is None ==> *final(self) == *old(self),
    {
        match reading {
            Some(v) => {
                self.update_infallible(v);
            }
            None => {}
        }
    }

    /// Unconditional refresh with an already-defaulted reading; the history
    /// is always primed afterwards, and the freshly shifted pair is handed
    /// back.
    pub fn update_infallible(&mut self, reading: T) -> (p: Pair<T>)
        ensures
            *final(self) == shifted(*old(self), reading),
            final(self).pair == Some(p),
    {
        let p = match self.pair {
            Some(q) => Pair { previous: q.current, current: reading },
            None => Pair { previous: reading, current: reading },
        };
        self.pair = Some(p);
        p
    }
}

}
