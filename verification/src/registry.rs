//! Window registry: the per-desktop memory of the last active window,
//! keyed by desktop identifier. Last write wins; entries are never deleted,
//! only overwritten, and stale entries are re-validated by readers.

use std::collections::HashMap;
use vstd::prelude::*;

verus! {

broadcast use vstd::std_specs::hash::group_hash_axioms;

/// Map from desktop identifier to the handle of the window that was in the
/// foreground when the user last switched away from that desktop. A handle
/// is stored as a plain number; `0` never enters the registry (a null
/// handle is not a window).
pub struct WindowRegistry {
    remembered: HashMap<u32, u64>,
}

impl View for WindowRegistry {
    type V = Map<u32, u64>;

    closed spec fn view(&self) -> Map<u32, u64> {
        self.remembered@
    }
}

impl WindowRegistry {
    /// An empty registry: no desktop has a remembered window.
    pub fn new() -> (registry: WindowRegistry)
        ensures
            registry@ == Map::<u32, u64>::empty(),
    {
        WindowRegistry { remembered: HashMap::new() }
    }

    /// Records `handle` as the last active window of `desktop`, replacing
    /// any earlier entry for the same desktop: one remembered window per
    /// desktop identifier, last write wins.
    pub fn remember(&mut self, desktop: u32, handle: u64)
        ensures
            final(self)@ == old(self)@.insert(desktop, handle),
            final(self)@.dom() == old(self)@.dom().insert(desktop),
    {
        proof {
            assert(self@.insert(desktop, handle).dom() =~= self@.dom().insert(desktop));
        }
        self.remembered.insert(desktop, handle);
    }

    /// The remembered window for `desktop`, if a switch away from it ever
    /// recorded one. The handle may have gone stale since; callers must
    /// re-validate it before use.
    pub fn lookup(&self, desktop: u32) -> (handle: Option<u64>)
        ensures
            handle == if self@.contains_key(desktop) {
                Some(self@[desktop])
            } else {
                None::<u64>
            },
    {
        match self.remembered.get(&desktop) {
            Some(handle) => Some(*handle),
            None => None,
        }
    }
}

/// Law: recording a window for a desktop that already has an entry
/// overwrites that entry rather than adding a second one — the registry
/// keeps at most one remembered window per desktop identifier, and no
/// other desktop's entry is touched.
pub proof fn lemma_remember_overwrites(entries: Map<u32, u64>, desktop: u32, h1: u64, h2: u64)
    ensures
        entries.insert(desktop, h1).insert(desktop, h2) == entries.insert(desktop, h2),
        entries.insert(desktop, h1).dom() == entries.insert(desktop, h2).dom(),
        forall|other: u32|
            other != desktop && entries.contains_key(other) ==> #[trigger] entries.insert(
                desktop,
                h2,
            )[other] == entries[other],
{
    assert(entries.insert(desktop, h1).insert(desktop, h2) =~= entries.insert(desktop, h2));
    assert(entries.insert(desktop, h1).dom() =~= entries.insert(desktop, h2).dom());
}

} // verus!
