use std::collections::HashMap;
use vstd::prelude::*;

use crate::stats::{scope_key, ScopeKey, StatType, Stats};

verus! {

broadcast use vstd::std_specs::hash::group_hash_axioms;

/// The sample stored under `key`, if any.
pub open spec fn last_of(m: Map<ScopeKey, Stats>, key: ScopeKey) -> Option<Stats> {
    if m.contains_key(key) {
        Some(m[key])
    } else {
        None
    }
}

/// The life of a scope's entry: none before any store, the stored sample after a store,
/// and none again once it is cleared.
pub proof fn lemma_history_lifecycle(history: Map<ScopeKey, Stats>, key: ScopeKey, sample: Stats)
    ensures
        last_of(Map::<ScopeKey, Stats>::empty(), key) is None,
        last_of(history.insert(key, sample), key) == Some(sample),
        last_of(history.insert(key, sample).remove(key), key) is None,
{
}

/// The last sample observed for each scope: at most one per key, replaced whole on each
/// store.
#[derive(Clone, Debug)]
pub struct History {
    process: Option<Stats>,
    thread: HashMap<usize, Stats>,
    children: HashMap<usize, Stats>,
}

impl View for History {
    type V = Map<ScopeKey, Stats>;

    closed spec fn view(&self) -> Map<ScopeKey, Stats> {
        Map::new(
            |k: ScopeKey|
                match k {
                    ScopeKey::Process => self.process is Some,
                    ScopeKey::Thread(t) => self.thread@.contains_key(t),
                    ScopeKey::Children(t) => self.children@.contains_key(t),
                },
            |k: ScopeKey|
                match k {
                    ScopeKey::Process => self.process->0,
                    ScopeKey::Thread(t) => self.thread@[t],
                    ScopeKey::Children(t) => self.children@[t],
                },
        )
    }
}

impl Default for History {
    fn default() -> (r: History)
        ensures
            r@ == Map::<ScopeKey, Stats>::empty(),
    {
        let r = History { process: None, thread: HashMap::new(), children: HashMap::new() };
        assert(r@ =~= Map::<ScopeKey, Stats>::empty());
        r
    }
}

impl History {
    /// Stores `poll` as the last sample of `kind` for thread `thread`, and returns the
    /// sample it replaces.
    pub fn set_last(&mut self, kind: &StatType, thread: usize, poll: Stats) -> (r: Option<
        Stats,
    >)
        ensures
            r == last_of(old(self)@, scope_key(*kind, thread)),
            final(self)@ == old(self)@.insert(scope_key(*kind, thread), poll),
    {
        let last = self.get_last(kind, thread);
        match *kind {
            StatType::Process => {
                self.process = Some(poll);
            },
            StatType::Thread => {
                self.thread.insert(thread, poll);
            },
            StatType::Children => {
                self.children.insert(thread, poll);
            },
        }
        assert(self@ =~= old(self)@.insert(scope_key(*kind, thread), poll));
        last
    }

    /// The last sample of `kind` for thread `thread`, if any.
    pub fn get_last(&self, kind: &StatType, thread: usize) -> (r: Option<Stats>)
        ensures
            r == last_of(self@, scope_key(*kind, thread)),
    {
        match *kind {
            StatType::Process => self.process,
            StatType::Thread => match self.thread.get(&thread) {
                Some(s) => Some(*s),
                None => None,
            },
            StatType::Children => match self.children.get(&thread) {
                Some(s) => Some(*s),
                None => None,
            },
        }
    }

    /// Removes the last sample of `kind` for thread `thread`, and returns it.
    pub fn clear_last(&mut self, kind: &StatType, thread: usize) -> (r: Option<Stats>)
        ensures
            r == last_of(old(self)@, scope_key(*kind, thread)),
            final(self)@ == old(self)@.remove(scope_key(*kind, thread)),
    {
        let last = self.get_last(kind, thread);
        match *kind {
            StatType::Process => {
                self.process = None;
            },
            StatType::Thread => {
                self.thread.remove(&thread);
            },
            StatType::Children => {
                self.children.remove(&thread);
            },
        }
        assert(self@ =~= old(self)@.remove(scope_key(*kind, thread)));
        last
    }
}

} // verus!
