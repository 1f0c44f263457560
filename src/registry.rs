use std::collections::HashMap;
use vstd::prelude::*;
use crate::key::{CorrelationKey, lemma_code_injective};

verus! {

broadcast use {lemma_code_injective, vstd::std_specs::hash::group_hash_axioms};

/// The value a map holds under a key, if any.
pub open spec fn lookup<K, V>(m: Map<K, V>, k: K) -> Option<V> {
    if m.contains_key(k) {
        Some(m[k])
    } else {
        None
    }
}

/// The table of one-shot sinks and the table of persistent handlers.
///
/// Each table holds at most one entry per key. A one-shot sink leaves its
/// table when it is resolved; a persistent handler stays until replaced.
pub struct Registry<S, H> {
    one_shot: HashMap<u32, S>,
    persistent: HashMap<u32, H>,
}

impl<S, H> Registry<S, H> {
    /// The one-shot sinks, by key.
    pub closed spec fn waiters(&self) -> Map<CorrelationKey, S> {
        Map::new(
            |k: CorrelationKey| self.one_shot@.contains_key(k.spec_code()),
            |k: CorrelationKey| self.one_shot@[k.spec_code()],
        )
    }

    /// The persistent handlers, by key.
    pub closed spec fn handlers(&self) -> Map<CorrelationKey, H> {
        Map::new(
            |k: CorrelationKey| self.persistent@.contains_key(k.spec_code()),
            |k: CorrelationKey| self.persistent@[k.spec_code()],
        )
    }

    /// An empty registry.
    pub fn new() -> (r: Self)
        ensures
            r.waiters() == Map::<CorrelationKey, S>::empty(),
            r.handlers() == Map::<CorrelationKey, H>::empty(),
    {
        let r = Registry { one_shot: HashMap::new(), persistent: HashMap::new() };
        assert(r.waiters() =~= Map::<CorrelationKey, S>::empty());
        assert(r.handlers() =~= Map::<CorrelationKey, H>::empty());
        r
    }

    /// Puts `sink` under `key` in the one-shot table and hands back the sink
    /// that it replaces, which is then never resolved.
    pub fn register_one_shot(&mut self, key: CorrelationKey, sink: S) -> (prior: Option<S>)
        ensures
            final(self).waiters() == old(self).waiters().insert(key, sink),
            final(self).handlers() == old(self).handlers(),
            prior == lookup(old(self).waiters(), key),
    {
        let code = key.code();
        let prior = self.one_shot.insert(code, sink);
        assert(self.waiters() =~= old(self).waiters().insert(key, sink));
        assert(self.handlers() =~= old(self).handlers());
        prior
    }

    /// Puts `handler` under `key` in the persistent table and hands back the
    /// handler that it replaces.
    pub fn register_persistent(&mut self, key: CorrelationKey, handler: H) -> (prior: Option<H>)
        ensures
            final(self).handlers() == old(self).handlers().insert(key, handler),
            final(self).waiters() == old(self).waiters(),
            prior == lookup(old(self).handlers(), key),
    {
        let code = key.code();
        let prior = self.persistent.insert(code, handler);
        assert(self.handlers() =~= old(self).handlers().insert(key, handler));
        assert(self.waiters() =~= old(self).waiters());
        prior
    }

    /// Takes the one-shot sink under `key` out of its table, in one step.
    /// `None` when no sink waits there.
    pub fn resolve_and_remove(&mut self, key: CorrelationKey) -> (r: Option<S>)
        ensures
            r == lookup(old(self).waiters(), key),
            final(self).waiters() == old(self).waiters().remove(key),
            final(self).handlers() == old(self).handlers(),
    {
        let code = key.code();
        let r = self.one_shot.remove(&code);
        assert(self.waiters() =~= old(self).waiters().remove(key));
        assert(self.handlers() =~= old(self).handlers());
        r
    }

    /// The persistent handler under `key`, left in place.
    pub fn dispatch_persistent(&self, key: CorrelationKey) -> (r: Option<&H>)
        ensures
            match r {
                Some(h) => lookup(self.handlers(), key) == Some(*h),
                None => lookup(self.handlers(), key) == None::<H>,
            },
    {
        let code = key.code();
        self.persistent.get(&code)
    }

    /// Whether a persistent handler is registered under `key`.
    pub fn has_handler(&self, key: CorrelationKey) -> (r: bool)
        ensures
            r == self.handlers().contains_key(key),
    {
        let code = key.code();
        self.persistent.contains_key(&code)
    }

    /// Whether a one-shot sink waits under `key`.
    pub fn is_pending(&self, key: CorrelationKey) -> (r: bool)
        ensures
            r == self.waiters().contains_key(key),
    {
        let code = key.code();
        self.one_shot.contains_key(&code)
    }
}

} // verus!
