//! A scoped store of host callables, found again by handle.

use crate::error::BridgeError;
use std::collections::HashMap;
use vstd::prelude::*;

verus! {

broadcast use vstd::std_specs::hash::group_hash_axioms;

/// Names one callable of one registry. `scope` is the registry's own scope
/// (one per calling thread), `id` the number under which the callable is kept.
#[derive(Clone, Copy, Debug, PartialEq, Eq, Structural)]
pub struct CallbackHandle {
    pub scope: u64,
    pub id: u64,
}

/// Keeps callables of type `C` for as long as the call that registered them runs.
pub struct CallbackRegistry<C> {
    scope: u64,
    next_id: u64,
    entries: HashMap<u64, C>,
}

impl<C> CallbackRegistry<C> {
    /// Every number in use lies below the counter, so that no number handed
    /// out later collides with one in use.
    pub closed spec fn wf(&self) -> bool {
        forall|id: u64| #[trigger] self.entries@.dom().contains(id) ==> id < self.next_id
    }

    /// The scope that this registry serves.
    pub closed spec fn scope(&self) -> u64 {
        self.scope
    }

    /// The number that the next registered callable gets. It never goes down.
    pub closed spec fn next_id(&self) -> u64 {
        self.next_id
    }

    /// The callables held, by number.
    pub closed spec fn entries(&self) -> Map<u64, C> {
        self.entries@
    }

    /// Whether `handle` names a callable held here.
    pub open spec fn holds(&self, handle: CallbackHandle) -> bool {
        handle.scope == self.scope() && self.entries().dom().contains(handle.id)
    }

    /// An empty registry for one scope.
    pub fn new(scope: u64) -> (registry: Self)
        ensures
            registry.wf(),
            registry.scope() == scope,
            registry.next_id() == 0,
            registry.entries() == Map::<u64, C>::empty(),
    {
        CallbackRegistry { scope, next_id: 0, entries: HashMap::new() }
    }

    /// In a well-formed registry every number in use lies below the counter.
    pub proof fn lemma_entries_below_counter(&self)
        requires
            self.wf(),
        ensures
            forall|id: u64| #[trigger] self.entries().dom().contains(id) ==> id < self.next_id(),
    {
    }

    /// Stores `callable` under a number never used before in this registry.
    pub fn register(&mut self, callable: C) -> (handle: CallbackHandle)
        requires
            old(self).wf(),
            old(self).next_id() < u64::MAX,
        ensures
            final(self).wf(),
            handle == (CallbackHandle { scope: old(self).scope(), id: old(self).next_id() }),
            !old(self).holds(handle),
            final(self).holds(handle),
            final(self).entries() == old(self).entries().insert(handle.id, callable),
            final(self).next_id() == old(self).next_id() + 1,
            final(self).scope() == old(self).scope(),
    {
        let id: u64 = self.next_id;
        self.entries.insert(id, callable);
        self.next_id = id + 1;
        CallbackHandle { scope: self.scope, id }
    }

    /// Finds the callable that `handle` names. A handle of another scope, or
    /// one released before, is refused.
    pub fn resolve(&self, handle: CallbackHandle) -> (found: Result<&C, BridgeError>)
        ensures
            self.holds(handle) ==> found is Ok && *found->Ok_0 == self.entries()[handle.id],
            !self.holds(handle) ==> found is Err && found->Err_0@
                is UnknownCallback,
    {
        if handle.scope != self.scope {
            return Err(BridgeError::UnknownCallback);
        }
        match self.entries.get(&handle.id) {
            Some(callable) => Ok(callable),
            None => Err(BridgeError::UnknownCallback),
        }
    }

    /// Drops the callable that `handle` names, if it is held here. The counter
    /// stays, so the number is not handed out again.
    pub fn release(&mut self, handle: CallbackHandle)
        requires
            old(self).wf(),
        ensures
            final(self).wf(),
            final(self).entries() == if old(self).holds(handle) {
                old(self).entries().remove(handle.id)
            } else {
                old(self).entries()
            },
            !final(self).holds(handle),
            final(self).next_id() == old(self).next_id(),
            final(self).scope() == old(self).scope(),
    {
        if handle.scope == self.scope {
            self.entries.remove(&handle.id);
            assert(self.entries@ =~= old(self).entries@.remove(handle.id));
        }
    }

    /// Whether the counter can still hand out a number, which `register` needs.
    pub fn has_room(&self) -> (b: bool)
        ensures
            b == (self.next_id() < u64::MAX),
    {
        self.next_id < u64::MAX
    }

    /// How many callables are held.
    pub fn len(&self) -> (n: usize)
        ensures
            n == self.entries().len(),
    {
        self.entries.len()
    }
}

} // verus!
