//! The name-to-entry registry a dispatcher reads on every call.
//!
//! The registry maps names to [`RemoteProcedure`] entries. Its view is the
//! mathematical map from the name's characters to the stored entry;
//! registering under an existing name replaces the entry, never mutates it.
//! Following alias hops, and guarding against alias chains that never reach
//! a handler, is the caller's responsibility.

use vstd::hash_map::StringHashMap;
use vstd::prelude::*;

use crate::calls::RemoteProcedure;

verus! {

/// Stores remote-procedure entries under their registered names.
#[verifier::reject_recursive_types(M)]
#[verifier::reject_recursive_types(N)]
pub struct Registry<M, N> {
    entries: StringHashMap<RemoteProcedure<M, N>>,
}

impl<M, N> View for Registry<M, N> {
    type V = Map<Seq<char>, RemoteProcedure<M, N>>;

    closed spec fn view(&self) -> Map<Seq<char>, RemoteProcedure<M, N>> {
        self.entries@
    }
}

impl<M, N> Registry<M, N> {
    /// Creates an empty registry.
    pub fn new() -> (r: Registry<M, N>)
        ensures
            r@ == Map::<Seq<char>, RemoteProcedure<M, N>>::empty(),
    {
        Registry { entries: StringHashMap::new() }
    }

    /// Stores an entry under a name. A previously registered entry of the
    /// same name is replaced.
    pub fn register(&mut self, name: String, entry: RemoteProcedure<M, N>)
        ensures
            final(self)@ == old(self)@.insert(name@, entry),
    {
        self.entries.insert(name, entry);
    }

    /// Looks a name up: the entry registered under it, or absent. Alias
    /// entries are returned as they stand; hop-following is the caller's
    /// responsibility.
    pub fn resolve(&self, name: &str) -> (entry: Option<&RemoteProcedure<M, N>>)
        ensures
            match entry {
                Some(e) => self@.contains_key(name@) && *e == self@[name@],
                None => !self@.contains_key(name@),
            },
    {
        self.entries.get(name)
    }

    /// The number of registered names.
    pub fn len(&self) -> (n: usize)
        ensures
            n == self@.len(),
    {
        self.entries.len()
    }
}

} // verus!
