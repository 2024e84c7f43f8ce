//! The resolver cache: an in-process mapping from numeric identifier to the
//! resolved image URL. It is the only state shared between requests; a server
//! wraps it in a mutual-exclusion primitive and keeps each `lookup` or
//! `insert` call short, never spanning network I/O.

use std::collections::HashMap;
use vstd::prelude::*;
use vstd::std_specs::hash::group_hash_axioms;

verus! {

broadcast use group_hash_axioms;

/// Mapping from identifier to resolved URL. Entries are written on first
/// successful resolution and only ever overwritten by a later resolution of
/// the same identifier (last write wins); nothing is evicted.
pub struct ResolverCache {
    map: HashMap<i32, String>,
}

impl View for ResolverCache {
    type V = Map<i32, Seq<char>>;

    closed spec fn view(&self) -> Map<i32, Seq<char>> {
        self.map@.map_values(|v: String| v@)
    }
}

impl ResolverCache {
    /// An empty cache, as a server constructs once at startup.
    pub fn new() -> (c: ResolverCache)
        ensures
            c@ == Map::<i32, Seq<char>>::empty(),
    {
        let c = ResolverCache { map: HashMap::new() };
        proof {
            assert(c@ =~= Map::<i32, Seq<char>>::empty());
        }
        c
    }

    /// Returns the URL cached for `id`, if any. Pure lookup: the cache is
    /// never changed by reading it.
    pub fn lookup(&self, id: i32) -> (r: Option<String>)
        ensures
            match r {
                Some(url) => self@.contains_key(id) && url@ == self@[id],
                None => !self@.contains_key(id),
            },
    {
        match self.map.get(&id) {
            Some(url) => Some(url.clone()),
            None => None,
        }
    }

    /// Records `url` for `id`, overwriting any earlier entry for `id` and
    /// leaving every other entry as it was.
    pub fn insert(&mut self, id: i32, url: String)
        ensures
            final(self)@ == old(self)@.insert(id, url@),
    {
        self.map.insert(id, url);
        proof {
            assert(final(self)@ =~= old(self)@.insert(id, url@));
        }
    }

    /// Number of identifiers resolved so far.
    pub fn len(&self) -> (n: usize)
        ensures
            n == self@.len(),
    {
        let n = self.map.len();
        proof {
            assert(self.map@.dom() =~= self@.dom());
        }
        n
    }
}

} // verus!
