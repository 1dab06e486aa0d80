use vstd::prelude::*;

verus! {

/// A hash table from pid values to slot indexes, backing the process-wide
/// registries. It wraps `hashbrown::HashMap`, which cannot be declared to
/// the verifier directly (its hasher and allocator type parameters are not
/// nameable from outside the crate), so the whole table sits behind the
/// trusted wrappers below, specified through `pid_map_entries`.
#[verifier::external_body]
pub struct PidMap {
    map: hashbrown::HashMap<usize, usize>,
}

/// What the table holds: the mathematical map from keys to values.
pub uninterp spec fn pid_map_entries(m: PidMap) -> Map<usize, usize>;

/// The lookup result that a map with entries `m` gives for key `k`.
pub open spec fn map_lookup(m: Map<usize, usize>, k: usize) -> Option<usize> {
    if m.dom().contains(k) {
        Some(m[k])
    } else {
        None
    }
}

impl PidMap {
    /// Relies on `hashbrown::HashMap::new`: a fresh table is empty.
    #[verifier::external_body]
    pub(crate) fn new() -> (r: Self)
        ensures
            forall|k: usize| !(#[trigger] pid_map_entries(r).dom().contains(k)),
    {
        PidMap { map: hashbrown::HashMap::new() }
    }

    /// Relies on `hashbrown::HashMap::insert`: afterwards `k` maps to `v`;
    /// the value `k` held before, if any, is returned.
    #[verifier::external_body]
    pub(crate) fn insert(&mut self, k: usize, v: usize) -> (r: Option<usize>)
        ensures
            pid_map_entries(*final(self)) == pid_map_entries(*old(self)).insert(k, v),
            r == map_lookup(pid_map_entries(*old(self)), k),
    {
        self.map.insert(k, v)
    }

    /// Relies on `hashbrown::HashMap::get`: the value `k` maps to, if any.
    #[verifier::external_body]
    pub(crate) fn get(&self, k: usize) -> (r: Option<usize>)
        ensures
            r == map_lookup(pid_map_entries(*self), k),
    {
        self.map.get(&k).copied()
    }

    /// Relies on `hashbrown::HashMap::remove`: afterwards `k` maps to
    /// nothing; the value it held, if any, is returned.
    #[verifier::external_body]
    pub(crate) fn remove(&mut self, k: usize) -> (r: Option<usize>)
        ensures
            pid_map_entries(*final(self)) == pid_map_entries(*old(self)).remove(k),
            r == map_lookup(pid_map_entries(*old(self)), k),
    {
        self.map.remove(&k)
    }
}

} // verus!
