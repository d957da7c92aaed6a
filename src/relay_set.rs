//! The allow-list: a set of router identities held in a hashbrown `HashSet`.

use vstd::prelude::*;

verus! {

/// A set of router identities, keyed by their raw bytes.
#[verifier::external_body]
#[derive(Debug)]
pub struct RelaySet {
    set: hashbrown::HashSet<[u8; 32]>,
}

/// The identities that a relay set holds, as byte sequences.
pub uninterp spec fn relay_set_members(s: RelaySet) -> Set<Seq<u8>>;

impl View for RelaySet {
    type V = Set<Seq<u8>>;

    open spec fn view(&self) -> Set<Seq<u8>> {
        relay_set_members(*self)
    }
}

impl RelaySet {
    /// Relies on `hashbrown::HashSet::new`: the new set holds nothing.
    #[verifier::external_body]
    pub(crate) fn new() -> (r: Self)
        ensures
            relay_set_members(r) == Set::<Seq<u8>>::empty(),
    {
        RelaySet { set: hashbrown::HashSet::new() }
    }

    /// Relies on `hashbrown::HashSet::insert`: afterwards the set holds the
    /// identity, besides what it held before.
    #[verifier::external_body]
    pub(crate) fn insert(&mut self, id: [u8; 32])
        ensures
            relay_set_members(*final(self)) == relay_set_members(*old(self)).insert(id@),
    {
        self.set.insert(id);
    }

    /// Relies on `hashbrown::HashSet::contains`: whether the identity is held.
    #[verifier::external_body]
    pub(crate) fn contains(&self, id: &[u8; 32]) -> (r: bool)
        ensures
            r == relay_set_members(*self).contains(id@),
    {
        self.set.contains(id)
    }

    /// Relies on `hashbrown::HashSet::len`: the number of identities held.
    #[verifier::external_body]
    pub(crate) fn len(&self) -> (r: usize)
        ensures
            r == relay_set_members(*self).len(),
    {
        self.set.len()
    }
}

} // verus!
