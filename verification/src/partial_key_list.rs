//! The partial keys contributed to one round, by contributor.

use vstd::prelude::*;

use crate::assoc::{
    assoc_map, lacks_key, lemma_assoc_absent, lemma_assoc_len, lemma_assoc_lookup,
    lemma_assoc_push, lemma_assoc_update, unique_keys,
};
use crate::types::{Address, PartialKey};

verus! {

/// The contributions to one round as a map from the contributor's address to
/// the partial key.
pub type Contributions = Map<Seq<char>, Seq<char>>;

/// The contributions collected for one round. Each address has at most one
/// entry: a later contribution replaces the earlier one.
#[derive(Debug)]
pub struct PartialKeyList {
    key_id: u64,
    entries: Vec<(Address, PartialKey)>,
}

/// The entries as pairs of plain values.
pub open spec fn entry_pairs(entries: Seq<(Address, PartialKey)>) -> Seq<(Seq<char>, Seq<char>)> {
    entries.map_values(|e: (Address, PartialKey)| (e.0@, e.1@))
}

impl View for PartialKeyList {
    type V = Contributions;

    closed spec fn view(&self) -> Contributions {
        assoc_map(entry_pairs(self.entries@))
    }
}

impl PartialKeyList {
    /// No address has two entries.
    pub closed spec fn wf(&self) -> bool {
        unique_keys(entry_pairs(self.entries@))
    }

    /// The round that the list belongs to.
    pub closed spec fn round(&self) -> u64 {
        self.key_id
    }

    /// The list of a round to which nobody has contributed yet.
    pub fn new(key_id: u64) -> (r: Self)
        ensures
            r.wf(),
            r.round() == key_id,
            r@ == Contributions::empty(),
    {
        let r = PartialKeyList { key_id, entries: Vec::new() };
        assert(r@ =~= Contributions::empty());
        r
    }

    /// The round that the list belongs to.
    pub fn key_id(&self) -> (r: u64)
        ensures
            r == self.round(),
    {
        self.key_id
    }

    /// The number of contributors.
    pub fn len(&self) -> (r: usize)
        requires
            self.wf(),
        ensures
            self@.dom().finite(),
            r == self@.dom().len(),
    {
        proof {
            lemma_assoc_len(entry_pairs(self.entries@));
        }
        self.entries.len()
    }

    /// Whether nobody has contributed.
    pub fn is_empty(&self) -> (r: bool)
        requires
            self.wf(),
        ensures
            r == (self@ == Contributions::empty()),
    {
        proof {
            lemma_assoc_len(entry_pairs(self.entries@));
            if self.entries.len() == 0 {
                assert(self@ =~= Contributions::empty());
            }
        }
        self.entries.len() == 0
    }

    fn position(&self, address: &Address) -> (r: Option<usize>)
        ensures
            match r {
                Some(i) => i < self.entries.len() && self.entries[i as int].0@ == address@,
                None => lacks_key(entry_pairs(self.entries@), address@),
            },
    {
        let mut i: usize = 0;
        while i < self.entries.len()
            invariant
                i <= self.entries.len(),
                forall|j: int| 0 <= j < i ==> entry_pairs(self.entries@)[j].0 != address@,
            decreases self.entries.len() - i,
        {
            if self.entries[i].0.value == address.value {
                return Some(i);
            }
            i += 1;
        }
        None
    }

    /// The partial key that `address` contributed, if any.
    pub fn get(&self, address: &Address) -> (r: Option<PartialKey>)
        requires
            self.wf(),
        ensures
            match r {
                Some(key) => self@.contains_key(address@) && key@ == self@[address@],
                None => !self@.contains_key(address@),
            },
    {
        match self.position(address) {
            Some(i) => {
                proof {
                    lemma_assoc_lookup(entry_pairs(self.entries@), i as int);
                }
                Some(self.entries[i].1.clone())
            },
            None => {
                proof {
                    lemma_assoc_absent(entry_pairs(self.entries@), address@);
                }
                None
            },
        }
    }

    /// Records the contribution of `address`, in place of an earlier one from
    /// the same address if there is one.
    pub fn insert(&mut self, address: Address, partial_key: PartialKey)
        requires
            old(self).wf(),
        ensures
            final(self).wf(),
            final(self).round() == old(self).round(),
            final(self)@ == old(self)@.insert(address@, partial_key@),
    {
        let ghost before = entry_pairs(self.entries@);
        match self.position(&address) {
            Some(i) => {
                proof {
                    lemma_assoc_update(before, i as int, partial_key@);
                }
                self.entries.set(i, (address, partial_key));
                assert(entry_pairs(self.entries@) =~= before.update(
                    i as int,
                    (address@, partial_key@),
                ));
            },
            None => {
                proof {
                    lemma_assoc_push(before, address@, partial_key@);
                }
                self.entries.push((address, partial_key));
                assert(entry_pairs(self.entries@) =~= before.push((address@, partial_key@)));
            },
        }
    }

    /// The contributions as pairs, one for each contributor.
    pub fn to_vec(&self) -> (r: Vec<(Address, PartialKey)>)
        requires
            self.wf(),
        ensures
            unique_keys(entry_pairs(r@)),
            assoc_map(entry_pairs(r@)) == self@,
    {
        let mut out: Vec<(Address, PartialKey)> = Vec::new();
        let mut i: usize = 0;
        while i < self.entries.len()
            invariant
                i <= self.entries.len(),
                out@.len() == i,
                forall|j: int| 0 <= j < i ==> out@[j] == self.entries@[j],
            decreases self.entries.len() - i,
        {
            out.push((self.entries[i].0.clone(), self.entries[i].1.clone()));
            i += 1;
        }
        assert(entry_pairs(out@) =~= entry_pairs(self.entries@));
        out
    }
}

impl Clone for PartialKeyList {
    fn clone(&self) -> (r: Self)
        ensures
            r@ == self@,
            r.round() == self.round(),
            r.wf() == self.wf(),
    {
        let mut out: Vec<(Address, PartialKey)> = Vec::new();
        let mut i: usize = 0;
        while i < self.entries.len()
            invariant
                i <= self.entries.len(),
                out@.len() == i,
                forall|j: int| 0 <= j < i ==> out@[j] == self.entries@[j],
            decreases self.entries.len() - i,
        {
            out.push((self.entries[i].0.clone(), self.entries[i].1.clone()));
            i += 1;
        }
        assert(entry_pairs(out@) =~= entry_pairs(self.entries@));
        PartialKeyList { key_id: self.key_id, entries: out }
    }
}

} // verus!
