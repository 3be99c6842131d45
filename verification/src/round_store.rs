//! The store of rounds: for each round that has received a contribution, the
//! partial keys collected so far.

use vstd::prelude::*;

use crate::assoc::{
    assoc_map, lacks_key, lemma_assoc_absent, lemma_assoc_lookup, lemma_assoc_push,
    lemma_assoc_update, unique_keys,
};
use crate::partial_key_list::{Contributions, PartialKeyList};

verus! {

/// The store as a map from the round's identifier to its contributions.
pub type Rounds = Map<u64, Contributions>;

/// What a round holds: its contributions, or none where the store has no
/// entry for it.
pub open spec fn round_or_empty(rounds: Rounds, key_id: u64) -> Contributions {
    if rounds.contains_key(key_id) {
        rounds[key_id]
    } else {
        Contributions::empty()
    }
}

/// Why the store could not serve a request.
#[derive(Debug, PartialEq, Eq, Structural, Clone, Copy)]
pub enum StoreError {
    /// The store has no entry for the round.
    NotFound(u64),
}

impl StoreError {
    /// The error in words.
    pub fn message(&self) -> (r: &'static str)
        ensures
            r@ == "no partial key list is stored for the round"@,
    {
        match self {
            StoreError::NotFound(_) => "no partial key list is stored for the round",
        }
    }
}

/// The rounds' lists, one per round identifier.
#[derive(Debug)]
pub struct RoundStore {
    rounds: Vec<PartialKeyList>,
}

/// The lists as pairs of round identifier and contributions.
pub open spec fn round_pairs(rounds: Seq<PartialKeyList>) -> Seq<(u64, Contributions)> {
    rounds.map_values(|l: PartialKeyList| (l.round(), l@))
}

impl View for RoundStore {
    type V = Rounds;

    closed spec fn view(&self) -> Rounds {
        assoc_map(round_pairs(self.rounds@))
    }
}

impl RoundStore {
    /// No round has two entries, and every list is well formed.
    pub closed spec fn wf(&self) -> bool {
        &&& unique_keys(round_pairs(self.rounds@))
        &&& forall|i: int| 0 <= i < self.rounds.len() ==> (#[trigger] self.rounds[i]).wf()
    }

    /// A store without rounds.
    pub fn new() -> (r: Self)
        ensures
            r.wf(),
            r@ == Rounds::empty(),
    {
        let r = RoundStore { rounds: Vec::new() };
        assert(r@ =~= Rounds::empty());
        r
    }

    fn position(&self, key_id: u64) -> (r: Option<usize>)
        ensures
            match r {
                Some(i) => i < self.rounds.len() && self.rounds[i as int].round() == key_id,
                None => lacks_key(round_pairs(self.rounds@), key_id),
            },
    {
        let mut i: usize = 0;
        while i < self.rounds.len()
            invariant
                i <= self.rounds.len(),
                forall|j: int| 0 <= j < i ==> round_pairs(self.rounds@)[j].0 != key_id,
            decreases self.rounds.len() - i,
        {
            if self.rounds[i].key_id() == key_id {
                return Some(i);
            }
            i += 1;
        }
        None
    }

    /// The contributions of round `key_id`; an error where the round has no
    /// entry yet.
    pub fn get(&self, key_id: u64) -> (r: Result<PartialKeyList, StoreError>)
        requires
            self.wf(),
        ensures
            match r {
                Ok(list) => {
                    &&& self@.contains_key(key_id)
                    &&& list@ == self@[key_id]
                    &&& list.round() == key_id
                    &&& list.wf()
                },
                Err(e) => !self@.contains_key(key_id) && e == StoreError::NotFound(key_id),
            },
    {
        match self.position(key_id) {
            Some(i) => {
                proof {
                    lemma_assoc_lookup(round_pairs(self.rounds@), i as int);
                }
                Ok(self.rounds[i].clone())
            },
            None => {
                proof {
                    lemma_assoc_absent(round_pairs(self.rounds@), key_id);
                }
                Err(StoreError::NotFound(key_id))
            },
        }
    }

    /// The contributions of round `key_id`, or the empty list of that round
    /// where it has no entry yet, for the caller to change and hand back to
    /// `update`.
    pub fn get_mut_or_default(&self, key_id: u64) -> (r: PartialKeyList)
        requires
            self.wf(),
        ensures
            r.wf(),
            r.round() == key_id,
            r@ == round_or_empty(self@, key_id),
    {
        match self.get(key_id) {
            Ok(list) => list,
            Err(_) => PartialKeyList::new(key_id),
        }
    }

    /// Stores `list` as the entry of its round, in place of the entry that the
    /// round had. The other rounds stay as they are.
    pub fn update(&mut self, list: PartialKeyList) -> (r: Result<(), StoreError>)
        requires
            old(self).wf(),
            list.wf(),
        ensures
            r is Ok,
            final(self).wf(),
            final(self)@ == old(self)@.insert(list.round(), list@),
    {
        let ghost before = round_pairs(self.rounds@);
        match self.position(list.key_id()) {
            Some(i) => {
                proof {
                    lemma_assoc_update(before, i as int, list@);
                }
                self.rounds.set(i, list);
                assert(round_pairs(self.rounds@) =~= before.update(
                    i as int,
                    (list.round(), list@),
                ));
            },
            None => {
                proof {
                    lemma_assoc_push(before, list.round(), list@);
                }
                self.rounds.push(list);
                assert(round_pairs(self.rounds@) =~= before.push((list.round(), list@)));
            },
        }
        Ok(())
    }

    /// Whether the store has an entry for round `key_id`.
    pub fn contains(&self, key_id: u64) -> (r: bool)
        requires
            self.wf(),
        ensures
            r == self@.contains_key(key_id),
    {
        match self.position(key_id) {
            Some(i) => {
                proof {
                    lemma_assoc_lookup(round_pairs(self.rounds@), i as int);
                }
                true
            },
            None => {
                proof {
                    lemma_assoc_absent(round_pairs(self.rounds@), key_id);
                }
                false
            },
        }
    }
}

} // verus!
