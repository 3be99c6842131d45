//! The cycle of a round: the node generates and broadcasts its partial key,
//! later combines what the round has collected, and then opens the next round.
//! The timers, the cryptography and the network stand outside; this module
//! decides what is due when a timer fires.

use vstd::prelude::*;

use crate::key_generator::{address_texts, KeyGeneratorList};
use crate::partial_key_list::{Contributions, PartialKeyList};
use crate::round_store::{RoundStore, StoreError};
use crate::sync_partial_key::SyncPartialKey;
use crate::types::{Address, PartialKey, PartialKeyProof};

verus! {

/// Where the current round stands.
#[derive(Debug, PartialEq, Eq, Structural, Clone, Copy)]
pub enum CyclePhase {
    /// The node has yet to generate and broadcast its partial key.
    AwaitingGeneration,
    /// The node has broadcast its partial key; the round's keys have yet to
    /// be combined.
    AwaitingAggregation,
    /// The round's partial keys were handed out for combination.
    Completed,
}

/// The timing state of the node: the current round, its phase, and the least
/// number of contributors with which a round may be combined.
#[derive(Debug, PartialEq, Eq, Structural, Clone, Copy)]
pub struct CycleScheduler {
    pub key_id: u64,
    pub phase: CyclePhase,
    pub quorum: usize,
}

/// What the node has to do after a timer fired.
#[derive(Debug)]
pub enum CycleAction {
    /// Nothing is due in the current phase.
    Wait,
    /// Generate this node's partial key and proof for the round and send them
    /// to every key generator of the cluster.
    Generate { key_id: u64 },
    /// Combine exactly these partial keys into the round's shared key.
    Combine { key_id: u64, partial_keys: PartialKeyList },
}

/// Why a round could not be combined. The round stays where it was.
#[derive(Debug, PartialEq, Eq, Structural, Clone, Copy)]
pub enum CycleError {
    /// The store has no entry for the round.
    Store(StoreError),
    /// The round has collected no partial key, or fewer than the quorum.
    BelowQuorum { key_id: u64, collected: usize, quorum: usize },
}

/// A round can be combined when somebody has contributed and the
/// contributors are at least `quorum`.
pub open spec fn has_quorum(contributions: Contributions, quorum: usize) -> bool {
    contributions.dom().len() >= 1 && contributions.dom().len() >= quorum
}

impl CycleScheduler {
    /// The scheduler at the start of round `key_id`.
    pub fn new(key_id: u64, quorum: usize) -> (r: Self)
        ensures
            r == (CycleScheduler { key_id, phase: CyclePhase::AwaitingGeneration, quorum }),
    {
        CycleScheduler { key_id, phase: CyclePhase::AwaitingGeneration, quorum }
    }

    /// The generation timer fired. A round that awaits generation moves on to
    /// await aggregation, and the node is told to generate and broadcast; in
    /// any other phase nothing happens.
    pub fn on_generation_cycle(&mut self) -> (r: CycleAction)
        ensures
            old(self).phase == CyclePhase::AwaitingGeneration ==> {
                &&& r == (CycleAction::Generate { key_id: old(self).key_id })
                &&& *final(self) == (CycleScheduler {
                    phase: CyclePhase::AwaitingAggregation,
                    ..*old(self)
                })
            },
            old(self).phase != CyclePhase::AwaitingGeneration ==> {
                &&& r == CycleAction::Wait
                &&& *final(self) == *old(self)
            },
    {
        match self.phase {
            CyclePhase::AwaitingGeneration => {
                self.phase = CyclePhase::AwaitingAggregation;
                CycleAction::Generate { key_id: self.key_id }
            },
            _ => CycleAction::Wait,
        }
    }

    /// The aggregation timer fired. A round that awaits aggregation and has
    /// its quorum is completed, and the node is handed exactly the round's
    /// list to combine. A round without an entry in the store, or below its
    /// quorum, is reported and stays where it is. In any other phase nothing
    /// happens.
    pub fn on_aggregation_cycle(&mut self, store: &RoundStore) -> (r: Result<
        CycleAction,
        CycleError,
    >)
        requires
            store.wf(),
        ensures
            match r {
                Ok(CycleAction::Combine { key_id, partial_keys }) => {
                    &&& old(self).phase == CyclePhase::AwaitingAggregation
                    &&& store@.contains_key(old(self).key_id)
                    &&& has_quorum(store@[old(self).key_id], old(self).quorum)
                    &&& key_id == old(self).key_id
                    &&& partial_keys.round() == key_id
                    &&& partial_keys.wf()
                    &&& partial_keys@ == store@[key_id]
                    &&& *final(self) == (CycleScheduler {
                        phase: CyclePhase::Completed,
                        ..*old(self)
                    })
                },
                Ok(CycleAction::Wait) => {
                    &&& old(self).phase != CyclePhase::AwaitingAggregation
                    &&& *final(self) == *old(self)
                },
                Ok(CycleAction::Generate { .. }) => false,
                Err(CycleError::Store(e)) => {
                    &&& old(self).phase == CyclePhase::AwaitingAggregation
                    &&& !store@.contains_key(old(self).key_id)
                    &&& e == StoreError::NotFound(old(self).key_id)
                    &&& *final(self) == *old(self)
                },
                Err(CycleError::BelowQuorum { key_id, collected, quorum }) => {
                    &&& old(self).phase == CyclePhase::AwaitingAggregation
                    &&& store@.contains_key(old(self).key_id)
                    &&& !has_quorum(store@[old(self).key_id], old(self).quorum)
                    &&& key_id == old(self).key_id
                    &&& collected == store@[key_id].dom().len()
                    &&& quorum == old(self).quorum
                    &&& *final(self) == *old(self)
                },
            },
    {
        match self.phase {
            CyclePhase::AwaitingAggregation => {},
            _ => {
                return Ok(CycleAction::Wait);
            },
        }
        let partial_keys = match store.get(self.key_id) {
            Ok(list) => list,
            Err(e) => {
                return Err(CycleError::Store(e));
            },
        };
        let collected = partial_keys.len();
        if collected == 0 || collected < self.quorum {
            return Err(
                CycleError::BelowQuorum { key_id: self.key_id, collected, quorum: self.quorum },
            );
        }
        self.phase = CyclePhase::Completed;
        Ok(CycleAction::Combine { key_id: self.key_id, partial_keys })
    }

    /// Opens the round after a completed one. Returns whether it did: a round
    /// that is not completed stays, and so does the last round that the
    /// identifier can name.
    pub fn open_next_round(&mut self) -> (r: bool)
        ensures
            r == (old(self).phase == CyclePhase::Completed && old(self).key_id < u64::MAX),
            r ==> *final(self) == (CycleScheduler {
                key_id: (old(self).key_id + 1) as u64,
                phase: CyclePhase::AwaitingGeneration,
                ..*old(self)
            }),
            !r ==> *final(self) == *old(self),
    {
        match self.phase {
            CyclePhase::Completed => {
                if self.key_id < u64::MAX {
                    self.key_id = self.key_id + 1;
                    self.phase = CyclePhase::AwaitingGeneration;
                    true
                } else {
                    false
                }
            },
            _ => false,
        }
    }
}

/// The messages by which `sender` hands its partial key for round `key_id`
/// to the cluster: for each registered key generator, in the order of
/// registration and the sender itself included where it is registered, the
/// peer's address and the submission to send there. Every peer is sent the
/// same submission.
pub fn broadcast(
    members: &KeyGeneratorList,
    sender: &Address,
    key_id: u64,
    partial_key: &PartialKey,
    partial_key_proof: &PartialKeyProof,
) -> (r: Vec<(Address, SyncPartialKey)>)
    ensures
        r@.len() == members@.len(),
        forall|i: int|
            0 <= i < r@.len() ==> {
                &&& (#[trigger] r@[i]).0@ == members@[i]
                &&& r@[i].1.address == *sender
                &&& r@[i].1.key_id == key_id
                &&& r@[i].1.partial_key == *partial_key
                &&& r@[i].1.partial_key_proof == *partial_key_proof
            },
{
    let peers = members.addresses();
    let mut out: Vec<(Address, SyncPartialKey)> = Vec::new();
    let mut i: usize = 0;
    while i < peers.len()
        invariant
            i <= peers.len(),
            out@.len() == i,
            address_texts(peers@) == members@,
            forall|j: int|
                0 <= j < i ==> {
                    &&& (#[trigger] out@[j]).0@ == members@[j]
                    &&& out@[j].1.address == *sender
                    &&& out@[j].1.key_id == key_id
                    &&& out@[j].1.partial_key == *partial_key
                    &&& out@[j].1.partial_key_proof == *partial_key_proof
                },
        decreases peers.len() - i,
    {
        let submission = SyncPartialKey {
            address: sender.clone(),
            key_id,
            partial_key: partial_key.clone(),
            partial_key_proof: partial_key_proof.clone(),
        };
        assert(address_texts(peers@)[i as int] == peers@[i as int]@);
        out.push((peers[i].clone(), submission));
        i += 1;
    }
    assert(address_texts(peers@).len() == peers@.len());
    out
}

} // verus!
