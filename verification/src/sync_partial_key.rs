//! The handler of `sync_partial_key`: a peer hands in a partial key for a
//! round, and the node admits it into the round's list or lets it pass
//! without a trace.

use vstd::prelude::*;

use crate::key_generator::KeyGeneratorList;
use crate::round_store::{round_or_empty, RoundStore, Rounds, StoreError};
use crate::types::{Address, PartialKey, PartialKeyProof};

verus! {

/// A peer's submission of a partial key for one round.
#[derive(Debug)]
pub struct SyncPartialKey {
    pub address: Address,
    pub key_id: u64,
    pub partial_key: PartialKey,
    pub partial_key_proof: PartialKeyProof,
}

/// A submission is admitted when its sender is a registered key generator
/// and its proof was found valid.
pub open spec fn admitted(members: Set<Seq<char>>, address: Seq<char>, proof_valid: bool) -> bool {
    members.contains(address) && proof_valid
}

/// The store after `address` has contributed `partial_key` to round `key_id`:
/// the round's list, or the empty list where the round had none, with the
/// entry of `address` set to `partial_key`.
pub open spec fn merged(
    rounds: Rounds,
    key_id: u64,
    address: Seq<char>,
    partial_key: Seq<char>,
) -> Rounds {
    rounds.insert(key_id, round_or_empty(rounds, key_id).insert(address, partial_key))
}

/// The store after a submission was handled: merged where the submission is
/// admitted, untouched where it is not.
pub open spec fn handled(
    rounds: Rounds,
    members: Set<Seq<char>>,
    proof_valid: bool,
    key_id: u64,
    address: Seq<char>,
    partial_key: Seq<char>,
) -> Rounds {
    if admitted(members, address, proof_valid) {
        merged(rounds, key_id, address, partial_key)
    } else {
        rounds
    }
}

impl SyncPartialKey {
    /// The name of the method on the wire.
    pub const METHOD_NAME: &'static str = "sync_partial_key";

    /// Whether the proof of this submission has to be checked at all: only a
    /// registered key generator's is.
    pub fn needs_proof_check(&self, members: &KeyGeneratorList) -> (r: bool)
        ensures
            r == members.member_set().contains(self.address@),
    {
        members.is_member(&self.address)
    }

    /// Handles one submission. `proof_valid` is the verdict on the
    /// submission's partial key and proof; it is not looked at for a sender
    /// that is no registered key generator. A submission from such a sender,
    /// or with an invalid proof, is passed over in silence: the store stays as
    /// it was and the call succeeds. An admitted one is merged into its
    /// round's list, over an earlier contribution of the same address.
    pub fn handler(
        parameter: SyncPartialKey,
        members: &KeyGeneratorList,
        proof_valid: bool,
        store: &mut RoundStore,
    ) -> (r: Result<(), StoreError>)
        requires
            old(store).wf(),
        ensures
            r is Ok,
            final(store).wf(),
            final(store)@ == handled(
                old(store)@,
                members.member_set(),
                proof_valid,
                parameter.key_id,
                parameter.address@,
                parameter.partial_key@,
            ),
    {
        let is_key_generator_in_cluster = members.is_member(&parameter.address);

        if is_key_generator_in_cluster {
            if !proof_valid {
                return Ok(());
            }
            let mut partial_key_list = store.get_mut_or_default(parameter.key_id);
            partial_key_list.insert(parameter.address, parameter.partial_key);
            match store.update(partial_key_list) {
                Ok(()) => {},
                Err(e) => {
                    return Err(e);
                },
            }
        }
        Ok(())
    }
}

/// A submission from an address that is no registered key generator leaves
/// the store as it was, whatever its proof.
pub proof fn lemma_authorization_gate(
    rounds: Rounds,
    members: Set<Seq<char>>,
    proof_valid: bool,
    key_id: u64,
    address: Seq<char>,
    partial_key: Seq<char>,
)
    requires
        !members.contains(address),
    ensures
        handled(rounds, members, proof_valid, key_id, address, partial_key) == rounds,
{
}

/// A submission with an invalid proof leaves the store as it was, also where
/// its sender is a registered key generator.
pub proof fn lemma_proof_gate(
    rounds: Rounds,
    members: Set<Seq<char>>,
    key_id: u64,
    address: Seq<char>,
    partial_key: Seq<char>,
)
    requires
        members.contains(address),
    ensures
        handled(rounds, members, false, key_id, address, partial_key) == rounds,
{
}

/// After a registered key generator's submission with a valid proof, the
/// round's list holds the partial key under the sender's address, whatever it
/// held there before, and every other entry of the round is as it was.
pub proof fn lemma_merge_correctness(
    rounds: Rounds,
    members: Set<Seq<char>>,
    key_id: u64,
    address: Seq<char>,
    partial_key: Seq<char>,
)
    requires
        members.contains(address),
    ensures
        ({
            let after = handled(rounds, members, true, key_id, address, partial_key);
            &&& after.contains_key(key_id)
            &&& after[key_id].contains_key(address)
            &&& after[key_id][address] == partial_key
            &&& forall|other: Seq<char>|
                other != address ==> (after[key_id].contains_key(other) <==> round_or_empty(
                    rounds,
                    key_id,
                ).contains_key(other))
            &&& forall|other: Seq<char>|
                other != address && after[key_id].contains_key(other) ==> after[key_id][other]
                    == round_or_empty(rounds, key_id)[other]
        }),
{
}

/// Handling the same submission twice gives the store that handling it once
/// gives.
pub proof fn lemma_idempotence(
    rounds: Rounds,
    members: Set<Seq<char>>,
    proof_valid: bool,
    key_id: u64,
    address: Seq<char>,
    partial_key: Seq<char>,
)
    ensures
        handled(
            handled(rounds, members, proof_valid, key_id, address, partial_key),
            members,
            proof_valid,
            key_id,
            address,
            partial_key,
        ) == handled(rounds, members, proof_valid, key_id, address, partial_key),
{
    let once = handled(rounds, members, proof_valid, key_id, address, partial_key);
    let twice = handled(once, members, proof_valid, key_id, address, partial_key);
    if admitted(members, address, proof_valid) {
        assert(round_or_empty(once, key_id).insert(address, partial_key) =~= round_or_empty(
            once,
            key_id,
        ));
        assert(twice =~= once);
    }
}

/// A submission for one round changes no other round: whether the other
/// round has an entry, and what the entry holds, stay as they were.
pub proof fn lemma_round_isolation(
    rounds: Rounds,
    members: Set<Seq<char>>,
    proof_valid: bool,
    key_id: u64,
    address: Seq<char>,
    partial_key: Seq<char>,
    other_key_id: u64,
)
    requires
        other_key_id != key_id,
    ensures
        ({
            let after = handled(rounds, members, proof_valid, key_id, address, partial_key);
            &&& after.contains_key(other_key_id) == rounds.contains_key(other_key_id)
            &&& round_or_empty(after, other_key_id) == round_or_empty(rounds, other_key_id)
        }),
{
}

/// Two admitted submissions from two distinct addresses for the same round
/// both stand in the round's list afterwards, and the store is the same
/// whichever of the two was handled first.
pub proof fn lemma_no_lost_updates(
    rounds: Rounds,
    members: Set<Seq<char>>,
    key_id: u64,
    first: Seq<char>,
    first_key: Seq<char>,
    second: Seq<char>,
    second_key: Seq<char>,
)
    requires
        members.contains(first),
        members.contains(second),
        first != second,
    ensures
        ({
            let one_way = handled(
                handled(rounds, members, true, key_id, first, first_key),
                members,
                true,
                key_id,
                second,
                second_key,
            );
            let other_way = handled(
                handled(rounds, members, true, key_id, second, second_key),
                members,
                true,
                key_id,
                first,
                first_key,
            );
            &&& one_way == other_way
            &&& one_way.contains_key(key_id)
            &&& one_way[key_id].contains_key(first) && one_way[key_id][first] == first_key
            &&& one_way[key_id].contains_key(second) && one_way[key_id][second] == second_key
        }),
{
    let a = handled(rounds, members, true, key_id, first, first_key);
    let one_way = handled(a, members, true, key_id, second, second_key);
    let b = handled(rounds, members, true, key_id, second, second_key);
    let other_way = handled(b, members, true, key_id, first, first_key);
    assert(one_way[key_id] =~= other_way[key_id]);
    assert(one_way =~= other_way);
}

} // verus!
