use dkg_sync::cycle::{broadcast, CycleAction, CycleError, CyclePhase, CycleScheduler};
use dkg_sync::key_generator::KeyGeneratorList;
use dkg_sync::round_store::{RoundStore, StoreError};
use dkg_sync::sync_partial_key::SyncPartialKey;
use dkg_sync::types::{Address, PartialKey, PartialKeyProof};

fn store_with(key_id: u64, contributions: &[(&str, &str)], members: &KeyGeneratorList) -> RoundStore {
    let mut store = RoundStore::new();
    for (address, partial_key) in contributions {
        let parameter = SyncPartialKey {
            address: Address::new(address),
            key_id,
            partial_key: PartialKey::new(partial_key),
            partial_key_proof: PartialKeyProof::new("proof"),
        };
        SyncPartialKey::handler(parameter, members, true, &mut store).unwrap();
    }
    store
}

fn two_members() -> KeyGeneratorList {
    let mut members = KeyGeneratorList::new();
    members.register(Address::new("A"));
    members.register(Address::new("B"));
    members
}

#[test]
fn aggregation_hands_out_exactly_the_rounds_list() {
    let members = two_members();
    let store = store_with(7, &[("A", "PK1"), ("B", "PK2")], &members);
    let mut scheduler = CycleScheduler::new(7, 2);
    assert!(matches!(scheduler.on_generation_cycle(), CycleAction::Generate { key_id: 7 }));

    match scheduler.on_aggregation_cycle(&store) {
        Ok(CycleAction::Combine { key_id, partial_keys }) => {
            assert_eq!(key_id, 7);
            assert_eq!(partial_keys.key_id(), 7);
            assert_eq!(partial_keys.len(), 2);
            assert_eq!(
                partial_keys.to_vec(),
                vec![
                    (Address::new("A"), PartialKey::new("PK1")),
                    (Address::new("B"), PartialKey::new("PK2")),
                ]
            );
        }
        other => panic!("unexpected: {:?}", other),
    }
    assert_eq!(
        scheduler,
        CycleScheduler { key_id: 7, phase: CyclePhase::Completed, quorum: 2 }
    );
}

#[test]
fn a_round_walks_through_its_phases() {
    let members = two_members();
    let store = store_with(0, &[("A", "PK1")], &members);
    let mut scheduler = CycleScheduler::new(0, 1);
    assert_eq!(
        scheduler,
        CycleScheduler { key_id: 0, phase: CyclePhase::AwaitingGeneration, quorum: 1 }
    );
    assert!(matches!(scheduler.on_aggregation_cycle(&store), Ok(CycleAction::Wait)));
    assert_eq!(scheduler.phase, CyclePhase::AwaitingGeneration);
    assert!(!scheduler.open_next_round());

    assert!(matches!(scheduler.on_generation_cycle(), CycleAction::Generate { key_id: 0 }));
    assert_eq!(scheduler.phase, CyclePhase::AwaitingAggregation);
    assert!(matches!(scheduler.on_generation_cycle(), CycleAction::Wait));
    assert_eq!(scheduler.phase, CyclePhase::AwaitingAggregation);
    assert!(!scheduler.open_next_round());

    assert!(matches!(
        scheduler.on_aggregation_cycle(&store),
        Ok(CycleAction::Combine { key_id: 0, .. })
    ));
    assert_eq!(scheduler.phase, CyclePhase::Completed);
    assert!(matches!(scheduler.on_generation_cycle(), CycleAction::Wait));
    assert!(matches!(scheduler.on_aggregation_cycle(&store), Ok(CycleAction::Wait)));

    assert!(scheduler.open_next_round());
    assert_eq!(
        scheduler,
        CycleScheduler { key_id: 1, phase: CyclePhase::AwaitingGeneration, quorum: 1 }
    );
}

#[test]
fn aggregation_reports_a_round_without_entry() {
    let store = RoundStore::new();
    let mut scheduler = CycleScheduler::new(7, 1);
    scheduler.on_generation_cycle();
    match scheduler.on_aggregation_cycle(&store) {
        Err(e) => assert_eq!(e, CycleError::Store(StoreError::NotFound(7))),
        Ok(action) => panic!("unexpected: {:?}", action),
    }
    assert_eq!(
        scheduler,
        CycleScheduler { key_id: 7, phase: CyclePhase::AwaitingAggregation, quorum: 1 }
    );
}

#[test]
fn aggregation_reports_a_round_below_quorum() {
    let members = two_members();
    let store = store_with(7, &[("A", "PK1"), ("B", "PK2")], &members);
    let mut scheduler = CycleScheduler::new(7, 3);
    scheduler.on_generation_cycle();
    match scheduler.on_aggregation_cycle(&store) {
        Err(e) => {
            assert_eq!(e, CycleError::BelowQuorum { key_id: 7, collected: 2, quorum: 3 })
        }
        Ok(action) => panic!("unexpected: {:?}", action),
    }
    assert_eq!(scheduler.phase, CyclePhase::AwaitingAggregation);
    assert_eq!(scheduler.key_id, 7);
}

#[test]
fn aggregation_reports_an_empty_round_even_without_quorum() {
    let mut store = RoundStore::new();
    let empty = store.get_mut_or_default(7);
    store.update(empty).unwrap();
    let mut scheduler = CycleScheduler::new(7, 0);
    scheduler.on_generation_cycle();
    match scheduler.on_aggregation_cycle(&store) {
        Err(e) => {
            assert_eq!(e, CycleError::BelowQuorum { key_id: 7, collected: 0, quorum: 0 })
        }
        Ok(action) => panic!("unexpected: {:?}", action),
    }
    assert_eq!(scheduler.phase, CyclePhase::AwaitingAggregation);
}

#[test]
fn the_last_round_has_no_next() {
    let mut scheduler =
        CycleScheduler { key_id: u64::MAX, phase: CyclePhase::Completed, quorum: 1 };
    assert!(!scheduler.open_next_round());
    assert_eq!(
        scheduler,
        CycleScheduler { key_id: u64::MAX, phase: CyclePhase::Completed, quorum: 1 }
    );
    let mut scheduler =
        CycleScheduler { key_id: u64::MAX - 1, phase: CyclePhase::Completed, quorum: 1 };
    assert!(scheduler.open_next_round());
    assert_eq!(scheduler.key_id, u64::MAX);
}

#[test]
fn broadcast_goes_to_every_member() {
    let members = two_members();
    let messages = broadcast(
        &members,
        &Address::new("A"),
        9,
        &PartialKey::new("PK1"),
        &PartialKeyProof::new("P1"),
    );
    assert_eq!(messages.len(), 2);
    assert_eq!(messages[0].0, Address::new("A"));
    assert_eq!(messages[1].0, Address::new("B"));
    for (_, parameter) in &messages {
        assert_eq!(parameter.address, Address::new("A"));
        assert_eq!(parameter.key_id, 9);
        assert_eq!(parameter.partial_key, PartialKey::new("PK1"));
        assert_eq!(parameter.partial_key_proof.encoded, "P1");
    }
}

#[test]
fn broadcast_in_an_empty_cluster_sends_nothing() {
    let messages = broadcast(
        &KeyGeneratorList::new(),
        &Address::new("A"),
        1,
        &PartialKey::new("PK1"),
        &PartialKeyProof::new("P1"),
    );
    assert!(messages.is_empty());
}
