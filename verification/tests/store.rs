use oan_engine::brain::Strategy;
use oan_engine::store::{BrainStore, MatchOutcome, RelationshipSnapshot, StoreError};

#[test]
fn spawn_assigns_fresh_distinct_ids() {
    let mut store = BrainStore::new();
    let a = store.spawn("Ada", "combat");
    let b = store.spawn("Bo", "combat");
    let c = store.spawn("Cy", "combat");
    assert_eq!(a, 1);
    assert_eq!(b, 2);
    assert_eq!(c, 3);
    assert_eq!(store.alive_count(), 3);
}

#[test]
fn store_tie_goes_to_the_second_entity() {
    // Scenario: two freshly spawned entities, default skills 50 each,
    // confidence 0.5, balanced strategy, no prior relationship.  Each base
    // score is 4 * 50 * 1.1 = 220 in millionths, times the balanced
    // multiplier of 1.0 in tenths: equal adjusted scores, and the winner
    // needs a strictly greater score, so the tie is reported for B.
    let mut store = BrainStore::new();
    let a = store.spawn("A", "combat");
    let b = store.spawn("B", "combat");
    let out = store.simulate_match(a, b).unwrap();
    assert_eq!(
        out,
        MatchOutcome { score_a: 2_200_000_000, score_b: 2_200_000_000, winner: 2 }
    );
}

#[test]
fn losing_updates_the_learning_state() {
    // Scenario: A loses to B once (the store tie goes to B).
    let mut store = BrainStore::new();
    let a = store.spawn("A", "combat");
    let b = store.spawn("B", "combat");
    store.simulate_match(a, b).unwrap();
    assert_eq!(store.brains[0].losses, 1);
    assert_eq!(store.brains[0].wins, 0);
    assert_eq!(store.brains[0].total_matches, 1);
    assert_eq!(store.brains[0].experience_points, 5);
    assert_eq!(store.get_confidence(a), Ok(49));
    let rel = store.get_relationship(a, b).unwrap();
    assert_eq!(rel.interactions, 1);
    assert_eq!(rel.losses_against, 1);
    assert_eq!(rel.wins_against, 0);
    // Losing raises trust: the asymmetric rule.
    assert_eq!(rel.trust_level, 5);
    // And the winner moves the other way.
    assert_eq!(store.get_confidence(b), Ok(52));
    let rel_b = store.get_relationship(b, a).unwrap();
    assert_eq!(rel_b.wins_against, 1);
    assert_eq!(rel_b.trust_level, -5);
}

#[test]
fn unfaced_opponent_yields_the_zeroed_snapshot() {
    let mut store = BrainStore::new();
    let a = store.spawn("A", "combat");
    let snap = store.get_relationship(a, 999).unwrap();
    assert_eq!(
        snap,
        RelationshipSnapshot {
            trust_level: 0,
            interactions: 0,
            wins_against: 0,
            losses_against: 0,
            win_rate: 0,
        }
    );
}

#[test]
fn every_operation_on_an_unknown_id_is_not_found() {
    let mut store = BrainStore::new();
    let a = store.spawn("A", "combat");
    let missing = 42u64;
    assert_eq!(store.train_skill(missing, "strength", 100), Err(StoreError::NotFound(missing)));
    assert_eq!(store.get_summary(missing), Err(StoreError::NotFound(missing)));
    assert_eq!(store.get_confidence(missing), Err(StoreError::NotFound(missing)));
    assert_eq!(store.get_strategy(missing, a), Err(StoreError::NotFound(missing)));
    assert_eq!(store.get_win_rate(missing), Err(StoreError::NotFound(missing)));
    assert_eq!(store.get_stats(missing), Err(StoreError::NotFound(missing)));
    assert_eq!(store.get_relationship(missing, a), Err(StoreError::NotFound(missing)));
    assert_eq!(store.simulate_match(missing, a), Err(StoreError::NotFound(missing)));
    assert_eq!(store.simulate_match(a, missing), Err(StoreError::NotFound(missing)));
    // Nothing was created along the way.
    assert_eq!(store.alive_count(), 1);
}

#[test]
fn store_training_raises_the_scored_stats() {
    let mut store = BrainStore::new();
    let a = store.spawn("A", "combat");
    let b = store.spawn("B", "combat");
    // Raise A's strength from 50.0 to 60.0; its base score now beats B's.
    store.train_skill(a, "strength", 2_000).unwrap();
    let stats = store.get_stats(a).unwrap();
    let strength = stats.iter().find(|p| p.0 == "strength").unwrap().1;
    // 60.0 scaled by 1.1, in millionths.
    assert_eq!(strength, 66_000_000);
    let out = store.simulate_match(a, b).unwrap();
    assert_eq!(out.winner, 1);
    assert!(out.score_a > out.score_b);
    assert_eq!(store.get_confidence(a), Ok(52));
    assert_eq!(store.get_win_rate(a), Ok(10_000));
}

#[test]
fn get_strategy_defaults_to_the_preference() {
    let mut store = BrainStore::new();
    let a = store.spawn("A", "combat");
    let b = store.spawn("B", "combat");
    assert_eq!(store.get_strategy(a, b), Ok(Strategy::Balanced));
}

#[test]
fn repeated_dominance_flips_the_decided_strategies() {
    let mut store = BrainStore::new();
    let a = store.spawn("A", "combat");
    let b = store.spawn("B", "combat");
    // A trained well above B wins every match.
    store.train_skill(a, "strength", 8_000).unwrap();
    for _ in 0..8 {
        let out = store.simulate_match(a, b).unwrap();
        assert_eq!(out.winner, 1);
    }
    // 8 wins of 8 is above 0.7; B at 0 of 8 is below 0.3.
    assert_eq!(store.get_strategy(a, b), Ok(Strategy::Aggressive));
    assert_eq!(store.get_strategy(b, a), Ok(Strategy::Defensive));
    assert_eq!(store.get_win_rate(a), Ok(10_000));
    assert_eq!(store.get_win_rate(b), Ok(0));
}

#[test]
fn get_summary_through_the_store() {
    let mut store = BrainStore::new();
    let a = store.spawn("A", "combat");
    assert_eq!(
        store.get_summary(a).unwrap(),
        "Entity: 1 | Level: 0 | Record: 0-0-0 (0.0%) | Confidence: 50% | XP: 0"
    );
}

#[test]
fn despawn_removes_exactly_the_named_entity() {
    let mut store = BrainStore::new();
    let a = store.spawn("A", "combat");
    let b = store.spawn("B", "combat");
    assert_eq!(store.despawn(a), Ok(()));
    assert_eq!(store.alive_count(), 1);
    assert_eq!(store.get_confidence(a), Err(StoreError::NotFound(a)));
    assert_eq!(store.get_confidence(b), Ok(50));
    assert_eq!(store.despawn(a), Err(StoreError::NotFound(a)));
    // The removed id is not reissued.
    let c = store.spawn("C", "combat");
    assert_eq!(c, 3);
}

#[test]
fn self_match_lets_the_one_brain_learn_both_sides() {
    let mut store = BrainStore::new();
    let a = store.spawn("A", "combat");
    let out = store.simulate_match(a, a).unwrap();
    // Equal scores: the tie is reported for the second position.
    assert_eq!(out.winner, 2);
    assert_eq!(store.brains[0].total_matches, 2);
    assert_eq!(store.brains[0].wins, 1);
    assert_eq!(store.brains[0].losses, 1);
    // A loss first (-0.01), then a win (+0.02).
    assert_eq!(store.get_confidence(a), Ok(51));
    let rel = store.get_relationship(a, a).unwrap();
    assert_eq!(rel.interactions, 2);
    assert_eq!(rel.trust_level, 0);
}
