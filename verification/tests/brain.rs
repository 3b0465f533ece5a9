use oan_engine::brain::{EntityBrain, MemoryEntry, Relationship, Strategy};

fn skill_level(b: &EntityBrain, name: &str) -> Option<u64> {
    b.skill_levels
        .iter()
        .find(|p| p.0 == name)
        .map(|p| p.1)
}

#[test]
fn new_brain_has_default_state() {
    let b = EntityBrain::new(7, 1_000);
    assert_eq!(b.entity_id, 7);
    assert_eq!(b.created_at, 1_000);
    assert_eq!(b.confidence, 50);
    assert_eq!(b.risk_tolerance, 50);
    assert_eq!(b.preferred_strategy, Strategy::Balanced);
    assert_eq!(b.total_matches, 0);
    assert_eq!(b.experience_points, 0);
    assert_eq!(skill_level(&b, "strength"), Some(50_000));
    assert_eq!(skill_level(&b, "agility"), Some(50_000));
    assert_eq!(skill_level(&b, "stamina"), Some(50_000));
    assert_eq!(skill_level(&b, "skill"), Some(50_000));
    assert_eq!(b.reputation_score, 5_000);
}

#[test]
fn confidence_and_trust_stay_bounded_over_many_matches() {
    let mut b = EntityBrain::new(1, 0);
    let stats: Vec<(String, u64)> = Vec::new();
    for t in 0..200u64 {
        b.learn_from_match(2, &stats, true, 0, t);
        assert!(b.confidence <= 100);
        assert!(b.relationships[0].trust_level >= -100);
        assert!(b.relationships[0].trust_level <= 100);
    }
    assert_eq!(b.confidence, 100);
    assert_eq!(b.relationships[0].trust_level, -100);
    for t in 0..300u64 {
        b.learn_from_match(2, &stats, false, 0, t);
        assert!(b.confidence <= 100);
        assert!(b.relationships[0].trust_level <= 100);
    }
    assert_eq!(b.confidence, 0);
    assert_eq!(b.relationships[0].trust_level, 100);
}

#[test]
fn relationship_win_rate_neutral_without_history() {
    let r = Relationship::new(9, 0);
    assert_eq!(r.interactions, 0);
    assert_eq!(r.win_rate(), 5_000);
}

#[test]
fn relationship_win_rate_is_wins_over_interactions() {
    let mut r = Relationship::new(9, 0);
    r.update_after_match(true, 1);
    assert_eq!(r.win_rate(), 10_000);
    r.update_after_match(false, 2);
    assert_eq!(r.win_rate(), 5_000);
    r.update_after_match(false, 3);
    assert_eq!(r.win_rate(), 3_333);
}

#[test]
fn brain_win_rate_zero_without_matches() {
    let b = EntityBrain::new(1, 0);
    assert_eq!(b.win_rate(), 0);
}

#[test]
fn brain_win_rate_is_wins_over_matches() {
    let mut b = EntityBrain::new(1, 0);
    let stats: Vec<(String, u64)> = Vec::new();
    b.learn_from_match(2, &stats, true, 0, 1);
    assert_eq!(b.win_rate(), 10_000);
    b.learn_from_match(2, &stats, false, 0, 2);
    assert_eq!(b.win_rate(), 5_000);
    b.learn_from_match(2, &stats, false, 0, 3);
    assert_eq!(b.win_rate(), 3_333);
}

#[test]
fn trust_moves_against_the_winner() {
    let mut b = EntityBrain::new(1, 0);
    let stats: Vec<(String, u64)> = Vec::new();
    b.learn_from_match(2, &stats, true, 0, 1);
    assert_eq!(b.relationships[0].trust_level, -5);
    b.learn_from_match(2, &stats, false, 0, 2);
    assert_eq!(b.relationships[0].trust_level, 0);
    b.learn_from_match(2, &stats, false, 0, 3);
    assert_eq!(b.relationships[0].trust_level, 5);
}

#[test]
fn decide_strategy_follows_the_thresholds() {
    let mut b = EntityBrain::new(1, 0);
    let stats: Vec<(String, u64)> = Vec::new();
    assert_eq!(b.decide_strategy(2), Strategy::Balanced);
    for t in 0..8u64 {
        b.learn_from_match(2, &stats, true, 0, t);
    }
    for t in 8..10u64 {
        b.learn_from_match(2, &stats, false, 0, t);
    }
    // 8 wins of 10: win rate 0.8 > 0.7.
    assert_eq!(b.decide_strategy(2), Strategy::Aggressive);
    for t in 0..8u64 {
        b.learn_from_match(3, &stats, false, 0, t);
    }
    for t in 8..10u64 {
        b.learn_from_match(3, &stats, true, 0, t);
    }
    // 2 wins of 10: win rate 0.2 < 0.3.
    assert_eq!(b.decide_strategy(3), Strategy::Defensive);
    for t in 0..2u64 {
        b.learn_from_match(4, &stats, true, 0, t);
        b.learn_from_match(4, &stats, false, 0, t);
    }
    // 2 wins of 4: win rate 0.5, neither threshold.
    assert_eq!(b.decide_strategy(4), Strategy::Balanced);
}

#[test]
fn train_skill_gains_half_the_intensity_and_caps() {
    let mut b = EntityBrain::new(1, 0);
    b.train_skill("strength", 1_000);
    assert_eq!(skill_level(&b, "strength"), Some(55_000));
    assert_eq!(b.training_sessions, 1);
    assert_eq!(b.experience_points, 20);
    let before = skill_level(&b, "strength").unwrap();
    b.train_skill("strength", 1);
    let after = skill_level(&b, "strength").unwrap();
    assert!(after >= before);
    b.train_skill("strength", 1_000_000);
    assert_eq!(skill_level(&b, "strength"), Some(100_000));
    b.train_skill("strength", 500);
    assert_eq!(skill_level(&b, "strength"), Some(100_000));
}

#[test]
fn train_skill_starts_unseen_skills_from_the_default() {
    let mut b = EntityBrain::new(1, 0);
    assert_eq!(skill_level(&b, "magic"), None);
    b.train_skill("magic", 200);
    assert_eq!(skill_level(&b, "magic"), Some(51_000));
    assert_eq!(b.experience_points, 4);
}

#[test]
fn get_stats_scales_by_confidence() {
    let b = EntityBrain::new(1, 0);
    let stats = b.get_stats();
    assert_eq!(stats.len(), 4);
    for (_, v) in &stats {
        // 50.0 scaled by 1 + 0.5 * 0.2 = 55.0, in millionths.
        assert_eq!(*v, 55_000_000);
    }
}

#[test]
fn get_summary_formats_the_record_line() {
    let mut b = EntityBrain::new(1, 0);
    assert_eq!(
        b.get_summary(),
        "Entity: 1 | Level: 0 | Record: 0-0-0 (0.0%) | Confidence: 50% | XP: 0"
    );
    let stats: Vec<(String, u64)> = Vec::new();
    b.learn_from_match(2, &stats, true, 0, 1);
    b.learn_from_match(2, &stats, false, 0, 2);
    b.learn_from_match(2, &stats, false, 0, 3);
    assert_eq!(
        b.get_summary(),
        "Entity: 1 | Level: 0 | Record: 1-2-0 (33.3%) | Confidence: 50% | XP: 20"
    );
}

#[test]
fn memory_cap_evicts_the_oldest_entry() {
    let mut b = EntityBrain::new(1, 0);
    for t in 1..=101u64 {
        b.record_memory(MemoryEntry {
            timestamp: t,
            event_type: "match".to_string(),
            outcome: 0,
            context: Vec::new(),
        });
    }
    assert_eq!(b.short_term_memory.len(), 100);
    // The 101st insertion evicted entry 1.
    assert_eq!(b.short_term_memory[0].timestamp, 2);
    assert_eq!(b.short_term_memory[99].timestamp, 101);
}
