use oan_engine::simulator::{Athlete, MatchSimulator};

#[test]
fn rating_is_the_weighted_attribute_sum() {
    // 70 * 0.25 + 70 * 0.20 + 70 * 0.20 + 70 * 0.35 = 70, in ten-thousandths.
    let a = Athlete::new("A", "combat", 7_000, 7_000, 7_000, 7_000);
    assert_eq!(a.rating(), 700_000);
    let b = Athlete::new("B", "combat", 8_000, 6_000, 5_000, 9_000);
    // 20.0 + 12.0 + 10.0 + 31.5 = 73.5
    assert_eq!(b.rating(), 735_000);
}

#[test]
fn tie_break_goes_to_the_first_participant() {
    // Scenario: identical attributes of 70 each over five rounds.
    let sim = MatchSimulator::new();
    assert_eq!(sim.rounds, 5);
    let a = Athlete::new("A", "combat", 7_000, 7_000, 7_000, 7_000);
    let b = Athlete::new("B", "combat", 7_000, 7_000, 7_000, 7_000);
    let r = sim.simulate(&a, &b);
    assert_eq!(r.score_a, 3_500_000);
    assert_eq!(r.score_b, 3_500_000);
    assert_eq!(r.winner_id, a.id);
    assert!(!r.upset);
    assert_eq!(r.performance_a, 700_000);
    assert_eq!(r.performance_b, 700_000);
}

#[test]
fn higher_rated_athlete_wins() {
    let sim = MatchSimulator::new();
    let a = Athlete::new("A", "combat", 6_000, 6_000, 6_000, 6_000);
    let b = Athlete::new("B", "combat", 7_000, 7_000, 7_000, 7_000);
    let r = sim.simulate(&a, &b);
    assert_eq!(r.score_a, 3_000_000);
    assert_eq!(r.score_b, 3_500_000);
    assert_eq!(r.winner_id, b.id);
    assert!(!r.upset);
}

#[test]
fn simulate_is_deterministic_on_the_reported_outcome() {
    let sim = MatchSimulator::new();
    let a = Athlete::new("A", "combat", 6_500, 7_200, 5_800, 8_100);
    let b = Athlete::new("B", "combat", 7_100, 6_300, 6_900, 7_700);
    let r1 = sim.simulate(&a, &b);
    let r2 = sim.simulate(&a, &b);
    assert_eq!(r1.score_a, r2.score_a);
    assert_eq!(r1.score_b, r2.score_b);
    assert_eq!(r1.winner_id, r2.winner_id);
    assert_eq!(r1.upset, r2.upset);
    assert_eq!(r1.performance_a, r2.performance_a);
    assert_eq!(r1.performance_b, r2.performance_b);
}
