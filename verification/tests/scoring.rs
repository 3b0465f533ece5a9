use oan_engine::brain::Strategy;
use oan_engine::scoring::calculate_score_with_strategy;

fn stats() -> Vec<(String, u64)> {
    vec![("power".to_string(), 100), ("grace".to_string(), 50)]
}

#[test]
fn score_is_the_stat_sum_times_the_strategy_multiplier() {
    assert_eq!(calculate_score_with_strategy(&stats(), Strategy::Balanced), 1_500);
    assert_eq!(calculate_score_with_strategy(&stats(), Strategy::Aggressive), 1_800);
    assert_eq!(calculate_score_with_strategy(&stats(), Strategy::Defensive), 1_350);
    assert_eq!(calculate_score_with_strategy(&stats(), Strategy::Adaptive), 1_650);
}

#[test]
fn empty_stats_score_zero() {
    let empty: Vec<(String, u64)> = Vec::new();
    assert_eq!(calculate_score_with_strategy(&empty, Strategy::Aggressive), 0);
}
