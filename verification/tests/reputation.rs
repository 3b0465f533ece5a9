use oan_engine::reputation::verify_reputation_delta;

#[test]
fn test_valid_positive_delta() {
    let (is_valid, new_rep, reason) = verify_reputation_delta(100, 20, 50, 10);
    assert!(is_valid);
    assert_eq!(new_rep, 120);
    assert_eq!(reason, "valid update");
}

#[test]
fn test_invalid_negative_delta() {
    let (is_valid, new_rep, reason) = verify_reputation_delta(100, -30, 50, 10);
    assert!(!is_valid);
    assert_eq!(new_rep, 70);
    assert_eq!(reason, "delta exceeds allowed limits");
}

#[test]
fn test_negative_overflow() {
    let (is_valid, new_rep, reason) = verify_reputation_delta(5, -10, 50, 10);
    assert!(is_valid);
    assert_eq!(new_rep, 0);
    assert_eq!(reason, "valid update (saturated at 0)");
}

#[test]
fn test_zero_delta_is_valid() {
    let (is_valid, new_rep, reason) = verify_reputation_delta(40, 0, 0, 0);
    assert!(is_valid);
    assert_eq!(new_rep, 40);
    assert_eq!(reason, "valid update");
}

#[test]
fn test_positive_delta_over_limit() {
    let (is_valid, new_rep, reason) = verify_reputation_delta(10, 51, 50, 10);
    assert!(!is_valid);
    assert_eq!(new_rep, 61);
    assert_eq!(reason, "delta exceeds allowed limits");
}

#[test]
fn test_positive_delta_saturates_at_max() {
    let (is_valid, new_rep, _reason) = verify_reputation_delta(u64::MAX - 3, 10, 50, 10);
    assert!(is_valid);
    assert_eq!(new_rep, u64::MAX);
}
