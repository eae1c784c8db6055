use pm2_alerter::correlator::Correlator;

#[test]
fn new_correlator_has_nothing_pending() {
    let correlator = Correlator::new();
    assert_eq!(correlator.pending(), None);
}

#[test]
fn set_pending_sets_the_pending_identifier() {
    let mut correlator = Correlator::new();
    correlator.set_pending(Some(42));
    assert_eq!(correlator.pending(), Some(42));
}

#[test]
fn set_pending_overwrites_an_earlier_identifier() {
    let mut correlator = Correlator::new();
    correlator.set_pending(Some(42));
    correlator.set_pending(Some(99));
    assert_eq!(correlator.pending(), Some(99));
}

#[test]
fn set_pending_with_none_clears() {
    let mut correlator = Correlator::new();
    correlator.set_pending(Some(42));
    correlator.set_pending(None);
    assert_eq!(correlator.pending(), None);
}

#[test]
fn observe_matching_candidate_emits_name_and_clears() {
    let mut correlator = Correlator::new();
    correlator.set_pending(Some(42));
    let emitted = correlator.observe(42, "api");
    assert_eq!(emitted, Some("api".to_string()));
    assert_eq!(correlator.pending(), None);
}

#[test]
fn observe_other_candidate_changes_nothing() {
    let mut correlator = Correlator::new();
    correlator.set_pending(Some(42));
    assert_eq!(correlator.observe(7, "worker"), None);
    assert_eq!(correlator.pending(), Some(42));
}

#[test]
fn observe_same_unmatched_pair_twice_is_idempotent() {
    let mut correlator = Correlator::new();
    correlator.set_pending(Some(42));
    assert_eq!(correlator.observe(7, "worker"), None);
    assert_eq!(correlator.observe(7, "worker"), None);
    assert_eq!(correlator.pending(), Some(42));
}

#[test]
fn observe_fires_exactly_once() {
    let mut correlator = Correlator::new();
    correlator.set_pending(Some(42));
    assert_eq!(correlator.observe(42, "api"), Some("api".to_string()));
    assert_eq!(correlator.observe(42, "api"), None);
    assert_eq!(correlator.pending(), None);
}

#[test]
fn observe_with_nothing_pending_never_fires() {
    let mut correlator = Correlator::new();
    assert_eq!(correlator.observe(7, "worker"), None);
    assert_eq!(correlator.pending(), None);
}

#[test]
fn observe_does_not_mistake_old_sentinels_for_identifiers() {
    let mut correlator = Correlator::new();
    assert_eq!(correlator.observe(-1, "ghost"), None);
    assert_eq!(correlator.observe(0, "ghost"), None);
    assert_eq!(correlator.pending(), None);
}

#[test]
fn observe_overwritten_identifier_is_stale() {
    let mut correlator = Correlator::new();
    correlator.set_pending(Some(42));
    correlator.set_pending(Some(99));
    assert_eq!(correlator.observe(42, "api"), None);
    assert_eq!(correlator.pending(), Some(99));
    assert_eq!(correlator.observe(99, "db"), Some("db".to_string()));
}

#[test]
fn observe_handles_extreme_identifiers() {
    let mut correlator = Correlator::new();
    correlator.set_pending(Some(i64::MAX));
    assert_eq!(correlator.observe(i64::MIN, "low"), None);
    assert_eq!(correlator.observe(i64::MAX, "high"), Some("high".to_string()));
}
