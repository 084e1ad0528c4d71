use zk_payroll::clock::{current_timestamp, is_payout_day_for};
use zk_payroll::settlement::{Outcome, SettlementEngine, GAS_FEE_LIMIT, LATENCY_LIMIT};
use zk_payroll::util::bytes_eq;

#[test]
fn healthy_network_and_matching_commitment_approves() {
    let mut engine = SettlementEngine::new();
    engine.update_merkle_root(7, vec![0xab, 0xcd]);
    let record = engine.decide_payout_contract(7, &vec![0xab, 0xcd]);
    assert_eq!(record.outcome, Outcome::Approve);
    assert_eq!(record.settlement_target, Some(7));
    assert_eq!(record.subject_id, 7);
}

#[test]
fn healthy_network_and_mismatched_commitment_rejects_as_undecided() {
    let mut engine = SettlementEngine::new();
    engine.update_merkle_root(7, vec![0xab, 0xcd]);
    let record = engine.decide_payout_contract(7, &vec![0xab, 0xce]);
    assert_eq!(record.outcome, Outcome::Reject);
    assert_eq!(record.reason, "undecided");
    assert_eq!(record.settlement_target, None);
}

#[test]
fn missing_stored_root_mismatches_a_real_commitment() {
    let engine = SettlementEngine::new();
    let record = engine.decide_payout_contract(99, &vec![0x01]);
    assert_eq!(record.outcome, Outcome::Reject);
    assert_eq!(record.reason, "undecided");
}

#[test]
fn missing_stored_root_mismatches_even_an_empty_commitment() {
    // A subject with no stored root always mismatches, so an empty
    // provided commitment must not slip through against the empty default.
    let engine = SettlementEngine::new();
    let record = engine.decide_payout_contract(99, &vec![]);
    assert_eq!(record.outcome, Outcome::Reject);
    assert_eq!(record.reason, "undecided");
    assert_eq!(record.settlement_target, None);
}

#[test]
fn empty_stored_root_matches_only_an_empty_commitment() {
    // Storing an empty root is distinct from storing none at all.
    let mut engine = SettlementEngine::new();
    engine.update_merkle_root(5, vec![]);
    assert_eq!(engine.decide_payout_contract(5, &vec![]).outcome, Outcome::Approve);
    assert_eq!(engine.decide_payout_contract(5, &vec![0x01]).outcome, Outcome::Reject);
}

#[test]
fn unhealthy_network_escalates_even_on_matching_commitment() {
    let mut engine = SettlementEngine::new();
    engine.update_merkle_root(7, vec![0xab]);
    engine.update_network_status(GAS_FEE_LIMIT, 0);
    let record = engine.decide_payout_contract(7, &vec![0xab]);
    assert_eq!(record.outcome, Outcome::Escalate);
    assert_eq!(record.reason, "Network congestion detected: SubDAO vote required");
    assert_eq!(record.settlement_target, None);
}

#[test]
fn latency_alone_is_enough_to_escalate() {
    let mut engine = SettlementEngine::new();
    engine.update_merkle_root(7, vec![0xab]);
    engine.update_network_status(0, LATENCY_LIMIT);
    let record = engine.decide_payout_contract(7, &vec![0xab]);
    assert_eq!(record.outcome, Outcome::Escalate);
}

#[test]
fn signals_just_under_the_limits_stay_healthy() {
    let mut engine = SettlementEngine::new();
    engine.update_merkle_root(7, vec![0xab]);
    engine.update_network_status(GAS_FEE_LIMIT - 1, LATENCY_LIMIT - 1);
    let record = engine.decide_payout_contract(7, &vec![0xab]);
    assert_eq!(record.outcome, Outcome::Approve);
}

#[test]
fn updating_a_root_replaces_the_old_commitment() {
    let mut engine = SettlementEngine::new();
    engine.update_merkle_root(7, vec![0x01]);
    engine.update_merkle_root(7, vec![0x02]);
    assert_eq!(engine.decide_payout_contract(7, &vec![0x01]).outcome, Outcome::Reject);
    assert_eq!(engine.decide_payout_contract(7, &vec![0x02]).outcome, Outcome::Approve);
}

#[test]
fn audit_hash_is_deterministic_and_input_sensitive() {
    let engine = SettlementEngine::new();
    let first = engine.decide_payout_contract(7, &vec![1, 2, 3]);
    let again = engine.decide_payout_contract(7, &vec![1, 2, 3]);
    assert_eq!(first.inputs_hash, again.inputs_hash);
    let other = engine.decide_payout_contract(7, &vec![1, 2, 4]);
    assert_ne!(first.inputs_hash, other.inputs_hash);
}

#[test]
fn payout_day_policy_is_the_first_of_the_month() {
    assert!(is_payout_day_for(1));
    assert!(!is_payout_day_for(2));
    assert!(!is_payout_day_for(31));
}

#[test]
fn current_timestamp_is_after_a_known_past_moment() {
    let now = current_timestamp();
    assert!(now > 1_600_000_000);
}

#[test]
fn byte_buffers_compare_by_content() {
    assert!(bytes_eq(&vec![], &vec![]));
    assert!(bytes_eq(&vec![1, 2], &vec![1, 2]));
    assert!(!bytes_eq(&vec![1, 2], &vec![1, 2, 3]));
    assert!(!bytes_eq(&vec![1, 2], &vec![1, 3]));
}
