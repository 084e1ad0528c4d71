use zk_payroll::compliance::ComplianceGate;
use zk_payroll::errors::PayrollError;
use zk_payroll::payroll::PayrollContract;
use zk_payroll::settlement::{Outcome, SettlementEngine};
use zk_payroll::zk_payroll::ZKPayrollContract;

#[test]
fn compliant_employer_with_matching_root_is_approved_and_paid() {
    // Employer 3001 pays 15000 in taxes and becomes compliant.
    let mut gate = ComplianceGate::new();
    gate.record_tax_payment(3001, 15000).unwrap();
    assert!(gate.check_compliance(3001));

    // A worker is assigned 5000 under employer 3001.
    let mut payroll = PayrollContract::new();
    payroll.assign_payroll(501, 3001, 5000, 42).unwrap();

    // With a healthy network and a matching root the settlement approves.
    let mut engine = SettlementEngine::new();
    engine.update_merkle_root(501, vec![0xaa, 0xbb]);
    let record = engine.decide_payout_contract(501, &vec![0xaa, 0xbb]);
    assert_eq!(record.outcome, Outcome::Approve);

    // And the payroll itself processes.
    let payout_confirmed = PayrollContract::execute_stellar_payout(501, 5000);
    assert_eq!(payroll.process_payroll(501, &gate, payout_confirmed), Ok(()));
}

#[test]
fn test_payroll_execution_blocked_for_non_compliant_employers() {
    let employer_id = 3002;
    let payroll_amount = 15000;

    let gate = ComplianceGate::new();
    let is_compliant = gate.check_compliance(employer_id);
    assert!(!is_compliant, "Employer should not be tax compliant");

    let mut payroll = PayrollContract::new();
    payroll.assign_payroll(601, employer_id, payroll_amount, 1).unwrap();
    let r = payroll.process_payroll(601, &gate, true);
    assert_eq!(
        r,
        Err(PayrollError::NotCompliant),
        "Payroll should not be processed for non-compliant employers"
    );
    // The pending entry is untouched and can be retried later.
    let mut gate_after = ComplianceGate::new();
    gate_after.record_tax_payment(employer_id, 1).unwrap();
    assert_eq!(payroll.process_payroll(601, &gate_after, true), Ok(()));
}

#[test]
fn test_payroll_execution_allowed_after_compliance() {
    let employer_id = 3003;
    let payroll_amount = 18000;

    let mut gate = ComplianceGate::new();
    println!("Simulating tax payment for Employer ID: {}", employer_id);
    gate.record_tax_payment(employer_id, 18000).unwrap();
    assert!(gate.check_compliance(employer_id), "Employer should be tax compliant after payment");

    let mut payroll = PayrollContract::new();
    payroll.assign_payroll(701, employer_id, payroll_amount, 1).unwrap();
    assert_eq!(
        payroll.process_payroll(701, &gate, true),
        Ok(()),
        "Payroll should be executed for compliant employer"
    );
}

#[test]
fn processing_is_idempotent_per_entry() {
    let mut gate = ComplianceGate::new();
    gate.record_tax_payment(1, 10).unwrap();
    let mut payroll = PayrollContract::new();
    payroll.assign_payroll(2, 1, 100, 1).unwrap();
    assert_eq!(payroll.process_payroll(2, &gate, true), Ok(()));
    assert_eq!(payroll.process_payroll(2, &gate, true), Err(PayrollError::AlreadyProcessed));
}

#[test]
fn processing_an_unassigned_worker_is_not_found() {
    let gate = ComplianceGate::new();
    let mut payroll = PayrollContract::new();
    assert_eq!(payroll.process_payroll(9, &gate, true), Err(PayrollError::NotFound));
}

#[test]
fn zero_payroll_assignment_is_rejected() {
    let mut payroll = PayrollContract::new();
    assert_eq!(payroll.assign_payroll(2, 1, 0, 1), Err(PayrollError::InvalidAmount));
}

#[test]
fn batch_processing_is_per_subject_and_failures_do_not_block_others() {
    let mut gate = ComplianceGate::new();
    gate.record_tax_payment(10, 100).unwrap();
    // Employer 11 stays non-compliant.

    let mut payroll = PayrollContract::new();
    payroll.assign_payroll(1, 10, 100, 1).unwrap();
    payroll.assign_payroll(2, 11, 200, 1).unwrap();
    payroll.assign_payroll(3, 10, 300, 1).unwrap();

    let all_attempted = payroll.process_batch_payroll(&vec![1, 2, 4, 3], &gate, true);
    assert!(all_attempted);

    // Workers 1 and 3 processed; worker 2's employer blocked it; worker 4
    // was never assigned.  A retry confirms the per-entry state.
    assert_eq!(payroll.process_payroll(1, &gate, true), Err(PayrollError::AlreadyProcessed));
    assert_eq!(payroll.process_payroll(3, &gate, true), Err(PayrollError::AlreadyProcessed));
    assert_eq!(payroll.process_payroll(2, &gate, true), Err(PayrollError::NotCompliant));
    assert_eq!(payroll.process_payroll(4, &gate, true), Err(PayrollError::NotFound));
}

#[test]
fn unconfirmed_payout_leaves_the_entry_pending() {
    let mut gate = ComplianceGate::new();
    gate.record_tax_payment(1, 10).unwrap();
    let mut payroll = PayrollContract::new();
    payroll.assign_payroll(2, 1, 100, 1).unwrap();
    // Compliance passes, but the payout was not confirmed: the entry must
    // stay pending and be retryable.
    assert_eq!(payroll.process_payroll(2, &gate, false), Err(PayrollError::TransferFailed));
    assert_eq!(payroll.process_payroll(2, &gate, true), Ok(()));
}

#[test]
fn unconfirmed_transfer_leaves_the_zk_entry_pending() {
    let mut contract = ZKPayrollContract::new();
    contract.assign_payroll(1, 2, 100).unwrap();
    assert_eq!(contract.process_payroll(1, &vec![7], false), Err(PayrollError::TransferFailed));
    assert_eq!(contract.process_payroll(1, &vec![7], true), Ok(()));
}

#[test]
fn verify_employer_compliance_mirrors_the_gate() {
    let mut gate = ComplianceGate::new();
    assert!(!PayrollContract::verify_employer_compliance(&gate, 5));
    gate.record_tax_payment(5, 1).unwrap();
    assert!(PayrollContract::verify_employer_compliance(&gate, 5));
}

#[test]
fn zk_payroll_rejects_an_empty_proof_before_reading_the_ledger() {
    let mut contract = ZKPayrollContract::new();
    contract.assign_payroll(1, 2, 100).unwrap();
    assert_eq!(contract.process_payroll(1, &vec![], true), Err(PayrollError::ProofInvalid));
    // The entry is still pending.
    assert_eq!(contract.process_payroll(1, &vec![7], true), Ok(()));
}

#[test]
fn zk_payroll_processes_exactly_once() {
    let mut contract = ZKPayrollContract::new();
    contract.assign_payroll(1, 2, 100).unwrap();
    assert_eq!(contract.process_payroll(1, &vec![7], true), Ok(()));
    assert_eq!(contract.process_payroll(1, &vec![7], true), Err(PayrollError::AlreadyProcessed));
}

#[test]
fn zk_payroll_unknown_worker_is_not_found() {
    let mut contract = ZKPayrollContract::new();
    assert_eq!(contract.process_payroll(1, &vec![7], true), Err(PayrollError::NotFound));
    assert_eq!(contract.assign_payroll(1, 2, 0), Err(PayrollError::InvalidAmount));
}

#[test]
fn zk_proof_verdict_depends_only_on_emptiness_here() {
    assert!(!ZKPayrollContract::verify_payroll_zk_proof(1, &vec![]));
    assert!(ZKPayrollContract::verify_payroll_zk_proof(1, &vec![0]));
}
