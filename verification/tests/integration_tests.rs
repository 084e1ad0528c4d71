use zk_payroll::errors::PayrollError;
use zk_payroll::farm::FarmInvestmentContract;
use zk_payroll::identity::WorkerIdentityContract;
use zk_payroll::payments::{PaymentStatus, StellarIntegration};
use zk_payroll::proof_submission::ZkPayroll;
use zk_payroll::proof_verifier::{ProofKind, StellarVerifier, VerificationResult};
use zk_payroll::remote_payroll;
use zk_payroll::worker_registry;
use zk_payroll::zpass::ZPassTestContract;

#[test]
fn test_stellar_payment_processing() {
    // Mock worker details
    let worker_id = "worker_123";
    let payment_amount = 1000u64;

    // Call function to initiate payment
    let result = StellarIntegration::process_stellar_payment(worker_id, payment_amount);

    // Validate expected success response
    assert_eq!(result, PaymentStatus::Success);
    assert_eq!(result.label(), "payment_success");
}

#[test]
fn test_invalid_worker_payment() {
    // Mock invalid worker
    let worker_id = "";
    let payment_amount = 500u64;

    // Expect payment failure
    let result = StellarIntegration::process_stellar_payment(worker_id, payment_amount);

    assert_eq!(result, PaymentStatus::Failure);
}

#[test]
fn zero_amount_payment_fails() {
    let result = StellarIntegration::process_stellar_payment("worker_123", 0);
    assert_eq!(result, PaymentStatus::Failure);
    assert_eq!(result.label(), "payment_failure");
}

#[test]
fn payment_proof_rejects_empty_bytes() {
    assert!(!StellarIntegration::verify_payroll_proof(&vec![]));
    assert!(StellarIntegration::verify_payroll_proof(&vec![1]));
}

#[test]
fn verifier_rejects_empty_proof_and_empty_subject() {
    assert_eq!(
        StellarVerifier::verify_zk_payroll_proof(&vec![], "worker"),
        VerificationResult::Invalid
    );
    assert_eq!(
        StellarVerifier::verify_zk_payroll_proof(&vec![1, 2], ""),
        VerificationResult::Invalid
    );
    assert_eq!(
        StellarVerifier::verify_zk_payroll_proof(&vec![1, 2], "worker"),
        VerificationResult::Valid
    );
}

#[test]
fn verifier_interface_covers_all_proof_kinds() {
    for kind in [
        ProofKind::Identity,
        ProofKind::Kyc,
        ProofKind::MerkleInclusion,
        ProofKind::ZkEligibility,
    ] {
        assert_eq!(StellarVerifier::verify("subject", &vec![], kind), VerificationResult::Invalid);
        assert_eq!(StellarVerifier::verify("", &vec![9], kind), VerificationResult::Invalid);
        assert_eq!(StellarVerifier::verify("subject", &vec![9], kind), VerificationResult::Valid);
    }
}

#[test]
fn empty_transaction_hash_never_confirms() {
    assert!(!StellarVerifier::confirm_stellar_transaction(""));
    assert!(StellarVerifier::confirm_stellar_transaction("deadbeef"));
}

#[test]
fn worker_registration_needs_both_proofs() {
    let mut contract = WorkerIdentityContract::new();
    assert_eq!(
        contract.register_worker(1, 0, 40, &vec![], &vec![2]),
        Err(PayrollError::ProofInvalid)
    );
    assert_eq!(
        contract.register_worker(1, 0, 40, &vec![1], &vec![]),
        Err(PayrollError::ProofInvalid)
    );
    assert!(!contract.is_verified_worker(1));

    contract.register_worker(1, 1, 40, &vec![1], &vec![2]).unwrap();
    assert!(contract.is_verified_worker(1));
    assert!(!contract.is_verified_worker(2));
}

#[test]
fn admin_registry_gates_every_mutation() {
    let mut registry = worker_registry::WorkerIdentityContract::new();
    assert_eq!(
        registry.register_worker(5, 1, String::from("transport")),
        Err(PayrollError::Unauthorized)
    );

    registry.initialize(5);
    assert_eq!(registry.get_admin(), 5);

    registry.register_worker(5, 1, String::from("transport")).unwrap();
    let profile = registry.get_worker_profile(1).unwrap();
    assert!(!profile.verified);
    assert_eq!(profile.industry, "transport");

    assert_eq!(registry.verify_worker(6, 1, 999), Err(PayrollError::Unauthorized));
    registry.verify_worker(5, 1, 999).unwrap();
    let profile = registry.get_worker_profile(1).unwrap();
    assert!(profile.verified);
    assert_eq!(profile.kyc_timestamp, 999);

    registry.update_industry(5, 1, String::from("agriculture")).unwrap();
    let profile = registry.get_worker_profile(1).unwrap();
    assert_eq!(profile.industry, "agriculture");
    assert!(profile.verified);

    assert_eq!(registry.verify_worker(5, 2, 1), Err(PayrollError::NotFound));
    assert!(registry.get_worker_profile(2).is_none());
}

#[test]
fn zpass_kyc_requires_the_registered_proof() {
    let mut contract = ZPassTestContract::new();
    assert!(contract.test_worker_registration(1, vec![1, 2, 3]));

    assert_eq!(contract.test_kyc_verification(2, vec![1, 2, 3]), Err(PayrollError::NotFound));
    assert_eq!(contract.test_kyc_verification(1, vec![9, 9]), Err(PayrollError::ProofInvalid));
    assert_eq!(
        contract.test_worker_eligibility_for_payroll(1),
        Err(PayrollError::Unauthorized)
    );

    contract.test_kyc_verification(1, vec![1, 2, 3]).unwrap();
    assert_eq!(contract.test_worker_eligibility_for_payroll(1), Ok(()));
    assert_eq!(contract.test_worker_eligibility_for_staking_rewards(1), Ok(()));
    assert_eq!(
        contract.test_worker_eligibility_for_staking_rewards(3),
        Err(PayrollError::NotFound)
    );
}

#[test]
fn farm_investment_lifecycle() {
    let mut farm = FarmInvestmentContract::new();
    assert_eq!(farm.add_investment(1, 0, 10), Err(PayrollError::InvalidAmount));
    farm.add_investment(1, 100000, 10).unwrap();

    // Payout before approval is refused.
    assert_eq!(farm.process_payout(1, true), Err(PayrollError::Unauthorized));
    assert_eq!(farm.approve_investment(2, &vec![1]), Err(PayrollError::NotFound));
    assert_eq!(farm.approve_investment(1, &vec![]), Err(PayrollError::ProofInvalid));

    farm.approve_investment(1, &vec![0xab; 32]).unwrap();
    // An unconfirmed payout leaves the record in place.
    assert_eq!(farm.process_payout(1, false), Err(PayrollError::TransferFailed));
    let payout_confirmed = FarmInvestmentContract::execute_payout(1, 100000);
    farm.process_payout(1, payout_confirmed).unwrap();
    // The record is gone after payout.
    assert_eq!(farm.process_payout(1, true), Err(PayrollError::NotFound));
}

#[test]
fn proof_submission_accepts_exactly_nonempty_proofs() {
    assert!(!ZkPayroll::submit_payroll_proof(1, 2, &vec![]));
    assert!(ZkPayroll::submit_payroll_proof(1, 2, &vec![0u8; 64]));
}

#[test]
fn remote_settlement_is_fail_closed_on_the_verifier() {
    let proof = vec![0u8; 64];
    assert!(!remote_payroll::PayrollContract::verify_payroll_proof(&proof, 1, None));
    assert!(!remote_payroll::PayrollContract::verify_payroll_proof(&proof, 1, Some(false)));
    assert!(remote_payroll::PayrollContract::verify_payroll_proof(&proof, 1, Some(true)));

    assert_eq!(
        remote_payroll::PayrollContract::process_payroll(&proof, 1, 2, 500, Some(false), true),
        Err(PayrollError::ProofInvalid)
    );
    assert_eq!(
        remote_payroll::PayrollContract::process_payroll(&proof, 1, 2, 500, Some(true), false),
        Err(PayrollError::TransferFailed)
    );
    assert_eq!(
        remote_payroll::PayrollContract::process_payroll(&proof, 1, 2, 500, Some(true), true),
        Ok(())
    );
}
