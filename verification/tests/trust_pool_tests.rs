use zk_payroll::errors::PayrollError;
use zk_payroll::trust_pool::PNCWTrustPoolContract;

#[test]
fn contribution_credits_the_worker_balance() {
    let mut pool = PNCWTrustPoolContract::new();
    assert_eq!(pool.get_trust_pool_balance(1), 0);
    pool.contribute_to_trust_pool(1, 500, 100).unwrap();
    pool.contribute_to_trust_pool(1, 250, 101).unwrap();
    assert_eq!(pool.get_trust_pool_balance(1), 750);
}

#[test]
fn zero_contribution_is_rejected() {
    let mut pool = PNCWTrustPoolContract::new();
    assert_eq!(pool.contribute_to_trust_pool(1, 0, 100), Err(PayrollError::InvalidAmount));
    assert_eq!(pool.get_trust_pool_balance(1), 0);
}

#[test]
fn balance_tracks_contributions_minus_successful_withdrawals() {
    let mut pool = PNCWTrustPoolContract::new();
    pool.contribute_to_trust_pool(1, 1000, 1).unwrap();
    pool.contribute_to_trust_pool(1, 400, 2).unwrap();
    // A successful quorum withdrawal debits exactly its amount.
    pool.request_partial_withdrawal(1, 300, 10, 11, 12, PNCWTrustPoolContract::execute_transfer(1, 300)).unwrap();
    // A failed withdrawal (insufficient balance) debits nothing.
    assert_eq!(
        pool.request_partial_withdrawal(1, 5000, 10, 11, 12, true),
        Err(PayrollError::InsufficientBalance)
    );
    // A successful redemption debits exactly its amount.
    pool.redeem_funds(1, 2, 600, true, PNCWTrustPoolContract::execute_transfer(2, 600)).unwrap();
    assert_eq!(pool.get_trust_pool_balance(1), 1000 + 400 - 300 - 600);
}

#[test]
fn quorum_with_duplicate_approvers_is_unauthorized_and_moves_nothing() {
    let mut pool = PNCWTrustPoolContract::new();
    pool.contribute_to_trust_pool(1, 1000, 1).unwrap();
    assert_eq!(
        pool.request_partial_withdrawal(1, 100, 10, 10, 12, true),
        Err(PayrollError::Unauthorized)
    );
    assert_eq!(pool.get_trust_pool_balance(1), 1000);
}

#[test]
fn quorum_containing_the_requester_is_unauthorized_and_moves_nothing() {
    let mut pool = PNCWTrustPoolContract::new();
    pool.contribute_to_trust_pool(1, 1000, 1).unwrap();
    assert_eq!(
        pool.request_partial_withdrawal(1, 100, 1, 11, 12, true),
        Err(PayrollError::Unauthorized)
    );
    assert_eq!(pool.get_trust_pool_balance(1), 1000);
}

#[test]
fn overdrawn_partial_withdrawal_with_valid_quorum_reports_insufficient_balance() {
    let mut pool = PNCWTrustPoolContract::new();
    pool.contribute_to_trust_pool(1, 1000, 1).unwrap();
    let r = pool.request_partial_withdrawal(1, 1500, 21, 22, 23, true);
    assert_eq!(r, Err(PayrollError::InsufficientBalance));
    assert_eq!(pool.get_trust_pool_balance(1), 1000);
}

#[test]
fn zero_withdrawal_is_rejected_before_any_other_check() {
    let mut pool = PNCWTrustPoolContract::new();
    // Even with an invalid quorum and an unknown worker, the zero amount
    // is reported first.
    assert_eq!(
        pool.request_partial_withdrawal(1, 0, 1, 1, 1, true),
        Err(PayrollError::InvalidAmount)
    );
    assert_eq!(pool.redeem_funds(1, 2, 0, false, true), Err(PayrollError::InvalidAmount));
}

#[test]
fn withdrawal_against_an_unseen_worker_is_not_found() {
    let mut pool = PNCWTrustPoolContract::new();
    assert_eq!(
        pool.request_partial_withdrawal(1, 100, 10, 11, 12, true),
        Err(PayrollError::NotFound)
    );
    assert_eq!(pool.redeem_funds(1, 2, 100, true, true), Err(PayrollError::NotFound));
}

#[test]
fn redemption_without_kyc_fails_closed() {
    let mut pool = PNCWTrustPoolContract::new();
    pool.contribute_to_trust_pool(1, 1000, 1).unwrap();
    assert_eq!(pool.redeem_funds(1, 2, 100, false, true), Err(PayrollError::Unauthorized));
    assert_eq!(pool.get_trust_pool_balance(1), 1000);
}

#[test]
fn redemption_with_kyc_debits_the_balance() {
    let mut pool = PNCWTrustPoolContract::new();
    pool.contribute_to_trust_pool(1, 1000, 1).unwrap();
    pool.redeem_funds(1, 2, 1000, true, true).unwrap();
    assert_eq!(pool.get_trust_pool_balance(1), 0);
}

#[test]
fn unconfirmed_transfer_leaves_the_redemption_undebited() {
    let mut pool = PNCWTrustPoolContract::new();
    pool.contribute_to_trust_pool(1, 1000, 1).unwrap();
    // All checks pass, but the external transfer was not confirmed: the
    // debit must not be applied (all-or-nothing).
    assert_eq!(pool.redeem_funds(1, 2, 600, true, false), Err(PayrollError::TransferFailed));
    assert_eq!(pool.get_trust_pool_balance(1), 1000);
}

#[test]
fn unconfirmed_transfer_leaves_the_partial_withdrawal_undebited() {
    let mut pool = PNCWTrustPoolContract::new();
    pool.contribute_to_trust_pool(1, 1000, 1).unwrap();
    assert_eq!(
        pool.request_partial_withdrawal(1, 600, 21, 22, 23, false),
        Err(PayrollError::TransferFailed)
    );
    assert_eq!(pool.get_trust_pool_balance(1), 1000);
}

#[test]
fn approval_set_is_validated_as_a_unit() {
    assert!(PNCWTrustPoolContract::verify_approval(1, 10, 11, 12));
    assert!(!PNCWTrustPoolContract::verify_approval(1, 10, 11, 11));
    assert!(!PNCWTrustPoolContract::verify_approval(1, 1, 11, 12));
}
