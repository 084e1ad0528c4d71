use vstd::prelude::*;
use crate::errors::PayrollError;

verus! {

/// Payroll settlement against an on-ledger verifier and token contract.
///
/// Both collaborators run on the external ledger: the verifier's verdict
/// and the transfer outcome enter as plain arguments, and the settlement
/// decision taken on them is exact.  A verifier call that failed outright
/// arrives as `None` and counts as an invalid proof (fail-closed).
pub struct PayrollContract;

impl PayrollContract {
    /// Interprets the on-ledger verifier's verdict for a submitted payroll
    /// proof: only an affirmative verdict validates; a failed call never
    /// does.
    pub fn verify_payroll_proof(
        zk_proof: &Vec<u8>,
        employer_id: u64,
        verifier_verdict: Option<bool>,
    ) -> (valid: bool)
        ensures
            valid == (verifier_verdict == Some(true)),
    {
        let _ = zk_proof;
        let _ = employer_id;
        match verifier_verdict {
            Some(verdict) => verdict,
            None => false,
        }
    }

    /// Settles one payroll payment: an invalid proof is rejected before
    /// anything moves, and a transfer the token contract did not confirm
    /// is reported as failed rather than recorded as paid.
    pub fn process_payroll(
        zk_proof: &Vec<u8>,
        employer_id: u64,
        worker_id: u64,
        amount: i64,
        verifier_verdict: Option<bool>,
        transfer_confirmed: bool,
    ) -> (r: Result<(), PayrollError>)
        ensures
            verifier_verdict != Some(true) ==> r == Err::<(), PayrollError>(
                PayrollError::ProofInvalid,
            ),
            verifier_verdict == Some(true) && !transfer_confirmed ==> r == Err::<
                (),
                PayrollError,
            >(PayrollError::TransferFailed),
            verifier_verdict == Some(true) && transfer_confirmed ==> r == Ok::<
                (),
                PayrollError,
            >(()),
    {
        let _ = worker_id;
        let _ = amount;
        let valid = Self::verify_payroll_proof(zk_proof, employer_id, verifier_verdict);
        if !valid {
            return Err(PayrollError::ProofInvalid);
        }
        if !transfer_confirmed {
            return Err(PayrollError::TransferFailed);
        }
        Ok(())
    }
}

} // verus!
