use vstd::prelude::*;

verus! {

/// Submission path for payroll proofs: a proof is verified first, and
/// payroll is processed only on a valid proof.
pub struct ZkPayroll;

impl ZkPayroll {
    /// Submits a payroll proof for an employer/worker pair.  The proof is
    /// accepted exactly when it verifies, and payroll is processed only
    /// afterwards.
    pub fn submit_payroll_proof(employer_id: u64, worker_id: u64, proof: &Vec<u8>) -> (accepted:
        bool)
        ensures
            accepted == (proof@.len() != 0),
    {
        let is_valid = Self::verify_payroll_proof(proof);
        if !is_valid {
            return false;
        }
        Self::process_payroll(employer_id, worker_id)
    }

    /// Verdict of the payroll proof.  Empty proof bytes are rejected
    /// unconditionally; any non-empty proof is accepted by this stand-in,
    /// where a production deployment wires a real proof system.
    fn verify_payroll_proof(proof: &Vec<u8>) -> (valid: bool)
        ensures
            valid == (proof@.len() != 0),
    {
        proof.len() != 0
    }

    /// Stand-in for the payroll processing on the external ledger, which
    /// always reports success here.
    fn process_payroll(employer_id: u64, worker_id: u64) -> (success: bool)
        ensures
            success,
    {
        let _ = employer_id;
        let _ = worker_id;
        true
    }
}

} // verus!
