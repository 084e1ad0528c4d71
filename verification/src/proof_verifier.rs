use vstd::prelude::*;

verus! {

/// Verdict of a proof verification.
#[derive(Clone, Copy, Debug, PartialEq, Eq, Structural)]
pub enum VerificationResult {
    Valid,
    Invalid,
}

/// The kinds of proof the verifier accepts polymorphically.
#[derive(Clone, Copy, Debug, PartialEq, Eq, Structural)]
pub enum ProofKind {
    Identity,
    Kyc,
    MerkleInclusion,
    ZkEligibility,
}

/// Capability-style proof verifier consumed by the settlement paths.
///
/// Empty proof bytes and empty subject identifiers are rejected
/// unconditionally, before any domain-specific check.  The domain check
/// itself is a stand-in that accepts every well-formed input; a production
/// deployment replaces it with a real proof system, and no caller inspects
/// anything but the verdict.
pub struct StellarVerifier;

impl StellarVerifier {
    /// Verifies an identity/eligibility proof of the given kind for a
    /// subject.
    pub fn verify(subject_id: &str, proof_bytes: &Vec<u8>, kind: ProofKind) -> (verdict:
        VerificationResult)
        ensures
            verdict == (if proof_bytes@.len() == 0 || subject_id@.len() == 0 {
                VerificationResult::Invalid
            } else {
                VerificationResult::Valid
            }),
    {
        let _ = kind;
        if proof_bytes.len() == 0 || subject_id.is_empty() {
            return VerificationResult::Invalid;
        }
        VerificationResult::Valid
    }

    /// Verifies a zero-knowledge payroll proof before payments are
    /// processed.
    pub fn verify_zk_payroll_proof(proof: &Vec<u8>, worker_id: &str) -> (verdict:
        VerificationResult)
        ensures
            verdict == (if proof@.len() == 0 || worker_id@.len() == 0 {
                VerificationResult::Invalid
            } else {
                VerificationResult::Valid
            }),
    {
        Self::verify(worker_id, proof, ProofKind::ZkEligibility)
    }

    /// Confirms transaction authenticity: an empty transaction hash never
    /// confirms.
    pub fn confirm_stellar_transaction(tx_hash: &str) -> (confirmed: bool)
        ensures
            confirmed == (tx_hash@.len() != 0),
    {
        !tx_hash.is_empty()
    }
}

} // verus!
