use vstd::prelude::*;

verus! {

/// Domain error taxonomy shared by every component.
///
/// Every fallible operation reports one of these variants so that a
/// transport layer can surface the outcome without reinterpreting domain
/// logic.  `NotFound` covers pure reads against an unseen subject,
/// `InvalidAmount` a zero amount, `Unauthorized` a wrong admin, approver or
/// KYC identity, `AlreadyProcessed` the idempotency guard on pending payroll
/// entries, `PolicyViolation` a disallowed fund-category bridge,
/// `NotCompliant` a payer that fails the compliance gate, and
/// `TransferFailed` an external transfer collaborator that reported failure.
#[derive(Clone, Copy, Debug, PartialEq, Eq, Structural)]
pub enum PayrollError {
    NotFound,
    InvalidAmount,
    InsufficientBalance,
    ProofInvalid,
    Unauthorized,
    AlreadyProcessed,
    PolicyViolation,
    NotCompliant,
    TransferFailed,
}

impl PayrollError {
    /// The human-readable reason string a caller surfaces for this error.
    pub fn message(&self) -> (r: &'static str)
        ensures
            r@ =~= self.spec_message(),
    {
        match self {
            PayrollError::NotFound => "subject not found",
            PayrollError::InvalidAmount => "amount must be greater than zero",
            PayrollError::InsufficientBalance => "insufficient balance",
            PayrollError::ProofInvalid => "proof verification failed",
            PayrollError::Unauthorized => "unauthorized identity",
            PayrollError::AlreadyProcessed => "already processed",
            PayrollError::PolicyViolation => "disallowed fund-category bridge",
            PayrollError::NotCompliant => "employer is not tax compliant",
            PayrollError::TransferFailed => "external transfer failed",
        }
    }

    pub open spec fn spec_message(&self) -> Seq<char> {
        match self {
            PayrollError::NotFound => "subject not found"@,
            PayrollError::InvalidAmount => "amount must be greater than zero"@,
            PayrollError::InsufficientBalance => "insufficient balance"@,
            PayrollError::ProofInvalid => "proof verification failed"@,
            PayrollError::Unauthorized => "unauthorized identity"@,
            PayrollError::AlreadyProcessed => "already processed"@,
            PayrollError::PolicyViolation => "disallowed fund-category bridge"@,
            PayrollError::NotCompliant => "employer is not tax compliant"@,
            PayrollError::TransferFailed => "external transfer failed"@,
        }
    }
}

} // verus!
