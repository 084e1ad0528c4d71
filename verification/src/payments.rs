use vstd::prelude::*;

verus! {

/// Outcome of one payment attempt on the external network.
#[derive(Clone, Copy, Debug, PartialEq, Eq, Structural)]
pub enum PaymentStatus {
    Success,
    Failure,
}

impl PaymentStatus {
    /// The label a transport layer surfaces for this status.
    pub fn label(&self) -> (r: &'static str)
        ensures
            self == PaymentStatus::Success ==> r@ == "payment_success"@,
            self == PaymentStatus::Failure ==> r@ == "payment_failure"@,
    {
        match self {
            PaymentStatus::Success => "payment_success",
            PaymentStatus::Failure => "payment_failure",
        }
    }
}

/// Entry point for payroll payments on the external network.  The network
/// transaction itself is a stand-in; the input validation around it is
/// exact: a zero amount or an empty worker identifier never pays out.
pub struct StellarIntegration;

impl StellarIntegration {
    /// Processes a payroll payment for a worker.
    pub fn process_stellar_payment(worker_id: &str, amount: u64) -> (status: PaymentStatus)
        ensures
            status == (if amount == 0 || worker_id@.len() == 0 {
                PaymentStatus::Failure
            } else {
                PaymentStatus::Success
            }),
    {
        if amount == 0 || worker_id.is_empty() {
            return PaymentStatus::Failure;
        }
        PaymentStatus::Success
    }

    /// Verifies a payroll proof before executing the payment: empty proof
    /// bytes are rejected unconditionally.
    pub fn verify_payroll_proof(proof: &Vec<u8>) -> (valid: bool)
        ensures
            valid == (proof@.len() != 0),
    {
        proof.len() != 0
    }
}

} // verus!
