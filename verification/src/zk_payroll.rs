use vstd::prelude::*;
use std::collections::HashMap;
use crate::errors::PayrollError;

verus! {

broadcast use vstd::std_specs::hash::group_hash_axioms;

/// One worker's payroll record on the proof-gated path.
#[derive(Clone, Copy, Debug, PartialEq, Eq, Structural)]
pub struct PayrollRecord {
    pub worker_id: u64,
    pub employer_id: u64,
    pub amount: u64,
    pub processed: bool,
}

/// Payroll ledger whose processing path is gated by a zero-knowledge
/// eligibility proof instead of the employer compliance gate.
pub struct ZKPayrollContract {
    payrolls: HashMap<u64, PayrollRecord>,
}

impl View for ZKPayrollContract {
    type V = Map<u64, PayrollRecord>;

    closed spec fn view(&self) -> Map<u64, PayrollRecord> {
        self.payrolls@
    }
}

impl ZKPayrollContract {
    pub fn new() -> (contract: ZKPayrollContract)
        ensures
            contract@ == Map::<u64, PayrollRecord>::empty(),
    {
        ZKPayrollContract { payrolls: HashMap::new() }
    }

    /// Records a pending payroll assignment for a worker, overwriting any
    /// earlier assignment.
    pub fn assign_payroll(&mut self, worker_id: u64, employer_id: u64, amount: u64) -> (r: Result<
        (),
        PayrollError,
    >)
        ensures
            amount == 0 ==> r == Err::<(), PayrollError>(PayrollError::InvalidAmount) && final(self)@ == old(self)@,
            amount > 0 ==> r == Ok::<(), PayrollError>(()) && final(self)@ == old(self)@.insert(
                worker_id,
                (PayrollRecord { worker_id, employer_id, amount, processed: false }),
            ),
    {
        if amount == 0 {
            return Err(PayrollError::InvalidAmount);
        }
        self.payrolls.insert(
            worker_id,
            PayrollRecord { worker_id, employer_id, amount, processed: false },
        );
        Ok(())
    }

    /// Verdict of the payroll eligibility proof.  Empty proof bytes are
    /// rejected unconditionally; any non-empty proof is accepted by this
    /// stand-in, where a production deployment wires a real proof system.
    pub fn verify_payroll_zk_proof(worker_id: u64, zk_proof: &Vec<u8>) -> (valid: bool)
        ensures
            valid == (zk_proof@.len() != 0),
    {
        let _ = worker_id;
        zk_proof.len() != 0
    }

    /// Processes one worker's pending payroll after proof verification.
    ///
    /// An invalid proof is rejected before the ledger is consulted.  The
    /// external transfer runs on the transport collaborator
    /// (`execute_payroll_transfer` stands in for it); its observed outcome
    /// enters as `transfer_confirmed`, and the record is marked processed
    /// only on a confirmed transfer, exactly once — an unconfirmed one
    /// leaves it pending.
    pub fn process_payroll(
        &mut self,
        worker_id: u64,
        zk_proof: &Vec<u8>,
        transfer_confirmed: bool,
    ) -> (r: Result<(), PayrollError>)
        ensures
            zk_proof@.len() == 0 ==> r == Err::<(), PayrollError>(PayrollError::ProofInvalid)
                && final(self)@ == old(self)@,
            zk_proof@.len() != 0 && !old(self)@.contains_key(worker_id) ==> r == Err::<
                (),
                PayrollError,
            >(PayrollError::NotFound) && final(self)@ == old(self)@,
            zk_proof@.len() != 0 && old(self)@.contains_key(worker_id) && old(
                self,
            )@[worker_id].processed ==> r == Err::<(), PayrollError>(PayrollError::AlreadyProcessed)
                && final(self)@ == old(self)@,
            zk_proof@.len() != 0 && old(self)@.contains_key(worker_id) && !old(
                self,
            )@[worker_id].processed && !transfer_confirmed ==> r == Err::<(), PayrollError>(
                PayrollError::TransferFailed,
            ) && final(self)@ == old(self)@,
            zk_proof@.len() != 0 && old(self)@.contains_key(worker_id) && !old(
                self,
            )@[worker_id].processed && transfer_confirmed ==> {
                &&& r == Ok::<(), PayrollError>(())
                &&& final(self)@ == old(self)@.insert(
                    worker_id,
                    (PayrollRecord {
                        worker_id: old(self)@[worker_id].worker_id,
                        employer_id: old(self)@[worker_id].employer_id,
                        amount: old(self)@[worker_id].amount,
                        processed: true,
                    }),
                )
            },
    {
        let valid = Self::verify_payroll_zk_proof(worker_id, zk_proof);
        if !valid {
            return Err(PayrollError::ProofInvalid);
        }
        let record = match self.payrolls.get(&worker_id) {
            Some(record) => *record,
            None => {
                return Err(PayrollError::NotFound);
            },
        };
        if record.processed {
            return Err(PayrollError::AlreadyProcessed);
        }
        if !transfer_confirmed {
            return Err(PayrollError::TransferFailed);
        }
        self.payrolls.insert(
            worker_id,
            PayrollRecord {
                worker_id: record.worker_id,
                employer_id: record.employer_id,
                amount: record.amount,
                processed: true,
            },
        );
        Ok(())
    }

    /// Stand-in for the external payroll transfer transport, which always
    /// reports success here; a production deployment wires a real
    /// collaborator.  Callers perform the transfer through it and hand the
    /// observed outcome to `process_payroll` as `transfer_confirmed`.
    pub fn execute_payroll_transfer(worker_id: u64, amount: u64) -> (success: bool)
        ensures
            success,
    {
        let _ = worker_id;
        let _ = amount;
        true
    }
}

} // verus!
