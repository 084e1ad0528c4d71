use vstd::prelude::*;
use std::collections::HashMap;
use crate::compliance::ComplianceGate;
use crate::errors::PayrollError;

verus! {

broadcast use vstd::std_specs::hash::group_hash_axioms;

/// One worker's payroll assignment.  Transitions `Pending` to `Processed`
/// (the `processed` flag) exactly once and never reverts.
#[derive(Clone, Copy, Debug, PartialEq, Eq, Structural)]
pub struct PayrollEntry {
    pub worker_id: u64,
    pub employer_id: u64,
    pub amount: u64,
    pub processed: bool,
    pub timestamp: u64,
}

/// Payroll ledger whose processing path re-checks employer compliance
/// before any fund transfer: a non-compliant employer leaves the pending
/// entry untouched, and the entry may be retried until compliance is
/// satisfied.
pub struct PayrollContract {
    payrolls: HashMap<u64, PayrollEntry>,
}

impl View for PayrollContract {
    type V = Map<u64, PayrollEntry>;

    closed spec fn view(&self) -> Map<u64, PayrollEntry> {
        self.payrolls@
    }
}

/// The ledger after one processing attempt for `worker_id`: the entry is
/// marked processed exactly when it exists, is still pending, its employer
/// passes the compliance gate and the external payout was confirmed; any
/// other attempt changes nothing.
pub open spec fn spec_process_one(
    entries: Map<u64, PayrollEntry>,
    gate: ComplianceGate,
    worker_id: u64,
    payout_confirmed: bool,
) -> Map<u64, PayrollEntry> {
    if entries.contains_key(worker_id) {
        let entry = entries[worker_id];
        if !entry.processed && gate.spec_compliant(entry.employer_id) && payout_confirmed {
            entries.insert(
                worker_id,
                PayrollEntry {
                    worker_id: entry.worker_id,
                    employer_id: entry.employer_id,
                    amount: entry.amount,
                    processed: true,
                    timestamp: entry.timestamp,
                },
            )
        } else {
            entries
        }
    } else {
        entries
    }
}

/// The ledger after processing each listed worker independently, in order,
/// under one payout confirmation.
pub open spec fn spec_process_batch(
    entries: Map<u64, PayrollEntry>,
    gate: ComplianceGate,
    workers: Seq<u64>,
    payout_confirmed: bool,
) -> Map<u64, PayrollEntry>
    decreases workers.len(),
{
    if workers.len() == 0 {
        entries
    } else {
        spec_process_batch(
            spec_process_one(entries, gate, workers[0], payout_confirmed),
            gate,
            workers.drop_first(),
            payout_confirmed,
        )
    }
}

proof fn lemma_process_batch_snoc(
    entries: Map<u64, PayrollEntry>,
    gate: ComplianceGate,
    workers: Seq<u64>,
    worker_id: u64,
    payout_confirmed: bool,
)
    ensures
        spec_process_batch(entries, gate, workers.push(worker_id), payout_confirmed)
            == spec_process_one(
            spec_process_batch(entries, gate, workers, payout_confirmed),
            gate,
            worker_id,
            payout_confirmed,
        ),
    decreases workers.len(),
{
    reveal_with_fuel(spec_process_batch, 3);
    if workers.len() == 0 {
        assert(workers.push(worker_id)[0] == worker_id);
        assert(workers.push(worker_id).drop_first() =~= workers);
    } else {
        assert(workers.push(worker_id)[0] == workers[0]);
        assert(workers.push(worker_id).drop_first() =~= workers.drop_first().push(worker_id));
        lemma_process_batch_snoc(
            spec_process_one(entries, gate, workers[0], payout_confirmed),
            gate,
            workers.drop_first(),
            worker_id,
            payout_confirmed,
        );
    }
}

impl PayrollContract {
    pub fn new() -> (contract: PayrollContract)
        ensures
            contract@ == Map::<u64, PayrollEntry>::empty(),
    {
        PayrollContract { payrolls: HashMap::new() }
    }

    /// Records a pending payroll assignment for a worker, overwriting any
    /// earlier assignment.
    pub fn assign_payroll(
        &mut self,
        worker_id: u64,
        employer_id: u64,
        amount: u64,
        now: u64,
    ) -> (r: Result<(), PayrollError>)
        ensures
            amount == 0 ==> r == Err::<(), PayrollError>(PayrollError::InvalidAmount) && final(self)@ == old(self)@,
            amount > 0 ==> r == Ok::<(), PayrollError>(()) && final(self)@ == old(self)@.insert(
                worker_id,
                (PayrollEntry { worker_id, employer_id, amount, processed: false, timestamp: now }),
            ),
    {
        if amount == 0 {
            return Err(PayrollError::InvalidAmount);
        }
        self.payrolls.insert(
            worker_id,
            PayrollEntry { worker_id, employer_id, amount, processed: false, timestamp: now },
        );
        Ok(())
    }

    /// Processes one worker's pending payroll.
    ///
    /// Employer compliance is re-checked immediately before the fund
    /// transfer; a non-compliant employer returns "not processed" and the
    /// pending entry stays untouched, available for retry.  The external
    /// payout runs on the transport collaborator (`execute_stellar_payout`
    /// stands in for it); its observed outcome enters as
    /// `payout_confirmed`, and the entry is marked processed only on a
    /// confirmed payout — an unconfirmed one leaves it pending.
    pub fn process_payroll(
        &mut self,
        worker_id: u64,
        gate: &ComplianceGate,
        payout_confirmed: bool,
    ) -> (r: Result<(), PayrollError>)
        ensures
            final(self)@ == spec_process_one(old(self)@, *gate, worker_id, payout_confirmed),
            !old(self)@.contains_key(worker_id) ==> r == Err::<(), PayrollError>(
                PayrollError::NotFound,
            ),
            old(self)@.contains_key(worker_id) && old(self)@[worker_id].processed ==> r == Err::<
                (),
                PayrollError,
            >(PayrollError::AlreadyProcessed),
            old(self)@.contains_key(worker_id) && !old(self)@[worker_id].processed && !gate
                .spec_compliant(old(self)@[worker_id].employer_id) ==> r == Err::<
                (),
                PayrollError,
            >(PayrollError::NotCompliant),
            old(self)@.contains_key(worker_id) && !old(self)@[worker_id].processed
                && gate.spec_compliant(old(self)@[worker_id].employer_id) && !payout_confirmed
                ==> r == Err::<(), PayrollError>(PayrollError::TransferFailed),
            old(self)@.contains_key(worker_id) && !old(self)@[worker_id].processed
                && gate.spec_compliant(old(self)@[worker_id].employer_id) && payout_confirmed
                ==> r == Ok::<(), PayrollError>(()),
    {
        let entry = match self.payrolls.get(&worker_id) {
            Some(entry) => *entry,
            None => {
                return Err(PayrollError::NotFound);
            },
        };
        if entry.processed {
            return Err(PayrollError::AlreadyProcessed);
        }
        let compliant = Self::verify_employer_compliance(gate, entry.employer_id);
        if !compliant {
            return Err(PayrollError::NotCompliant);
        }
        if !payout_confirmed {
            return Err(PayrollError::TransferFailed);
        }
        self.payrolls.insert(
            worker_id,
            PayrollEntry {
                worker_id: entry.worker_id,
                employer_id: entry.employer_id,
                amount: entry.amount,
                processed: true,
                timestamp: entry.timestamp,
            },
        );
        Ok(())
    }

    /// Processes each listed worker independently: one worker's rejection
    /// neither blocks nor rolls back any other worker's processing.  The
    /// payout confirmation observed for this run applies to every listed
    /// worker; callers that observe per-worker outcomes call
    /// `process_payroll` directly.
    pub fn process_batch_payroll(
        &mut self,
        workers: &Vec<u64>,
        gate: &ComplianceGate,
        payout_confirmed: bool,
    ) -> (r: bool)
        ensures
            final(self)@ == spec_process_batch(old(self)@, *gate, workers@, payout_confirmed),
            r,
    {
        let mut i: usize = 0;
        while i < workers.len()
            invariant
                0 <= i <= workers@.len(),
                self@ == spec_process_batch(
                    old(self)@,
                    *gate,
                    workers@.take(i as int),
                    payout_confirmed,
                ),
            decreases workers@.len() - i,
        {
            let worker_id = workers[i];
            let _ = self.process_payroll(worker_id, gate, payout_confirmed);
            proof {
                assert(workers@.take(i as int).push(worker_id) =~= workers@.take(i as int + 1));
                lemma_process_batch_snoc(
                    old(self)@,
                    *gate,
                    workers@.take(i as int),
                    worker_id,
                    payout_confirmed,
                );
            }
            i += 1;
        }
        proof {
            assert(workers@.take(workers@.len() as int) =~= workers@);
        }
        true
    }

    /// Re-checks the employer against the compliance gate before payroll
    /// execution.
    pub fn verify_employer_compliance(gate: &ComplianceGate, employer_id: u64) -> (compliant: bool)
        ensures
            compliant == gate.spec_compliant(employer_id),
    {
        gate.check_compliance(employer_id)
    }

    /// Stand-in for the external cross-ledger payout transport, which
    /// always reports success here; a production deployment wires a real
    /// collaborator.  Callers perform the payout through it and hand the
    /// observed outcome to `process_payroll` as `payout_confirmed`.
    pub fn execute_stellar_payout(worker_id: u64, amount: u64) -> (success: bool)
        ensures
            success,
    {
        let _ = worker_id;
        let _ = amount;
        true
    }
}

} // verus!
