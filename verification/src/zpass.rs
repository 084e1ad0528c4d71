use vstd::prelude::*;
use std::collections::HashMap;
use crate::errors::PayrollError;
use crate::util::bytes_eq;

verus! {

broadcast use vstd::std_specs::hash::group_hash_axioms;

/// One worker's verification record: the identity proof submitted at
/// registration and the KYC flag set once that proof is matched again.
#[derive(Clone, Debug, PartialEq, Eq)]
pub struct WorkerVerification {
    pub worker_id: u64,
    pub zk_proof: Vec<u8>,
    pub kyc_verified: bool,
}

/// Eligibility-pass exercise path: workers register an identity proof,
/// complete KYC by re-presenting the same proof, and only then become
/// eligible for payroll and staking rewards.
pub struct ZPassTestContract {
    verification_records: HashMap<u64, WorkerVerification>,
}

impl View for ZPassTestContract {
    type V = Map<u64, WorkerVerification>;

    closed spec fn view(&self) -> Map<u64, WorkerVerification> {
        self.verification_records@
    }
}

impl ZPassTestContract {
    pub fn new() -> (contract: ZPassTestContract)
        ensures
            contract@ == Map::<u64, WorkerVerification>::empty(),
    {
        ZPassTestContract { verification_records: HashMap::new() }
    }

    /// Records a worker's registration with the submitted identity proof;
    /// KYC starts unverified.
    pub fn test_worker_registration(&mut self, worker_id: u64, zk_proof: Vec<u8>) -> (registered:
        bool)
        ensures
            registered,
            final(self)@ == old(self)@.insert(
                worker_id,
                (WorkerVerification { worker_id, zk_proof, kyc_verified: false }),
            ),
    {
        self.verification_records.insert(
            worker_id,
            WorkerVerification { worker_id, zk_proof, kyc_verified: false },
        );
        true
    }

    /// Completes KYC for a registered worker: the presented proof must
    /// match the proof recorded at registration, byte for byte.
    pub fn test_kyc_verification(&mut self, worker_id: u64, zk_proof: Vec<u8>) -> (r: Result<
        (),
        PayrollError,
    >)
        ensures
            !old(self)@.contains_key(worker_id) ==> r == Err::<(), PayrollError>(
                PayrollError::NotFound,
            ) && final(self)@ == old(self)@,
            old(self)@.contains_key(worker_id) && old(self)@[worker_id].zk_proof@ != zk_proof@ ==> r
                == Err::<(), PayrollError>(PayrollError::ProofInvalid) && final(self)@ == old(
                self,
            )@,
            old(self)@.contains_key(worker_id) && old(self)@[worker_id].zk_proof@ == zk_proof@ ==> {
                &&& r == Ok::<(), PayrollError>(())
                &&& final(self)@ == old(self)@.insert(
                    worker_id,
                    (WorkerVerification {
                        worker_id: old(self)@[worker_id].worker_id,
                        zk_proof,
                        kyc_verified: true,
                    }),
                )
            },
    {
        let (proof_matches, stored_worker_id) = match self.verification_records.get(&worker_id) {
            Some(record) => (bytes_eq(&record.zk_proof, &zk_proof), record.worker_id),
            None => {
                return Err(PayrollError::NotFound);
            },
        };
        if !proof_matches {
            return Err(PayrollError::ProofInvalid);
        }
        self.verification_records.insert(
            worker_id,
            WorkerVerification { worker_id: stored_worker_id, zk_proof, kyc_verified: true },
        );
        Ok(())
    }

    /// A worker is eligible for payroll only once KYC-verified.
    pub fn test_worker_eligibility_for_payroll(&self, worker_id: u64) -> (r: Result<
        (),
        PayrollError,
    >)
        ensures
            !self@.contains_key(worker_id) ==> r == Err::<(), PayrollError>(PayrollError::NotFound),
            self@.contains_key(worker_id) && !self@[worker_id].kyc_verified ==> r == Err::<
                (),
                PayrollError,
            >(PayrollError::Unauthorized),
            self@.contains_key(worker_id) && self@[worker_id].kyc_verified ==> r == Ok::<
                (),
                PayrollError,
            >(()),
    {
        match self.verification_records.get(&worker_id) {
            Some(record) => {
                if record.kyc_verified {
                    Ok(())
                } else {
                    Err(PayrollError::Unauthorized)
                }
            },
            None => Err(PayrollError::NotFound),
        }
    }

    /// Staking rewards are gated by the same KYC rule as payroll.
    pub fn test_worker_eligibility_for_staking_rewards(&self, worker_id: u64) -> (r: Result<
        (),
        PayrollError,
    >)
        ensures
            !self@.contains_key(worker_id) ==> r == Err::<(), PayrollError>(PayrollError::NotFound),
            self@.contains_key(worker_id) && !self@[worker_id].kyc_verified ==> r == Err::<
                (),
                PayrollError,
            >(PayrollError::Unauthorized),
            self@.contains_key(worker_id) && self@[worker_id].kyc_verified ==> r == Ok::<
                (),
                PayrollError,
            >(()),
    {
        self.test_worker_eligibility_for_payroll(worker_id)
    }
}

} // verus!
