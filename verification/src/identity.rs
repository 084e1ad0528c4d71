use vstd::prelude::*;
use std::collections::HashMap;
use crate::errors::PayrollError;

verus! {

broadcast use vstd::std_specs::hash::group_hash_axioms;

/// A registered worker identity.  `worker_type` distinguishes the two
/// worker classes the pools serve (0 and 1); `industry_type` is an
/// industry-specific classification code.
#[derive(Clone, Copy, Debug, PartialEq, Eq, Structural)]
pub struct Worker {
    pub worker_id: u64,
    pub worker_type: u8,
    pub industry_type: u64,
    pub is_verified: bool,
    pub kyc_verified: bool,
}

/// Worker identity records, registered only after an identity proof and a
/// fallback KYC proof both verify.
pub struct WorkerIdentityContract {
    workers: HashMap<u64, Worker>,
}

impl View for WorkerIdentityContract {
    type V = Map<u64, Worker>;

    closed spec fn view(&self) -> Map<u64, Worker> {
        self.workers@
    }
}

impl WorkerIdentityContract {
    pub fn new() -> (contract: WorkerIdentityContract)
        ensures
            contract@ == Map::<u64, Worker>::empty(),
    {
        WorkerIdentityContract { workers: HashMap::new() }
    }

    /// Registers a worker identity after verifying the identity proof and
    /// the fallback KYC proof; either proof failing rejects the
    /// registration and leaves the records untouched.
    pub fn register_worker(
        &mut self,
        worker_id: u64,
        worker_type: u8,
        industry_type: u64,
        zk_proof: &Vec<u8>,
        merkle_kyc: &Vec<u8>,
    ) -> (r: Result<(), PayrollError>)
        requires
            worker_type == 0 || worker_type == 1,
        ensures
            zk_proof@.len() == 0 || merkle_kyc@.len() == 0 ==> r == Err::<(), PayrollError>(
                PayrollError::ProofInvalid,
            ) && final(self)@ == old(self)@,
            zk_proof@.len() != 0 && merkle_kyc@.len() != 0 ==> r == Ok::<(), PayrollError>(())
                && final(self)@ == old(self)@.insert(
                worker_id,
                (Worker {
                    worker_id,
                    worker_type,
                    industry_type,
                    is_verified: true,
                    kyc_verified: true,
                }),
            ),
    {
        let verified = Self::verify_worker_identity(worker_id, zk_proof);
        if !verified {
            return Err(PayrollError::ProofInvalid);
        }
        let kyc_verified = Self::verify_kyc_fallback(worker_id, merkle_kyc);
        if !kyc_verified {
            return Err(PayrollError::ProofInvalid);
        }
        self.workers.insert(
            worker_id,
            Worker { worker_id, worker_type, industry_type, is_verified: true, kyc_verified: true },
        );
        Ok(())
    }

    /// A worker counts as verified only when registered with both the
    /// identity and the KYC verification in place.
    pub fn is_verified_worker(&self, worker_id: u64) -> (verified: bool)
        ensures
            verified == (self@.contains_key(worker_id) && self@[worker_id].is_verified
                && self@[worker_id].kyc_verified),
    {
        match self.workers.get(&worker_id) {
            Some(worker) => worker.is_verified && worker.kyc_verified,
            None => false,
        }
    }

    /// Verdict of the zero-knowledge identity proof.  Empty proof bytes
    /// are rejected unconditionally; any non-empty proof is accepted by
    /// this stand-in, where a production deployment wires a real proof
    /// system.
    pub fn verify_worker_identity(worker_id: u64, zk_proof: &Vec<u8>) -> (valid: bool)
        ensures
            valid == (zk_proof@.len() != 0),
    {
        let _ = worker_id;
        zk_proof.len() != 0
    }

    /// Verdict of the fallback KYC proof, with the same unconditional
    /// rejection of empty proof bytes.
    pub fn verify_kyc_fallback(worker_id: u64, merkle_kyc: &Vec<u8>) -> (valid: bool)
        ensures
            valid == (merkle_kyc@.len() != 0),
    {
        let _ = worker_id;
        merkle_kyc.len() != 0
    }
}

} // verus!
