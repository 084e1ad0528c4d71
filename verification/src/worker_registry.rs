use vstd::prelude::*;
use std::collections::HashMap;
use crate::errors::PayrollError;

verus! {

broadcast use vstd::std_specs::hash::group_hash_axioms;

/// A worker's registry profile: industry label, verification flag and the
/// timestamp of the KYC event that verified it.
#[derive(Clone, Debug, PartialEq, Eq)]
pub struct WorkerProfile {
    pub industry: String,
    pub verified: bool,
    pub kyc_timestamp: u64,
}

/// Admin-gated worker registry: every mutation must name the stored admin
/// identity, and a wrong or missing admin is refused (fail-closed).
pub struct WorkerIdentityContract {
    admin: Option<u64>,
    profiles: HashMap<u64, WorkerProfile>,
}

impl WorkerIdentityContract {
    pub closed spec fn spec_admin(&self) -> Option<u64> {
        self.admin
    }

    pub closed spec fn spec_profiles(&self) -> Map<u64, WorkerProfile> {
        self.profiles@
    }

    pub fn new() -> (registry: WorkerIdentityContract)
        ensures
            registry.spec_admin() == None::<u64>,
            registry.spec_profiles() == Map::<u64, WorkerProfile>::empty(),
    {
        WorkerIdentityContract { admin: None, profiles: HashMap::new() }
    }

    /// Stores the admin identity that gates every later mutation.
    pub fn initialize(&mut self, admin: u64)
        ensures
            final(self).spec_admin() == Some(admin),
            final(self).spec_profiles() == old(self).spec_profiles(),
    {
        self.admin = Some(admin);
    }

    /// Whether the caller-supplied admin matches the stored one; an
    /// uninitialized registry authorizes nobody.
    pub open spec fn spec_is_admin(&self, admin: u64) -> bool {
        self.spec_admin() == Some(admin)
    }

    fn check_admin(&self, admin: u64) -> (authorized: bool)
        ensures
            authorized == self.spec_is_admin(admin),
    {
        match self.admin {
            Some(stored_admin) => stored_admin == admin,
            None => false,
        }
    }

    /// Registers a worker with an industry label, unverified until a KYC
    /// event confirms it.
    pub fn register_worker(&mut self, admin: u64, worker_id: u64, industry: String) -> (r: Result<
        (),
        PayrollError,
    >)
        ensures
            !old(self).spec_is_admin(admin) ==> r == Err::<(), PayrollError>(
                PayrollError::Unauthorized,
            ) && final(self).spec_profiles() == old(self).spec_profiles(),
            old(self).spec_is_admin(admin) ==> r == Ok::<(), PayrollError>(()) && final(self).spec_profiles() == old(self).spec_profiles().insert(
                worker_id,
                (WorkerProfile { industry, verified: false, kyc_timestamp: 0 }),
            ),
            final(self).spec_admin() == old(self).spec_admin(),
    {
        if !self.check_admin(admin) {
            return Err(PayrollError::Unauthorized);
        }
        self.profiles.insert(
            worker_id,
            WorkerProfile { industry, verified: false, kyc_timestamp: 0 },
        );
        Ok(())
    }

    /// Marks a registered worker as verified and records the KYC
    /// timestamp.
    pub fn verify_worker(&mut self, admin: u64, worker_id: u64, kyc_timestamp: u64) -> (r: Result<
        (),
        PayrollError,
    >)
        ensures
            !old(self).spec_is_admin(admin) ==> r == Err::<(), PayrollError>(
                PayrollError::Unauthorized,
            ) && final(self).spec_profiles() == old(self).spec_profiles(),
            old(self).spec_is_admin(admin) && !old(self).spec_profiles().contains_key(worker_id)
                ==> r == Err::<(), PayrollError>(PayrollError::NotFound) && final(self).spec_profiles() == old(self).spec_profiles(),
            old(self).spec_is_admin(admin) && old(self).spec_profiles().contains_key(worker_id)
                ==> r == Ok::<(), PayrollError>(()) && final(self).spec_profiles() == old(
                self,
            ).spec_profiles().insert(
                worker_id,
                (WorkerProfile {
                    industry: old(self).spec_profiles()[worker_id].industry,
                    verified: true,
                    kyc_timestamp,
                }),
            ),
            final(self).spec_admin() == old(self).spec_admin(),
    {
        if !self.check_admin(admin) {
            return Err(PayrollError::Unauthorized);
        }
        let industry = match self.profiles.get(&worker_id) {
            Some(profile) => profile.industry.clone(),
            None => {
                return Err(PayrollError::NotFound);
            },
        };
        self.profiles.insert(
            worker_id,
            WorkerProfile { industry, verified: true, kyc_timestamp },
        );
        Ok(())
    }

    /// The stored profile for a worker, if any.
    pub fn get_worker_profile(&self, worker_id: u64) -> (profile: Option<&WorkerProfile>)
        ensures
            match profile {
                Some(p) => self.spec_profiles().contains_key(worker_id) && *p
                    == self.spec_profiles()[worker_id],
                None => !self.spec_profiles().contains_key(worker_id),
            },
    {
        self.profiles.get(&worker_id)
    }

    /// Replaces a registered worker's industry label.
    pub fn update_industry(&mut self, admin: u64, worker_id: u64, industry: String) -> (r: Result<
        (),
        PayrollError,
    >)
        ensures
            !old(self).spec_is_admin(admin) ==> r == Err::<(), PayrollError>(
                PayrollError::Unauthorized,
            ) && final(self).spec_profiles() == old(self).spec_profiles(),
            old(self).spec_is_admin(admin) && !old(self).spec_profiles().contains_key(worker_id)
                ==> r == Err::<(), PayrollError>(PayrollError::NotFound) && final(self).spec_profiles() == old(self).spec_profiles(),
            old(self).spec_is_admin(admin) && old(self).spec_profiles().contains_key(worker_id)
                ==> r == Ok::<(), PayrollError>(()) && final(self).spec_profiles() == old(
                self,
            ).spec_profiles().insert(
                worker_id,
                (WorkerProfile {
                    industry,
                    verified: old(self).spec_profiles()[worker_id].verified,
                    kyc_timestamp: old(self).spec_profiles()[worker_id].kyc_timestamp,
                }),
            ),
            final(self).spec_admin() == old(self).spec_admin(),
    {
        if !self.check_admin(admin) {
            return Err(PayrollError::Unauthorized);
        }
        let (verified, kyc_timestamp) = match self.profiles.get(&worker_id) {
            Some(profile) => (profile.verified, profile.kyc_timestamp),
            None => {
                return Err(PayrollError::NotFound);
            },
        };
        self.profiles.insert(
            worker_id,
            WorkerProfile { industry, verified, kyc_timestamp },
        );
        Ok(())
    }

    /// The stored admin identity; callable only once the registry is
    /// initialized.
    pub fn get_admin(&self) -> (admin: u64)
        requires
            self.spec_admin() is Some,
        ensures
            self.spec_admin() == Some(admin),
    {
        match self.admin {
            Some(admin) => admin,
            None => unreached(),
        }
    }
}

} // verus!
