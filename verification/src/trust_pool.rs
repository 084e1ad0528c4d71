use vstd::prelude::*;
use std::collections::HashMap;
use crate::errors::PayrollError;

verus! {

broadcast use vstd::std_specs::hash::group_hash_axioms;

/// One worker's trust-pool record.  Created on the first contribution;
/// never deleted, only drawn down.
#[derive(Clone, Copy, Debug, PartialEq, Eq, Structural)]
pub struct TrustPoolRecord {
    pub worker_id: u64,
    pub total_contributed: u64,
    pub last_contribution_timestamp: u64,
}

/// Custodian of the trust pool: accepts contributions and serves the two
/// withdrawal paths, a KYC-gated full redemption and a quorum-gated partial
/// withdrawal.  Every debit is all-or-nothing with the external transfer:
/// if the transfer reports failure the debit is not applied.
pub struct PNCWTrustPoolContract {
    trust_records: HashMap<u64, TrustPoolRecord>,
}

impl View for PNCWTrustPoolContract {
    type V = Map<u64, TrustPoolRecord>;

    closed spec fn view(&self) -> Map<u64, TrustPoolRecord> {
        self.trust_records@
    }
}

/// A quorum is valid when the three approvers are pairwise distinct and
/// none of them is the requesting worker.
pub open spec fn spec_quorum_valid(
    worker_id: u64,
    approver1: u64,
    approver2: u64,
    approver3: u64,
) -> bool {
    &&& approver1 != approver2
    &&& approver1 != approver3
    &&& approver2 != approver3
    &&& approver1 != worker_id
    &&& approver2 != worker_id
    &&& approver3 != worker_id
}

impl PNCWTrustPoolContract {
    /// The worker's pool balance; zero for a worker never seen.
    pub open spec fn spec_balance(&self, worker_id: u64) -> int {
        if self@.contains_key(worker_id) {
            self@[worker_id].total_contributed as int
        } else {
            0
        }
    }

    pub fn new() -> (pool: PNCWTrustPoolContract)
        ensures
            pool@ == Map::<u64, TrustPoolRecord>::empty(),
    {
        PNCWTrustPoolContract { trust_records: HashMap::new() }
    }

    /// Credits a contribution to the worker's record, creating it on first
    /// use, and stamps the contribution time.
    pub fn contribute_to_trust_pool(
        &mut self,
        worker_id: u64,
        contribution_amount: u64,
        now: u64,
    ) -> (r: Result<(), PayrollError>)
        requires
            old(self).spec_balance(worker_id) + contribution_amount <= u64::MAX,
        ensures
            contribution_amount == 0 ==> r == Err::<(), PayrollError>(PayrollError::InvalidAmount)
                && final(self)@ == old(self)@,
            contribution_amount > 0 ==> {
                &&& r == Ok::<(), PayrollError>(())
                &&& final(self).spec_balance(worker_id) == old(self).spec_balance(worker_id)
                    + contribution_amount
                &&& final(self)@.contains_key(worker_id)
                &&& final(self)@[worker_id].last_contribution_timestamp == now
                &&& final(self)@[worker_id].worker_id == worker_id
                &&& final(self)@ == old(self)@.insert(worker_id, final(self)@[worker_id])
            },
    {
        if contribution_amount == 0 {
            return Err(PayrollError::InvalidAmount);
        }
        let prev = match self.trust_records.get(&worker_id) {
            Some(record) => *record,
            None => TrustPoolRecord {
                worker_id,
                total_contributed: 0,
                last_contribution_timestamp: now,
            },
        };
        self.trust_records.insert(
            worker_id,
            TrustPoolRecord {
                worker_id,
                total_contributed: prev.total_contributed + contribution_amount,
                last_contribution_timestamp: now,
            },
        );
        Ok(())
    }

    /// Returns the worker's trust-pool balance, zero for an unseen worker.
    pub fn get_trust_pool_balance(&self, worker_id: u64) -> (balance: u64)
        ensures
            balance as int == self.spec_balance(worker_id),
    {
        match self.trust_records.get(&worker_id) {
            Some(record) => record.total_contributed,
            None => 0,
        }
    }

    /// Full redemption to a KYC-verified child identity.
    ///
    /// Checks, in order: a zero amount is rejected first, an unverified
    /// child fails closed, an unseen worker is not found, and an amount
    /// over the balance is reported as insufficient.  The external transfer
    /// itself runs on the transport collaborator (`execute_transfer` stands
    /// in for it here); its observed outcome enters as
    /// `transfer_confirmed`, and the debit is applied only on a confirmed
    /// transfer — an unconfirmed one leaves the record untouched
    /// (all-or-nothing).
    pub fn redeem_funds(
        &mut self,
        worker_id: u64,
        child_id: u64,
        withdrawal_amount: u64,
        kyc_verified: bool,
        transfer_confirmed: bool,
    ) -> (r: Result<(), PayrollError>)
        ensures
            withdrawal_amount == 0 ==> r == Err::<(), PayrollError>(PayrollError::InvalidAmount)
                && final(self)@ == old(self)@,
            withdrawal_amount > 0 && !kyc_verified ==> r == Err::<(), PayrollError>(
                PayrollError::Unauthorized,
            ) && final(self)@ == old(self)@,
            withdrawal_amount > 0 && kyc_verified && !old(self)@.contains_key(worker_id) ==> r
                == Err::<(), PayrollError>(PayrollError::NotFound) && final(self)@ == old(self)@,
            withdrawal_amount > 0 && kyc_verified && old(self)@.contains_key(worker_id) && old(
                self,
            ).spec_balance(worker_id) < withdrawal_amount ==> r == Err::<(), PayrollError>(
                PayrollError::InsufficientBalance,
            ) && final(self)@ == old(self)@,
            withdrawal_amount > 0 && kyc_verified && old(self)@.contains_key(worker_id) && old(
                self,
            ).spec_balance(worker_id) >= withdrawal_amount && !transfer_confirmed ==> r == Err::<
                (),
                PayrollError,
            >(PayrollError::TransferFailed) && final(self)@ == old(self)@,
            withdrawal_amount > 0 && kyc_verified && old(self)@.contains_key(worker_id) && old(
                self,
            ).spec_balance(worker_id) >= withdrawal_amount && transfer_confirmed ==> {
                &&& r == Ok::<(), PayrollError>(())
                &&& final(self).spec_balance(worker_id) == old(self).spec_balance(worker_id)
                    - withdrawal_amount
                &&& final(self)@[worker_id].worker_id == worker_id
                &&& final(self)@[worker_id].last_contribution_timestamp == old(
                    self,
                )@[worker_id].last_contribution_timestamp
                &&& final(self)@ == old(self)@.insert(worker_id, final(self)@[worker_id])
            },
    {
        let _ = child_id;
        if withdrawal_amount == 0 {
            return Err(PayrollError::InvalidAmount);
        }
        if !kyc_verified {
            return Err(PayrollError::Unauthorized);
        }
        let record = match self.trust_records.get(&worker_id) {
            Some(record) => *record,
            None => {
                return Err(PayrollError::NotFound);
            },
        };
        if record.total_contributed < withdrawal_amount {
            return Err(PayrollError::InsufficientBalance);
        }
        if !transfer_confirmed {
            return Err(PayrollError::TransferFailed);
        }
        self.trust_records.insert(
            worker_id,
            TrustPoolRecord {
                worker_id,
                total_contributed: record.total_contributed - withdrawal_amount,
                last_contribution_timestamp: record.last_contribution_timestamp,
            },
        );
        Ok(())
    }

    /// Partial withdrawal before full redemption age, authorized by a
    /// quorum of three other workers instead of the beneficiary's KYC.
    ///
    /// Checks, in order: a zero amount is rejected first, an unseen worker
    /// is not found, an invalid approval set is unauthorized before any
    /// balance is consulted, and an amount over the balance is reported as
    /// insufficient — a distinct error from quorum failure.  The observed
    /// outcome of the external transfer enters as `transfer_confirmed`, and
    /// the debit is applied only on a confirmed transfer (all-or-nothing).
    pub fn request_partial_withdrawal(
        &mut self,
        worker_id: u64,
        withdrawal_amount: u64,
        approver1: u64,
        approver2: u64,
        approver3: u64,
        transfer_confirmed: bool,
    ) -> (r: Result<(), PayrollError>)
        ensures
            withdrawal_amount == 0 ==> r == Err::<(), PayrollError>(PayrollError::InvalidAmount)
                && final(self)@ == old(self)@,
            withdrawal_amount > 0 && !old(self)@.contains_key(worker_id) ==> r == Err::<
                (),
                PayrollError,
            >(PayrollError::NotFound) && final(self)@ == old(self)@,
            withdrawal_amount > 0 && old(self)@.contains_key(worker_id) && !spec_quorum_valid(
                worker_id,
                approver1,
                approver2,
                approver3,
            ) ==> r == Err::<(), PayrollError>(PayrollError::Unauthorized) && final(self)@ == old(
                self,
            )@,
            withdrawal_amount > 0 && old(self)@.contains_key(worker_id) && spec_quorum_valid(
                worker_id,
                approver1,
                approver2,
                approver3,
            ) && old(self).spec_balance(worker_id) < withdrawal_amount ==> r == Err::<
                (),
                PayrollError,
            >(PayrollError::InsufficientBalance) && final(self)@ == old(self)@,
            withdrawal_amount > 0 && old(self)@.contains_key(worker_id) && spec_quorum_valid(
                worker_id,
                approver1,
                approver2,
                approver3,
            ) && old(self).spec_balance(worker_id) >= withdrawal_amount && !transfer_confirmed
                ==> r == Err::<(), PayrollError>(PayrollError::TransferFailed) && final(self)@
                == old(self)@,
            withdrawal_amount > 0 && old(self)@.contains_key(worker_id) && spec_quorum_valid(
                worker_id,
                approver1,
                approver2,
                approver3,
            ) && old(self).spec_balance(worker_id) >= withdrawal_amount && transfer_confirmed
                ==> {
                &&& r == Ok::<(), PayrollError>(())
                &&& final(self).spec_balance(worker_id) == old(self).spec_balance(worker_id)
                    - withdrawal_amount
                &&& final(self)@[worker_id].worker_id == worker_id
                &&& final(self)@[worker_id].last_contribution_timestamp == old(
                    self,
                )@[worker_id].last_contribution_timestamp
                &&& final(self)@ == old(self)@.insert(worker_id, final(self)@[worker_id])
            },
    {
        if withdrawal_amount == 0 {
            return Err(PayrollError::InvalidAmount);
        }
        let record = match self.trust_records.get(&worker_id) {
            Some(record) => *record,
            None => {
                return Err(PayrollError::NotFound);
            },
        };
        let approved = Self::verify_approval(worker_id, approver1, approver2, approver3);
        if !approved {
            return Err(PayrollError::Unauthorized);
        }
        if record.total_contributed < withdrawal_amount {
            return Err(PayrollError::InsufficientBalance);
        }
        if !transfer_confirmed {
            return Err(PayrollError::TransferFailed);
        }
        self.trust_records.insert(
            worker_id,
            TrustPoolRecord {
                worker_id,
                total_contributed: record.total_contributed - withdrawal_amount,
                last_contribution_timestamp: record.last_contribution_timestamp,
            },
        );
        Ok(())
    }

    /// Stand-in for the external transfer transport, which always reports
    /// success here; a production deployment wires a real collaborator.
    /// Callers perform the transfer through it and hand the observed
    /// outcome to the withdrawal paths as `transfer_confirmed`.
    pub fn execute_transfer(recipient: u64, amount: u64) -> (success: bool)
        ensures
            success,
    {
        let _ = recipient;
        let _ = amount;
        true
    }

    /// Validates the approval set as a unit: three pairwise-distinct
    /// approvers, none of them the requesting worker.
    pub fn verify_approval(
        worker_id: u64,
        approver1: u64,
        approver2: u64,
        approver3: u64,
    ) -> (approved: bool)
        ensures
            approved == spec_quorum_valid(worker_id, approver1, approver2, approver3),
    {
        approver1 != approver2 && approver1 != approver3 && approver2 != approver3 && approver1
            != worker_id && approver2 != worker_id && approver3 != worker_id
    }
}

/// One event in a worker's trust-pool history, as the accounting law sees
/// it.  `authorized` stands for the conjunction of the withdrawal path's
/// authorization — the child's KYC verdict for a full redemption, the
/// quorum verdict for a partial withdrawal — with the confirmation of the
/// external transfer.
pub enum PoolEvent {
    Contribute { amount: u64 },
    Withdraw { amount: u64, authorized: bool },
}

/// Whether a withdrawal event settles at the given balance: it must be
/// authorized, positive and covered.
pub open spec fn spec_withdrawal_settles(balance: int, amount: u64, authorized: bool) -> bool {
    authorized && amount > 0 && amount <= balance
}

/// The balance after one event.  A contribution credits its amount (a zero
/// contribution is rejected and credits nothing); a withdrawal debits its
/// amount exactly when it settles, and leaves the balance untouched
/// otherwise — the all-or-nothing rule.
pub open spec fn spec_apply_event(balance: int, event: PoolEvent) -> int {
    match event {
        PoolEvent::Contribute { amount } => balance + amount,
        PoolEvent::Withdraw { amount, authorized } => if spec_withdrawal_settles(
            balance,
            amount,
            authorized,
        ) {
            balance - amount
        } else {
            balance
        },
    }
}

/// The balance after a sequence of events, applied in order.
pub open spec fn spec_apply_events(balance: int, events: Seq<PoolEvent>) -> int
    decreases events.len(),
{
    if events.len() == 0 {
        balance
    } else {
        spec_apply_events(spec_apply_event(balance, events[0]), events.drop_first())
    }
}

/// The total credited by the contributions of a history.
pub open spec fn spec_contributions_sum(events: Seq<PoolEvent>) -> int
    decreases events.len(),
{
    if events.len() == 0 {
        0
    } else {
        (match events[0] {
            PoolEvent::Contribute { amount } => amount as int,
            PoolEvent::Withdraw { .. } => 0,
        }) + spec_contributions_sum(events.drop_first())
    }
}

/// The total debited by the withdrawals of a history that settle, given
/// the starting balance.
pub open spec fn spec_withdrawn_sum(balance: int, events: Seq<PoolEvent>) -> int
    decreases events.len(),
{
    if events.len() == 0 {
        0
    } else {
        (match events[0] {
            PoolEvent::Contribute { .. } => 0,
            PoolEvent::Withdraw { amount, authorized } => if spec_withdrawal_settles(
                balance,
                amount,
                authorized,
            ) {
                amount as int
            } else {
                0
            },
        }) + spec_withdrawn_sum(spec_apply_event(balance, events[0]), events.drop_first())
    }
}

/// Law: after any sequence of contributions and withdrawals, a worker's
/// balance equals the starting balance plus the sum of contributions minus
/// the sum of the withdrawals that settled, and it is never negative.
///
/// The event model matches the contracts above: `contribute_to_trust_pool`
/// credits exactly its amount, and both withdrawal paths debit exactly
/// their amount when they are authorized and covered by the balance,
/// leaving the record untouched otherwise.
pub proof fn lemma_balance_accounting(balance: int, events: Seq<PoolEvent>)
    requires
        balance >= 0,
    ensures
        spec_apply_events(balance, events) == balance + spec_contributions_sum(events)
            - spec_withdrawn_sum(balance, events),
        spec_apply_events(balance, events) >= 0,
    decreases events.len(),
{
    if events.len() == 0 {
    } else {
        lemma_balance_accounting(spec_apply_event(balance, events[0]), events.drop_first());
    }
}

} // verus!
