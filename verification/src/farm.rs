use vstd::prelude::*;
use std::collections::HashMap;
use crate::errors::PayrollError;

verus! {

broadcast use vstd::std_specs::hash::group_hash_axioms;

/// One investor's farm investment, pending approval until its commitment
/// proof validates.
#[derive(Clone, Copy, Debug, PartialEq, Eq, Structural)]
pub struct Investment {
    pub investor: u64,
    pub amount: u64,
    pub approved: bool,
    pub investment_timestamp: u64,
}

/// Farm investment pool: investments are recorded, approved on commitment
/// validation, and paid out — and removed — only once approved.
pub struct FarmInvestmentContract {
    investments: HashMap<u64, Investment>,
}

impl View for FarmInvestmentContract {
    type V = Map<u64, Investment>;

    closed spec fn view(&self) -> Map<u64, Investment> {
        self.investments@
    }
}

impl FarmInvestmentContract {
    pub fn new() -> (contract: FarmInvestmentContract)
        ensures
            contract@ == Map::<u64, Investment>::empty(),
    {
        FarmInvestmentContract { investments: HashMap::new() }
    }

    /// Records an investment for an investor, unapproved, overwriting any
    /// earlier record.
    pub fn add_investment(&mut self, investor: u64, amount: u64, now: u64) -> (r: Result<
        (),
        PayrollError,
    >)
        ensures
            amount == 0 ==> r == Err::<(), PayrollError>(PayrollError::InvalidAmount) && final(self)@ == old(self)@,
            amount > 0 ==> r == Ok::<(), PayrollError>(()) && final(self)@ == old(self)@.insert(
                investor,
                (Investment { investor, amount, approved: false, investment_timestamp: now }),
            ),
    {
        if amount == 0 {
            return Err(PayrollError::InvalidAmount);
        }
        self.investments.insert(
            investor,
            Investment { investor, amount, approved: false, investment_timestamp: now },
        );
        Ok(())
    }

    /// Approves a recorded investment once its commitment proof validates.
    pub fn approve_investment(&mut self, investor: u64, merkle_proof: &Vec<u8>) -> (r: Result<
        (),
        PayrollError,
    >)
        ensures
            !old(self)@.contains_key(investor) ==> r == Err::<(), PayrollError>(
                PayrollError::NotFound,
            ) && final(self)@ == old(self)@,
            old(self)@.contains_key(investor) && merkle_proof@.len() == 0 ==> r == Err::<
                (),
                PayrollError,
            >(PayrollError::ProofInvalid) && final(self)@ == old(self)@,
            old(self)@.contains_key(investor) && merkle_proof@.len() != 0 ==> {
                &&& r == Ok::<(), PayrollError>(())
                &&& final(self)@ == old(self)@.insert(
                    investor,
                    (Investment {
                        investor: old(self)@[investor].investor,
                        amount: old(self)@[investor].amount,
                        approved: true,
                        investment_timestamp: old(self)@[investor].investment_timestamp,
                    }),
                )
            },
    {
        let investment = match self.investments.get(&investor) {
            Some(investment) => *investment,
            None => {
                return Err(PayrollError::NotFound);
            },
        };
        let valid = Self::validate_merkle(investor, merkle_proof);
        if !valid {
            return Err(PayrollError::ProofInvalid);
        }
        self.investments.insert(
            investor,
            Investment {
                investor: investment.investor,
                amount: investment.amount,
                approved: true,
                investment_timestamp: investment.investment_timestamp,
            },
        );
        Ok(())
    }

    /// Pays out an approved investment and removes its record.  The
    /// external payout runs on the transport collaborator (`execute_payout`
    /// stands in for it); its observed outcome enters as
    /// `payout_confirmed`, and the record is removed only on a confirmed
    /// payout — an unconfirmed one leaves it in place.
    pub fn process_payout(&mut self, investor: u64, payout_confirmed: bool) -> (r: Result<
        (),
        PayrollError,
    >)
        ensures
            !old(self)@.contains_key(investor) ==> r == Err::<(), PayrollError>(
                PayrollError::NotFound,
            ) && final(self)@ == old(self)@,
            old(self)@.contains_key(investor) && !old(self)@[investor].approved ==> r == Err::<
                (),
                PayrollError,
            >(PayrollError::Unauthorized) && final(self)@ == old(self)@,
            old(self)@.contains_key(investor) && old(self)@[investor].approved
                && !payout_confirmed ==> r == Err::<(), PayrollError>(PayrollError::TransferFailed)
                && final(self)@ == old(self)@,
            old(self)@.contains_key(investor) && old(self)@[investor].approved && payout_confirmed
                ==> r == Ok::<(), PayrollError>(()) && final(self)@ == old(self)@.remove(investor),
    {
        let investment = match self.investments.get(&investor) {
            Some(investment) => *investment,
            None => {
                return Err(PayrollError::NotFound);
            },
        };
        if !investment.approved {
            return Err(PayrollError::Unauthorized);
        }
        if !payout_confirmed {
            return Err(PayrollError::TransferFailed);
        }
        self.investments.remove(&investor);
        Ok(())
    }

    /// Verdict of the commitment validation.  Empty proof bytes are
    /// rejected unconditionally; any non-empty proof is accepted by this
    /// stand-in, where a production deployment wires a real commitment
    /// check.
    pub fn validate_merkle(investor: u64, merkle_proof: &Vec<u8>) -> (valid: bool)
        ensures
            valid == (merkle_proof@.len() != 0),
    {
        let _ = investor;
        merkle_proof.len() != 0
    }

    /// Stand-in for the external payout transport, which always reports
    /// success here; a production deployment wires a real collaborator.
    /// Callers perform the payout through it and hand the observed outcome
    /// to `process_payout` as `payout_confirmed`.
    pub fn execute_payout(investor: u64, amount: u64) -> (success: bool)
        ensures
            success,
    {
        let _ = investor;
        let _ = amount;
        true
    }
}

} // verus!
