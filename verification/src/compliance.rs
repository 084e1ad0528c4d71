use vstd::prelude::*;
use std::collections::HashMap;
use crate::errors::PayrollError;

verus! {

broadcast use vstd::std_specs::hash::group_hash_axioms;

/// Fixed penalty debited from the tax balance of a non-compliant employer.
pub const PENALTY_AMOUNT: i64 = 5000;

/// One employer's compliance record.
///
/// `compliant` is an explicit sticky flag: it is set by a payment event and
/// left untouched by a penalty event, never recomputed from `taxes_paid`.
/// `taxes_paid` is signed because a penalty may drive the balance below
/// zero, which then represents a debt.
#[derive(Clone, Copy, Debug, PartialEq, Eq, Structural)]
pub struct EmployerAccount {
    pub id: u64,
    pub taxes_paid: i64,
    pub compliant: bool,
    pub payroll_funds: u64,
}

/// Tracks tax payments, payroll funding and the compliance flag that gates
/// payroll execution.  Operations on a missing employer auto-create a zeroed
/// record rather than failing, so callers never see a "not found" error.
pub struct ComplianceGate {
    accounts: HashMap<u64, EmployerAccount>,
}

impl View for ComplianceGate {
    type V = Map<u64, EmployerAccount>;

    closed spec fn view(&self) -> Map<u64, EmployerAccount> {
        self.accounts@
    }
}

impl ComplianceGate {
    /// The stored compliance flag; `false` for an unknown employer
    /// (fail-closed).
    pub open spec fn spec_compliant(&self, employer_id: u64) -> bool {
        self@.contains_key(employer_id) && self@[employer_id].compliant
    }

    /// Cumulative taxes paid; zero for an unknown employer.
    pub open spec fn spec_taxes(&self, employer_id: u64) -> int {
        if self@.contains_key(employer_id) {
            self@[employer_id].taxes_paid as int
        } else {
            0
        }
    }

    /// Available payroll funds; zero for an unknown employer.
    pub open spec fn spec_funds(&self, employer_id: u64) -> int {
        if self@.contains_key(employer_id) {
            self@[employer_id].payroll_funds as int
        } else {
            0
        }
    }

    pub fn new() -> (gate: ComplianceGate)
        ensures
            gate@ == Map::<u64, EmployerAccount>::empty(),
    {
        ComplianceGate { accounts: HashMap::new() }
    }

    /// Records a tax payment and unconditionally restores compliance.
    ///
    /// Any positive payment flips the flag to `true`, regardless of the
    /// amount: a payment event resets standing; the flag is not derived
    /// from a threshold.  Returns the new cumulative total.
    pub fn record_tax_payment(&mut self, employer_id: u64, amount: u64) -> (r: Result<
        i64,
        PayrollError,
    >)
        requires
            amount <= i64::MAX,
            old(self).spec_taxes(employer_id) + amount <= i64::MAX,
        ensures
            amount == 0 ==> r == Err::<i64, PayrollError>(PayrollError::InvalidAmount)
                && final(self)@ == old(self)@,
            amount > 0 ==> {
                &&& final(self).spec_taxes(employer_id) == old(self).spec_taxes(employer_id)
                    + amount
                &&& final(self).spec_compliant(employer_id)
                &&& final(self).spec_funds(employer_id) == old(self).spec_funds(employer_id)
                &&& final(self)@[employer_id].id == employer_id
                &&& final(self)@ == old(self)@.insert(employer_id, final(self)@[employer_id])
                &&& r == Ok::<i64, PayrollError>(
                    (old(self).spec_taxes(employer_id) + amount) as i64,
                )
            },
    {
        if amount == 0 {
            return Err(PayrollError::InvalidAmount);
        }
        let prev = match self.accounts.get(&employer_id) {
            Some(account) => *account,
            None => EmployerAccount {
                id: employer_id,
                taxes_paid: 0,
                compliant: false,
                payroll_funds: 0,
            },
        };
        let new_total: i64 = prev.taxes_paid + (amount as i64);
        self.accounts.insert(
            employer_id,
            EmployerAccount {
                id: employer_id,
                taxes_paid: new_total,
                compliant: true,
                payroll_funds: prev.payroll_funds,
            },
        );
        Ok(new_total)
    }

    /// Returns the stored compliance flag, defaulting to `false` for an
    /// unknown employer.
    pub fn check_compliance(&self, employer_id: u64) -> (compliant: bool)
        ensures
            compliant == self.spec_compliant(employer_id),
    {
        match self.accounts.get(&employer_id) {
            Some(account) => account.compliant,
            None => false,
        }
    }

    /// Debits the fixed penalty from a non-compliant employer and leaves the
    /// flag false; a compliant employer is untouched and no penalty is
    /// reported.  The balance may go negative: the debt is kept as such.
    pub fn enforce_penalty(&mut self, employer_id: u64) -> (penalized: bool)
        requires
            !old(self).spec_compliant(employer_id) ==> old(self).spec_taxes(employer_id)
                - PENALTY_AMOUNT >= i64::MIN,
        ensures
            old(self).spec_compliant(employer_id) ==> final(self)@ == old(self)@ && !penalized,
            !old(self).spec_compliant(employer_id) ==> {
                &&& penalized
                &&& final(self).spec_taxes(employer_id) == old(self).spec_taxes(employer_id)
                    - PENALTY_AMOUNT
                &&& !final(self).spec_compliant(employer_id)
                &&& final(self).spec_funds(employer_id) == old(self).spec_funds(employer_id)
                &&& final(self)@[employer_id].id == employer_id
                &&& final(self)@ == old(self)@.insert(employer_id, final(self)@[employer_id])
            },
    {
        let prev = match self.accounts.get(&employer_id) {
            Some(account) => *account,
            None => EmployerAccount {
                id: employer_id,
                taxes_paid: 0,
                compliant: false,
                payroll_funds: 0,
            },
        };
        if prev.compliant {
            return false;
        }
        self.accounts.insert(
            employer_id,
            EmployerAccount {
                id: employer_id,
                taxes_paid: prev.taxes_paid - PENALTY_AMOUNT,
                compliant: false,
                payroll_funds: prev.payroll_funds,
            },
        );
        true
    }

    /// Overwrites the employer's available payroll funds.
    pub fn update_payroll_funding(&mut self, employer_id: u64, funds: u64)
        ensures
            final(self).spec_funds(employer_id) == funds,
            final(self).spec_taxes(employer_id) == old(self).spec_taxes(employer_id),
            final(self).spec_compliant(employer_id) == old(self).spec_compliant(employer_id),
            final(self)@[employer_id].id == employer_id,
            final(self)@ == old(self)@.insert(employer_id, final(self)@[employer_id]),
    {
        let prev = match self.accounts.get(&employer_id) {
            Some(account) => *account,
            None => EmployerAccount {
                id: employer_id,
                taxes_paid: 0,
                compliant: false,
                payroll_funds: 0,
            },
        };
        self.accounts.insert(
            employer_id,
            EmployerAccount {
                id: employer_id,
                taxes_paid: prev.taxes_paid,
                compliant: prev.compliant,
                payroll_funds: funds,
            },
        );
    }
}

/// Law: an employer that no operation has ever touched is non-compliant;
/// absence of a record reads as `false`.
pub proof fn lemma_unknown_employer_not_compliant(gate: &ComplianceGate, employer_id: u64)
    requires
        !gate@.contains_key(employer_id),
    ensures
        !gate.spec_compliant(employer_id),
{
}

/// Law: before any tax payment has been recorded, every compliance check
/// returns false: a fresh gate holds no employer at all.
pub proof fn lemma_fresh_gate_not_compliant(gate: &ComplianceGate, employer_id: u64)
    requires
        gate@ == Map::<u64, EmployerAccount>::empty(),
    ensures
        !gate.spec_compliant(employer_id),
{
}

} // verus!
