use vstd::prelude::*;
use std::collections::HashMap;

verus! {

broadcast use vstd::std_specs::hash::group_hash_axioms;

/// Cumulative tax total an employer must reach before the registry reports
/// it compliant.
pub const REQUIRED_TAXES: u64 = 10000;

/// Amount credited by one payment event at the registry.
pub const TAX_PAYMENT_AMOUNT: u64 = 12000;

/// The government-side tax registry consulted for external compliance
/// checks.  Unlike the sticky flag of the compliance gate, this registry
/// derives its verdict from a threshold on the cumulative total.
pub struct TaxRegistry {
    taxes: HashMap<u64, u64>,
}

impl View for TaxRegistry {
    type V = Map<u64, u64>;

    closed spec fn view(&self) -> Map<u64, u64> {
        self.taxes@
    }
}

impl TaxRegistry {
    /// Cumulative taxes on record; zero for an unknown employer.
    pub open spec fn spec_taxes(&self, employer_id: u64) -> int {
        if self@.contains_key(employer_id) {
            self@[employer_id] as int
        } else {
            0
        }
    }

    pub fn new() -> (registry: TaxRegistry)
        ensures
            registry@ == Map::<u64, u64>::empty(),
    {
        TaxRegistry { taxes: HashMap::new() }
    }

    /// Reports whether the employer's cumulative taxes meet the required
    /// threshold.  An unknown employer has paid nothing and fails.
    pub fn verify_tax(&self, employer_id: u64) -> (compliant: bool)
        ensures
            compliant == (self.spec_taxes(employer_id) >= REQUIRED_TAXES),
    {
        let taxes_paid = match self.taxes.get(&employer_id) {
            Some(total) => *total,
            None => 0,
        };
        taxes_paid >= REQUIRED_TAXES
    }

    /// Credits one payment event to the employer and returns the new
    /// cumulative balance.
    pub fn pay_taxes(&mut self, employer_id: u64) -> (new_total: u64)
        requires
            old(self).spec_taxes(employer_id) + TAX_PAYMENT_AMOUNT <= u64::MAX,
        ensures
            final(self).spec_taxes(employer_id) == old(self).spec_taxes(employer_id)
                + TAX_PAYMENT_AMOUNT,
            new_total == final(self).spec_taxes(employer_id),
            final(self)@ == old(self)@.insert(employer_id, new_total),
    {
        let prev = match self.taxes.get(&employer_id) {
            Some(total) => *total,
            None => 0,
        };
        let new_total = prev + TAX_PAYMENT_AMOUNT;
        self.taxes.insert(employer_id, new_total);
        new_total
    }
}

} // verus!
