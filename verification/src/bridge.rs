use vstd::prelude::*;
use std::collections::HashMap;
use crate::errors::PayrollError;

verus! {

broadcast use vstd::std_specs::hash::group_hash_axioms;

/// Category attached to every ledger movement; it drives the bridge
/// policy.
#[derive(Clone, Copy, Debug, PartialEq, Eq, Structural)]
pub enum FundCategory {
    Payroll,
    TrustFund,
    PtoSick,
}

/// Whether a fund category may cross a ledger boundary at all.  Payroll
/// and trust-fund movements may; PTO/sick-pay movements never may, under
/// any compliance or quorum state.
pub open spec fn spec_bridge_allowed(category: FundCategory) -> bool {
    category != FundCategory::PtoSick
}

/// Auditable record of a refused bridge attempt.
#[derive(Clone, Debug, PartialEq, Eq)]
pub struct BridgeEvent {
    pub worker_id: u64,
    pub note: String,
}

/// Cross-ledger bridge for payroll and trust-fund balances, with the
/// employer USDC reserves that fund them.  Any attempt to move PTO/sick
/// pay across ledgers is refused and recorded as an auditable event rather
/// than silently dropped.
pub struct StellarBridgePayroll {
    payroll_balances: HashMap<u64, u64>,
    trust_fund_balances: HashMap<u64, u64>,
    employer_usdc_reserves: HashMap<u64, u64>,
    events: Vec<BridgeEvent>,
}

/// The balance a ledger map holds for an identity; zero when unseen.
pub open spec fn spec_balance_in(balances: Map<u64, u64>, id: u64) -> int {
    if balances.contains_key(id) {
        balances[id] as int
    } else {
        0
    }
}

impl StellarBridgePayroll {
    pub closed spec fn spec_payroll(&self) -> Map<u64, u64> {
        self.payroll_balances@
    }

    pub closed spec fn spec_trust_fund(&self) -> Map<u64, u64> {
        self.trust_fund_balances@
    }

    pub closed spec fn spec_reserves(&self) -> Map<u64, u64> {
        self.employer_usdc_reserves@
    }

    pub closed spec fn spec_events(&self) -> Seq<BridgeEvent> {
        self.events@
    }

    pub fn new() -> (bridge: StellarBridgePayroll)
        ensures
            bridge.spec_payroll() == Map::<u64, u64>::empty(),
            bridge.spec_trust_fund() == Map::<u64, u64>::empty(),
            bridge.spec_reserves() == Map::<u64, u64>::empty(),
            bridge.spec_events() == Seq::<BridgeEvent>::empty(),
    {
        StellarBridgePayroll {
            payroll_balances: HashMap::new(),
            trust_fund_balances: HashMap::new(),
            employer_usdc_reserves: HashMap::new(),
            events: Vec::new(),
        }
    }

    /// The per-worker bridgeable payroll balances.
    pub fn payroll_balances(&self) -> (balances: &HashMap<u64, u64>)
        ensures
            balances@ == self.spec_payroll(),
    {
        &self.payroll_balances
    }

    /// Credits a worker's bridgeable payroll balance.
    pub fn fund_payroll_balance(&mut self, worker_id: u64, amount: u64)
        requires
            spec_balance_in(old(self).spec_payroll(), worker_id) + amount <= u64::MAX,
        ensures
            spec_balance_in(final(self).spec_payroll(), worker_id) == spec_balance_in(
                old(self).spec_payroll(),
                worker_id,
            ) + amount,
            final(self).spec_payroll() == old(self).spec_payroll().insert(
                worker_id,
                final(self).spec_payroll()[worker_id],
            ),
            final(self).spec_trust_fund() == old(self).spec_trust_fund(),
            final(self).spec_reserves() == old(self).spec_reserves(),
            final(self).spec_events() == old(self).spec_events(),
    {
        let prev = match self.payroll_balances.get(&worker_id) {
            Some(balance) => *balance,
            None => 0,
        };
        self.payroll_balances.insert(worker_id, prev + amount);
    }

    /// The per-worker bridgeable trust-fund balances.
    pub fn trust_fund_balances(&self) -> (balances: &HashMap<u64, u64>)
        ensures
            balances@ == self.spec_trust_fund(),
    {
        &self.trust_fund_balances
    }

    /// Credits a worker's bridgeable trust-fund balance.
    pub fn fund_trust_fund_balance(&mut self, worker_id: u64, amount: u64)
        requires
            spec_balance_in(old(self).spec_trust_fund(), worker_id) + amount <= u64::MAX,
        ensures
            spec_balance_in(final(self).spec_trust_fund(), worker_id) == spec_balance_in(
                old(self).spec_trust_fund(),
                worker_id,
            ) + amount,
            final(self).spec_trust_fund() == old(self).spec_trust_fund().insert(
                worker_id,
                final(self).spec_trust_fund()[worker_id],
            ),
            final(self).spec_payroll() == old(self).spec_payroll(),
            final(self).spec_reserves() == old(self).spec_reserves(),
            final(self).spec_events() == old(self).spec_events(),
    {
        let prev = match self.trust_fund_balances.get(&worker_id) {
            Some(balance) => *balance,
            None => 0,
        };
        self.trust_fund_balances.insert(worker_id, prev + amount);
    }

    /// The per-employer USDC reserves that fund payroll.
    pub fn employer_usdc_reserves(&self) -> (reserves: &HashMap<u64, u64>)
        ensures
            reserves@ == self.spec_reserves(),
    {
        &self.employer_usdc_reserves
    }

    /// Deposits USDC into the employer's payroll-funding reserve.
    pub fn deposit_usdc(&mut self, employer_id: u64, amount: u64) -> (r: Result<(), PayrollError>)
        requires
            spec_balance_in(old(self).spec_reserves(), employer_id) + amount <= u64::MAX,
        ensures
            amount == 0 ==> r == Err::<(), PayrollError>(PayrollError::InvalidAmount) && final(self).spec_reserves() == old(self).spec_reserves(),
            amount > 0 ==> {
                &&& r == Ok::<(), PayrollError>(())
                &&& spec_balance_in(final(self).spec_reserves(), employer_id) == spec_balance_in(
                    old(self).spec_reserves(),
                    employer_id,
                ) + amount
                &&& final(self).spec_reserves() == old(self).spec_reserves().insert(
                    employer_id,
                    final(self).spec_reserves()[employer_id],
                )
            },
            final(self).spec_payroll() == old(self).spec_payroll(),
            final(self).spec_trust_fund() == old(self).spec_trust_fund(),
            final(self).spec_events() == old(self).spec_events(),
    {
        if amount == 0 {
            return Err(PayrollError::InvalidAmount);
        }
        let prev = match self.employer_usdc_reserves.get(&employer_id) {
            Some(balance) => *balance,
            None => 0,
        };
        self.employer_usdc_reserves.insert(employer_id, prev + amount);
        Ok(())
    }

    /// Withdraws USDC from the employer's reserve; only a covered amount
    /// leaves.
    pub fn withdraw_usdc(&mut self, employer_id: u64, amount: u64) -> (r: Result<(), PayrollError>)
        ensures
            spec_balance_in(old(self).spec_reserves(), employer_id) < amount ==> r == Err::<
                (),
                PayrollError,
            >(PayrollError::InsufficientBalance) && final(self).spec_reserves() == old(
                self,
            ).spec_reserves(),
            spec_balance_in(old(self).spec_reserves(), employer_id) >= amount ==> {
                &&& r == Ok::<(), PayrollError>(())
                &&& spec_balance_in(final(self).spec_reserves(), employer_id) == spec_balance_in(
                    old(self).spec_reserves(),
                    employer_id,
                ) - amount
                &&& final(self).spec_reserves() == old(self).spec_reserves().insert(
                    employer_id,
                    final(self).spec_reserves()[employer_id],
                )
            },
            final(self).spec_payroll() == old(self).spec_payroll(),
            final(self).spec_trust_fund() == old(self).spec_trust_fund(),
            final(self).spec_events() == old(self).spec_events(),
    {
        let prev = match self.employer_usdc_reserves.get(&employer_id) {
            Some(balance) => *balance,
            None => 0,
        };
        if prev < amount {
            return Err(PayrollError::InsufficientBalance);
        }
        self.employer_usdc_reserves.insert(employer_id, prev - amount);
        Ok(())
    }

    /// Bridges payroll funds out of the worker's payroll balance.
    pub fn bridge_payroll(&mut self, worker_id: u64, amount: u64) -> (r: Result<(), PayrollError>)
        ensures
            spec_balance_in(old(self).spec_payroll(), worker_id) < amount ==> r == Err::<
                (),
                PayrollError,
            >(PayrollError::InsufficientBalance) && final(self).spec_payroll() == old(
                self,
            ).spec_payroll(),
            spec_balance_in(old(self).spec_payroll(), worker_id) >= amount ==> {
                &&& r == Ok::<(), PayrollError>(())
                &&& spec_balance_in(final(self).spec_payroll(), worker_id) == spec_balance_in(
                    old(self).spec_payroll(),
                    worker_id,
                ) - amount
                &&& final(self).spec_payroll() == old(self).spec_payroll().insert(
                    worker_id,
                    final(self).spec_payroll()[worker_id],
                )
            },
            final(self).spec_trust_fund() == old(self).spec_trust_fund(),
            final(self).spec_reserves() == old(self).spec_reserves(),
            final(self).spec_events() == old(self).spec_events(),
    {
        let prev = match self.payroll_balances.get(&worker_id) {
            Some(balance) => *balance,
            None => 0,
        };
        if prev < amount {
            return Err(PayrollError::InsufficientBalance);
        }
        self.payroll_balances.insert(worker_id, prev - amount);
        Ok(())
    }

    /// Bridges trust-fund withdrawals out of the worker's trust-fund
    /// balance.
    pub fn bridge_trust_fund(&mut self, worker_id: u64, amount: u64) -> (r: Result<
        (),
        PayrollError,
    >)
        ensures
            spec_balance_in(old(self).spec_trust_fund(), worker_id) < amount ==> r == Err::<
                (),
                PayrollError,
            >(PayrollError::InsufficientBalance) && final(self).spec_trust_fund() == old(
                self,
            ).spec_trust_fund(),
            spec_balance_in(old(self).spec_trust_fund(), worker_id) >= amount ==> {
                &&& r == Ok::<(), PayrollError>(())
                &&& spec_balance_in(final(self).spec_trust_fund(), worker_id) == spec_balance_in(
                    old(self).spec_trust_fund(),
                    worker_id,
                ) - amount
                &&& final(self).spec_trust_fund() == old(self).spec_trust_fund().insert(
                    worker_id,
                    final(self).spec_trust_fund()[worker_id],
                )
            },
            final(self).spec_payroll() == old(self).spec_payroll(),
            final(self).spec_reserves() == old(self).spec_reserves(),
            final(self).spec_events() == old(self).spec_events(),
    {
        let prev = match self.trust_fund_balances.get(&worker_id) {
            Some(balance) => *balance,
            None => 0,
        };
        if prev < amount {
            return Err(PayrollError::InsufficientBalance);
        }
        self.trust_fund_balances.insert(worker_id, prev - amount);
        Ok(())
    }

    /// Refuses a PTO/sick-pay bridge attempt: no balance moves, and an
    /// auditable event records the refusal.
    pub fn attempt_bridge_pto_or_sick_pay(&mut self, worker_id: u64, amount: u64) -> (r: Result<
        (),
        PayrollError,
    >)
        ensures
            r == Err::<(), PayrollError>(PayrollError::PolicyViolation),
            final(self).spec_payroll() == old(self).spec_payroll(),
            final(self).spec_trust_fund() == old(self).spec_trust_fund(),
            final(self).spec_reserves() == old(self).spec_reserves(),
            final(self).spec_events() == old(self).spec_events().push(
                final(self).spec_events().last(),
            ),
            final(self).spec_events().last().worker_id == worker_id,
            final(self).spec_events().last().note@
                == "InvalidBridgeAttempt: PTO/Sick Pay cannot be bridged. Withdraw only on Aleo."@,
    {
        let _ = amount;
        self.events.push(
            BridgeEvent {
                worker_id,
                note:
                    "InvalidBridgeAttempt: PTO/Sick Pay cannot be bridged. Withdraw only on Aleo.".to_owned(),
            },
        );
        Err(PayrollError::PolicyViolation)
    }

    /// The single gate every cross-ledger movement passes: payroll and
    /// trust-fund categories are delegated to their bridges, and a
    /// PTO/sick-pay category is refused unconditionally — no compliance or
    /// quorum state re-enables it.
    pub fn bridge_funds(&mut self, category: FundCategory, worker_id: u64, amount: u64) -> (r:
        Result<(), PayrollError>)
        ensures
            category == FundCategory::PtoSick ==> {
                &&& r == Err::<(), PayrollError>(PayrollError::PolicyViolation)
                &&& final(self).spec_payroll() == old(self).spec_payroll()
                &&& final(self).spec_trust_fund() == old(self).spec_trust_fund()
                &&& final(self).spec_reserves() == old(self).spec_reserves()
                &&& final(self).spec_events().len() == old(self).spec_events().len() + 1
                &&& final(self).spec_events().last().worker_id == worker_id
                &&& final(self).spec_events().last().note@
                    == "InvalidBridgeAttempt: PTO/Sick Pay cannot be bridged. Withdraw only on Aleo."@
            },
            category != FundCategory::PtoSick ==> final(self).spec_events() == old(
                self,
            ).spec_events(),
            category == FundCategory::Payroll ==> {
                &&& final(self).spec_trust_fund() == old(self).spec_trust_fund()
                &&& (spec_balance_in(old(self).spec_payroll(), worker_id) >= amount ==> r == Ok::<
                    (),
                    PayrollError,
                >(()) && spec_balance_in(final(self).spec_payroll(), worker_id) == spec_balance_in(
                    old(self).spec_payroll(),
                    worker_id,
                ) - amount)
                &&& (spec_balance_in(old(self).spec_payroll(), worker_id) < amount ==> r == Err::<
                    (),
                    PayrollError,
                >(PayrollError::InsufficientBalance) && final(self).spec_payroll() == old(
                    self,
                ).spec_payroll())
            },
            category == FundCategory::TrustFund ==> {
                &&& final(self).spec_payroll() == old(self).spec_payroll()
                &&& (spec_balance_in(old(self).spec_trust_fund(), worker_id) >= amount ==> r
                    == Ok::<(), PayrollError>(()) && spec_balance_in(
                    final(self).spec_trust_fund(),
                    worker_id,
                ) == spec_balance_in(old(self).spec_trust_fund(), worker_id) - amount)
                &&& (spec_balance_in(old(self).spec_trust_fund(), worker_id) < amount ==> r
                    == Err::<(), PayrollError>(PayrollError::InsufficientBalance) && final(self).spec_trust_fund() == old(self).spec_trust_fund())
            },
            final(self).spec_reserves() == old(self).spec_reserves(),
    {
        match category {
            FundCategory::Payroll => self.bridge_payroll(worker_id, amount),
            FundCategory::TrustFund => self.bridge_trust_fund(worker_id, amount),
            FundCategory::PtoSick => self.attempt_bridge_pto_or_sick_pay(worker_id, amount),
        }
    }

    /// Reports whether the employer's USDC reserve covers the required
    /// amount.
    pub fn verify_employer_usdc(&self, employer_id: u64, required_amount: u64) -> (covered: bool)
        ensures
            covered == (spec_balance_in(self.spec_reserves(), employer_id)
                >= required_amount as int),
    {
        let reserve = match self.employer_usdc_reserves.get(&employer_id) {
            Some(balance) => *balance,
            None => 0,
        };
        reserve >= required_amount
    }

    /// The audit trail of refused bridge attempts.
    pub fn events(&self) -> (events: &Vec<BridgeEvent>)
        ensures
            events@ == self.spec_events(),
    {
        &self.events
    }
}

/// Law: the bridge policy never allows a PTO/sick-pay movement across
/// ledgers, whatever the compliance or quorum state around it.
pub proof fn lemma_pto_sick_never_bridges()
    ensures
        !spec_bridge_allowed(FundCategory::PtoSick),
        forall|category: FundCategory|
            !spec_bridge_allowed(category) ==> category == FundCategory::PtoSick,
{
}

} // verus!
