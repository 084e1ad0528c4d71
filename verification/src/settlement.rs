use vstd::prelude::*;
use std::collections::HashMap;
use crate::util::bytes_eq;

verus! {

broadcast use vstd::std_specs::hash::group_hash_axioms;

/// A gas fee at or above this limit marks the network unhealthy.
pub const GAS_FEE_LIMIT: u64 = 100;

/// A latency (in milliseconds) at or above this limit marks the network
/// unhealthy.
pub const LATENCY_LIMIT: u64 = 500;

/// Outcome of one settlement decision.
#[derive(Clone, Copy, Debug, PartialEq, Eq, Structural)]
pub enum Outcome {
    Approve,
    Escalate,
    Reject,
}

/// Append-only audit artifact produced by every decision call.
///
/// `inputs_hash` condenses the snapshot consulted (subject, network signals
/// and provided commitment) for replay checks; `settlement_target` names the
/// resolved record identifier when the outcome is `Approve`.
#[derive(Clone, Debug, PartialEq, Eq)]
pub struct DecisionRecord {
    pub subject_id: u64,
    pub inputs_hash: u64,
    pub outcome: Outcome,
    pub settlement_target: Option<u64>,
    pub reason: String,
}

/// The central arbiter: composes the stored commitment for a subject with
/// live network-health signals into one of approve, escalate or reject.
pub struct SettlementEngine {
    merkle_roots: HashMap<u64, Vec<u8>>,
    last_gas_fee: u64,
    last_network_latency: u64,
}

/// The decision rule, in strict priority order: an unhealthy network
/// escalates to a governance vote regardless of the commitment; otherwise a
/// matching commitment approves and a mismatch rejects.
pub open spec fn decision_outcome(network_healthy: bool, commitment_matches: bool) -> Outcome {
    if !network_healthy {
        Outcome::Escalate
    } else if commitment_matches {
        Outcome::Approve
    } else {
        Outcome::Reject
    }
}

/// One step of the audit hash: fold a byte into the accumulator.
pub open spec fn spec_hash_step(acc: u64, byte: u8) -> u64 {
    (acc ^ (byte as u64)).wrapping_mul(0x100000001b3)
}

/// The audit hash of the first `n` bytes, folded left to right.
pub open spec fn spec_hash_upto(seed: u64, bytes: Seq<u8>, n: int) -> u64
    decreases n,
{
    if n <= 0 {
        seed
    } else {
        spec_hash_step(spec_hash_upto(seed, bytes, n - 1), bytes[n - 1])
    }
}

/// The seed mixes the scalar parts of the consulted snapshot.
pub open spec fn spec_hash_seed(subject_id: u64, gas_fee: u64, latency: u64) -> u64 {
    (subject_id.wrapping_mul(0x9e3779b97f4a7c15) ^ gas_fee.wrapping_mul(0xff51afd7ed558ccd))
        ^ latency
}

/// The audit hash of one decision snapshot.
pub open spec fn spec_snapshot_hash(
    subject_id: u64,
    gas_fee: u64,
    latency: u64,
    provided_root: Seq<u8>,
) -> u64 {
    spec_hash_upto(
        spec_hash_seed(subject_id, gas_fee, latency),
        provided_root,
        provided_root.len() as int,
    )
}

/// Computes the audit hash of the snapshot a decision consulted.
fn snapshot_hash(subject_id: u64, gas_fee: u64, latency: u64, provided_root: &Vec<u8>) -> (h: u64)
    ensures
        h == spec_snapshot_hash(subject_id, gas_fee, latency, provided_root@),
{
    let mut h: u64 = (subject_id.wrapping_mul(0x9e3779b97f4a7c15) ^ gas_fee.wrapping_mul(
        0xff51afd7ed558ccd,
    )) ^ latency;
    let mut i: usize = 0;
    while i < provided_root.len()
        invariant
            0 <= i <= provided_root@.len(),
            h == spec_hash_upto(
                spec_hash_seed(subject_id, gas_fee, latency),
                provided_root@,
                i as int,
            ),
        decreases provided_root@.len() - i,
    {
        h = (h ^ (provided_root[i] as u64)).wrapping_mul(0x100000001b3);
        i += 1;
    }
    h
}

impl SettlementEngine {
    /// Whether a commitment is stored for the subject at all.
    pub open spec fn spec_has_root(&self, subject_id: u64) -> bool {
        self.spec_roots().contains_key(subject_id)
    }

    /// Whether the provided commitment matches the stored one.  A subject
    /// with no stored root matches nothing, not even an empty provided
    /// commitment: a missing root always mismatches (fail-closed).
    pub open spec fn spec_commitment_matches(&self, subject_id: u64, provided_root: Seq<u8>) -> bool {
        self.spec_has_root(subject_id) && self.spec_roots()[subject_id]@ == provided_root
    }

    pub closed spec fn spec_roots(&self) -> Map<u64, Vec<u8>> {
        self.merkle_roots@
    }

    pub closed spec fn spec_gas_fee(&self) -> u64 {
        self.last_gas_fee
    }

    pub closed spec fn spec_latency(&self) -> u64 {
        self.last_network_latency
    }

    /// The network is healthy when both signals are under their limits.
    pub open spec fn spec_network_healthy(&self) -> bool {
        self.spec_gas_fee() < GAS_FEE_LIMIT && self.spec_latency() < LATENCY_LIMIT
    }

    /// The outcome the engine owes for a subject and a provided commitment.
    pub open spec fn spec_outcome_for(&self, subject_id: u64, provided_root: Seq<u8>) -> Outcome {
        decision_outcome(
            self.spec_network_healthy(),
            self.spec_commitment_matches(subject_id, provided_root),
        )
    }

    /// A fresh engine stores no commitments and starts from calm network
    /// signals, well under both limits.
    pub fn new() -> (engine: SettlementEngine)
        ensures
            engine.spec_roots() == Map::<u64, Vec<u8>>::empty(),
            engine.spec_gas_fee() == 50,
            engine.spec_latency() == 200,
    {
        SettlementEngine {
            merkle_roots: HashMap::new(),
            last_gas_fee: 50,
            last_network_latency: 200,
        }
    }

    /// Stores the commitment to authorize future payouts for a subject.
    pub fn update_merkle_root(&mut self, subject_id: u64, merkle_root: Vec<u8>)
        ensures
            final(self).spec_roots() == old(self).spec_roots().insert(subject_id, merkle_root),
            final(self).spec_gas_fee() == old(self).spec_gas_fee(),
            final(self).spec_latency() == old(self).spec_latency(),
    {
        self.merkle_roots.insert(subject_id, merkle_root);
    }

    /// Records the latest network-health signals.
    pub fn update_network_status(&mut self, gas_fee: u64, latency: u64)
        ensures
            final(self).spec_gas_fee() == gas_fee,
            final(self).spec_latency() == latency,
            final(self).spec_roots() == old(self).spec_roots(),
    {
        self.last_gas_fee = gas_fee;
        self.last_network_latency = latency;
    }

    /// Decides whether a payout for `subject_id` may settle now.
    ///
    /// In strict order: an unhealthy network escalates to a governance vote,
    /// whatever the commitment; a provided commitment that differs from the
    /// stored one — or names a subject with no stored root at all — rejects
    /// as undecided; otherwise the payout is approved and the subject is
    /// named as the settlement target.
    pub fn decide_payout_contract(&self, subject_id: u64, provided_root: &Vec<u8>) -> (record:
        DecisionRecord)
        ensures
            record.subject_id == subject_id,
            record.outcome == self.spec_outcome_for(subject_id, provided_root@),
            record.inputs_hash == spec_snapshot_hash(
                subject_id,
                self.spec_gas_fee(),
                self.spec_latency(),
                provided_root@,
            ),
            record.settlement_target == (if record.outcome == Outcome::Approve {
                Some(subject_id)
            } else {
                None::<u64>
            }),
            record.outcome == Outcome::Escalate ==> record.reason@
                == "Network congestion detected: SubDAO vote required"@,
            record.outcome == Outcome::Reject ==> record.reason@ == "undecided"@,
            record.outcome == Outcome::Approve ==> record.reason@ == "commitment match"@,
    {
        let inputs_hash = snapshot_hash(
            subject_id,
            self.last_gas_fee,
            self.last_network_latency,
            provided_root,
        );
        let valid_proof = match self.merkle_roots.get(&subject_id) {
            Some(stored_root) => bytes_eq(stored_root, provided_root),
            None => false,
        };
        let network_healthy = self.last_gas_fee < GAS_FEE_LIMIT && self.last_network_latency
            < LATENCY_LIMIT;
        if !network_healthy {
            DecisionRecord {
                subject_id,
                inputs_hash,
                outcome: Outcome::Escalate,
                settlement_target: None,
                reason: "Network congestion detected: SubDAO vote required".to_owned(),
            }
        } else if valid_proof {
            DecisionRecord {
                subject_id,
                inputs_hash,
                outcome: Outcome::Approve,
                settlement_target: Some(subject_id),
                reason: "commitment match".to_owned(),
            }
        } else {
            DecisionRecord {
                subject_id,
                inputs_hash,
                outcome: Outcome::Reject,
                settlement_target: None,
                reason: "undecided".to_owned(),
            }
        }
    }
}

/// Law: an unhealthy network signal always escalates, even when the
/// commitment matches exactly.  No payout executes silently during network
/// instability.
pub proof fn lemma_congestion_overrides_commitment(
    engine: &SettlementEngine,
    subject_id: u64,
    provided_root: Seq<u8>,
)
    requires
        !engine.spec_network_healthy(),
    ensures
        engine.spec_outcome_for(subject_id, provided_root) == Outcome::Escalate,
{
}

/// Law: under a healthy network, a commitment that matches the stored one
/// approves, and a mismatched commitment rejects.
pub proof fn lemma_healthy_commitment_decides(
    engine: &SettlementEngine,
    subject_id: u64,
    provided_root: Seq<u8>,
)
    requires
        engine.spec_network_healthy(),
    ensures
        engine.spec_commitment_matches(subject_id, provided_root) ==> engine.spec_outcome_for(
            subject_id,
            provided_root,
        ) == Outcome::Approve,
        !engine.spec_commitment_matches(subject_id, provided_root) ==> engine.spec_outcome_for(
            subject_id,
            provided_root,
        ) == Outcome::Reject,
{
}

/// Law: a subject with no stored commitment is never approved, whatever the
/// network state and whatever commitment is provided — an empty provided
/// commitment included.  A missing root always mismatches (fail-closed).
pub proof fn lemma_missing_root_never_approves(
    engine: &SettlementEngine,
    subject_id: u64,
    provided_root: Seq<u8>,
)
    requires
        !engine.spec_has_root(subject_id),
    ensures
        engine.spec_outcome_for(subject_id, provided_root) != Outcome::Approve,
{
}

} // verus!
