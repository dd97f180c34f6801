//! Fault injection policy.
//!
//! Once per request cycle the simulator draws one word from the seeded
//! generator and classifies the cycle: either the well-formed request goes
//! out, or a deliberately invalid one does.  Which invalid shape is possible
//! depends on the policy the run was configured with.  The chosen class is
//! carried forward to the response oracle, which derives the status code the
//! server is expected to answer with.

use vstd::prelude::*;
use crate::rng::chacha_word;

verus! {

/// Which family of faults a run injects.  Exactly one policy is active per
/// run.
#[derive(Clone, Copy, PartialEq, Eq, Structural, Debug)]
pub enum FaultPolicy {
    /// Occasionally send a zero-length request in place of the built one.
    Presence,
    /// Occasionally send fixed non-protocol noise in place of the built one.
    Corruption,
}

/// The class of one request cycle, decided fresh for each cycle.
#[derive(Clone, Copy, PartialEq, Eq, Structural, Debug)]
pub enum FaultKind {
    /// The well-formed request is sent; the server is expected to accept it.
    Normal,
    /// A zero-length request is sent; the server is expected to reject it.
    Empty,
    /// Fixed noise bytes are sent; the server is expected to reject it.
    Fuzz,
}

/// How one drawn word is classified under a policy: one word in ten selects
/// the policy's fault, the rest of the cycles stay normal.
pub open spec fn spec_classify(policy: FaultPolicy, w: u64) -> FaultKind {
    if w % 10 == 9 {
        match policy {
            FaultPolicy::Presence => FaultKind::Empty,
            FaultPolicy::Corruption => FaultKind::Fuzz,
        }
    } else {
        FaultKind::Normal
    }
}

/// The fault decision of cycle `i` of a run: a pure function of the policy,
/// the seed and the cycle index, since cycle `i` consumes exactly the word at
/// position `i` of the seeded stream.
pub open spec fn fault_at(policy: FaultPolicy, seed: u64, i: nat) -> FaultKind {
    spec_classify(policy, chacha_word(seed, i))
}

/// The sequence of fault decisions over the first `n` cycles of a run.
pub open spec fn fault_trace(policy: FaultPolicy, seed: u64, n: nat) -> Seq<FaultKind> {
    Seq::new(n, |i: int| fault_at(policy, seed, i as nat))
}

/// The response status a cycle of the given class is expected to draw from
/// the server.
pub open spec fn spec_expected_status(k: FaultKind) -> u16 {
    match k {
        FaultKind::Normal => 200,
        FaultKind::Empty => 400,
        FaultKind::Fuzz => 400,
    }
}

pub fn classify_fault(policy: FaultPolicy, w: u64) -> (k: FaultKind)
    ensures
        k == spec_classify(policy, w),
{
    if w % 10 == 9 {
        match policy {
            FaultPolicy::Presence => FaultKind::Empty,
            FaultPolicy::Corruption => FaultKind::Fuzz,
        }
    } else {
        FaultKind::Normal
    }
}

pub fn expected_status(k: FaultKind) -> (s: u16)
    ensures
        s == spec_expected_status(k),
{
    match k {
        FaultKind::Normal => 200,
        FaultKind::Empty => 400,
        FaultKind::Fuzz => 400,
    }
}

/// Law: a cycle's expected status is the success code exactly when the cycle
/// is classified normal, and the client-error code exactly when a fault
/// (empty or fuzzed) was injected.
pub proof fn lemma_fault_status_mapping(k: FaultKind)
    ensures
        spec_expected_status(k) == 200 <==> k is Normal,
        spec_expected_status(k) == 400 <==> (k is Empty || k is Fuzz),
{
}

/// Law: two runs under the same policy and the same seed draw the identical
/// sequence of fault decisions, whatever the timing of their readiness
/// events: the trace is a function of the policy, the seed and the cycle
/// count alone.
pub proof fn lemma_fault_determinism(policy: FaultPolicy, seed1: u64, seed2: u64, n: nat)
    requires
        seed1 == seed2,
    ensures
        fault_trace(policy, seed1, n) == fault_trace(policy, seed2, n),
{
}

} // verus!
