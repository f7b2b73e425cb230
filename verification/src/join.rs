//! The network join supervisor: before any network service starts, the
//! device drives the radio through join attempts against a fixed network
//! name, forever if need be.  Before each attempt the indicator line goes
//! high; a failed attempt drops it low and backs off `JOIN_BACKOFF_MS`
//! before the next try; the first success ends the phase with the indicator
//! left as the attempt set it.  There is no retry limit on purpose: the
//! companion access point may power on later than this device.
//!
//! The supervisor is a two-state machine, `Joining` then `Joined`, with no
//! way back.  The task that owns the radio calls `begin_attempt`, performs
//! the outside join command, and reports its outcome to `record_outcome`.

use vstd::prelude::*;

verus! {

use crate::config::JOIN_BACKOFF_MS;
use crate::radio::RadioControl;

/// Phase of the join supervisor; `Joined` is terminal.
#[derive(Clone, Copy, PartialEq, Eq, Debug)]
pub enum JoinPhase {
    Joining,
    Joined,
}

/// Join supervisor state: the phase, and how many join attempts have
/// completed.
#[derive(Clone, Copy, PartialEq, Eq, Debug)]
pub struct JoinSupervisor {
    pub phase: JoinPhase,
    pub attempts: u64,
}

/// What a completed attempt asks of the caller: stop, or set the indicator
/// low, wait `backoff_ms`, and try again.
#[derive(Clone, Copy, PartialEq, Eq, Debug)]
pub enum JoinStep {
    Done,
    Retry { backoff_ms: u64 },
}

/// The supervisor after one attempt with the given outcome: one more
/// attempt on the books, and the phase advances exactly on success.
pub open spec fn spec_step(s: JoinSupervisor, joined: bool) -> JoinSupervisor {
    JoinSupervisor {
        phase: if joined {
            JoinPhase::Joined
        } else {
            JoinPhase::Joining
        },
        attempts: (s.attempts + 1) as u64,
    }
}

/// The supervisor after a run of attempts with the given outcomes, stopping
/// at the first success.
pub open spec fn spec_run(s: JoinSupervisor, outcomes: Seq<bool>) -> JoinSupervisor
    decreases outcomes.len(),
{
    if s.phase == JoinPhase::Joined || outcomes.len() == 0 {
        s
    } else {
        spec_run(spec_step(s, outcomes[0]), outcomes.skip(1))
    }
}

impl JoinSupervisor {
    /// A fresh supervisor: joining, no attempts yet.
    pub fn new() -> (r: JoinSupervisor)
        ensures
            r.phase == JoinPhase::Joining,
            r.attempts == 0,
    {
        JoinSupervisor { phase: JoinPhase::Joining, attempts: 0 }
    }

    /// Prepares one join attempt: the indicator line goes high before the
    /// radio is told to join.
    pub fn begin_attempt(&self, radio: &mut RadioControl)
        requires
            self.phase == JoinPhase::Joining,
        ensures
            final(radio).indicator == true,
    {
        radio.set_indicator(true);
    }

    /// Records the outcome the radio reported for one attempt.  On success
    /// the supervisor is done and the indicator stays as the attempt set it;
    /// on failure the indicator goes low and the caller must wait
    /// `JOIN_BACKOFF_MS` before the next attempt.
    pub fn record_outcome(&mut self, radio: &mut RadioControl, joined: bool) -> (r: JoinStep)
        requires
            old(self).phase == JoinPhase::Joining,
            old(self).attempts < u64::MAX,
        ensures
            *final(self) == spec_step(*old(self), joined),
            joined ==> r == JoinStep::Done && *final(radio) == *old(radio),
            !joined ==> r == (JoinStep::Retry { backoff_ms: JOIN_BACKOFF_MS })
                && *final(radio) == (RadioControl { indicator: false }),
    {
        self.attempts = self.attempts + 1;
        if joined {
            self.phase = JoinPhase::Joined;
            JoinStep::Done
        } else {
            radio.set_indicator(false);
            JoinStep::Retry { backoff_ms: JOIN_BACKOFF_MS }
        }
    }
}

/// Against a network that never responds, the supervisor never leaves
/// `Joining` — it retries indefinitely, every failed attempt answered with a
/// `JOIN_BACKOFF_MS` wait (the ensures of `record_outcome`) — and books one
/// attempt per outcome.
pub proof fn lemma_join_retries_forever(s: JoinSupervisor, outcomes: Seq<bool>)
    requires
        s.phase == JoinPhase::Joining,
        s.attempts + outcomes.len() <= u64::MAX,
        forall|i: int| 0 <= i < outcomes.len() ==> !outcomes[i],
    ensures
        spec_run(s, outcomes).phase == JoinPhase::Joining,
        spec_run(s, outcomes).attempts == s.attempts + outcomes.len(),
    decreases outcomes.len(),
{
    if outcomes.len() > 0 {
        lemma_join_retries_forever(spec_step(s, outcomes[0]), outcomes.skip(1));
    }
}

/// Against a network that accepts on the `k`-th attempt — the first `k - 1`
/// outcomes failures, the `k`-th a success — the supervisor returns joined
/// after exactly `k` attempts, whatever outcomes would have followed.
pub proof fn lemma_join_succeeds_on_kth(s: JoinSupervisor, outcomes: Seq<bool>, k: int)
    requires
        s.phase == JoinPhase::Joining,
        s.attempts + k <= u64::MAX,
        1 <= k <= outcomes.len(),
        forall|i: int| 0 <= i < k - 1 ==> !outcomes[i],
        outcomes[k - 1],
    ensures
        spec_run(s, outcomes).phase == JoinPhase::Joined,
        spec_run(s, outcomes).attempts == s.attempts + k,
    decreases k,
{
    if k == 1 {
        lemma_run_after_joined(spec_step(s, true), outcomes.skip(1));
    } else {
        assert(outcomes.skip(1)[k - 2] == outcomes[k - 1]);
        assert(forall|i: int| 0 <= i < k - 2 ==> outcomes.skip(1)[i] == outcomes[i + 1]);
        lemma_join_succeeds_on_kth(spec_step(s, false), outcomes.skip(1), k - 1);
    }
}

/// Once joined, further outcomes change nothing: `Joined` is terminal.
pub proof fn lemma_run_after_joined(s: JoinSupervisor, outcomes: Seq<bool>)
    requires
        s.phase == JoinPhase::Joined,
    ensures
        spec_run(s, outcomes) == s,
{
}

} // verus!
