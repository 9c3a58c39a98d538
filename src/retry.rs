//! Convergence polling: call a probe until it succeeds or a budget of
//! attempts is spent, with a fixed pause between attempts.
use vstd::prelude::*;

verus! {

/// Seconds between two attempts.
pub const PAUSE_SECS: u64 = 1;

/// What to do after one call of the probe.
#[derive(Debug)]
pub enum RetryStep<U, E> {
    /// The probe succeeded: stop with its result.
    Succeeded(U),
    /// The probe failed and attempts are left: pause, then call it again.
    Pause,
    /// The probe failed on the last attempt: stop with its error.
    Exhausted(E),
}

/// The decision after attempt number `done` (counting from one) of `times`.
pub open spec fn step_spec<U, E>(done: nat, times: nat, outcome: Result<U, E>) -> RetryStep<U, E> {
    match outcome {
        Ok(u) => RetryStep::Succeeded(u),
        Err(e) => if done < times {
            RetryStep::Pause
        } else {
            RetryStep::Exhausted(e)
        },
    }
}

/// The attempts made and the outcome of a poll with a budget of `times`
/// whose probe returns `outcomes` in turn, from attempt `done` on; the
/// outcome is `None` where the probe ran out of outcomes first.
pub open spec fn retry_run<U, E>(done: nat, times: nat, outcomes: Seq<Result<U, E>>) -> (nat, Option<RetryStep<U, E>>)
    decreases times - done,
{
    if done >= times || done >= outcomes.len() {
        (done, None)
    } else {
        match step_spec((done + 1) as nat, times, outcomes[done as int]) {
            RetryStep::Pause => retry_run((done + 1) as nat, times, outcomes),
            s => ((done + 1) as nat, Some(s)),
        }
    }
}

/// The budget of a poll and the attempts made so far.
#[derive(Clone, Copy, Debug, PartialEq, Eq, Structural)]
pub struct Retry {
    times: usize,
    attempts: usize,
}

impl Retry {
    pub closed spec fn times_spec(&self) -> nat {
        self.times as nat
    }

    pub closed spec fn attempts_spec(&self) -> nat {
        self.attempts as nat
    }

    /// A poll with a budget of `times` attempts.
    pub fn new(times: usize) -> (r: Retry)
        ensures
            r.times_spec() == times,
            r.attempts_spec() == 0,
    {
        Retry { times, attempts: 0 }
    }

    pub fn attempts(&self) -> (r: usize)
        ensures
            r == self.attempts_spec(),
    {
        self.attempts
    }

    /// Whether an attempt is left.
    pub fn can_attempt(&self) -> (r: bool)
        ensures
            r == (self.attempts_spec() < self.times_spec()),
    {
        self.attempts < self.times
    }

    /// Records the outcome of one call of the probe and decides what follows.
    pub fn record<U, E>(&mut self, outcome: Result<U, E>) -> (r: RetryStep<U, E>)
        requires
            old(self).attempts_spec() < old(self).times_spec(),
        ensures
            final(self).attempts_spec() == old(self).attempts_spec() + 1,
            final(self).times_spec() == old(self).times_spec(),
            r == step_spec(final(self).attempts_spec(), final(self).times_spec(), outcome),
    {
        self.attempts = self.attempts + 1;
        match outcome {
            Ok(u) => RetryStep::Succeeded(u),
            Err(e) => if self.attempts < self.times {
                RetryStep::Pause
            } else {
                RetryStep::Exhausted(e)
            },
        }
    }
}

/// A probe that first succeeds on call `k + 1`, within the budget, is
/// called exactly `k + 1` times and the poll returns its result.
pub proof fn lemma_retry_first_success<U, E>(done: nat, times: nat, outcomes: Seq<Result<U, E>>, k: nat)
    requires
        done <= k < times,
        k < outcomes.len(),
        outcomes[k as int] is Ok,
        forall|j: int| done <= j < k ==> (#[trigger] outcomes[j]) is Err,
    ensures
        retry_run(done, times, outcomes) == ((k + 1) as nat, Some(
            RetryStep::<U, E>::Succeeded(outcomes[k as int]->Ok_0),
        )),
    decreases k - done,
{
    if done < k {
        assert(outcomes[done as int] is Err);
        lemma_retry_first_success(done + 1, times, outcomes, k);
    }
}

/// A probe that fails on every attempt of a budget of `times` is called
/// exactly `times` times and the poll is exhausted with the last error.
pub proof fn lemma_retry_exhausted<U, E>(done: nat, times: nat, outcomes: Seq<Result<U, E>>)
    requires
        done < times,
        times <= outcomes.len(),
        forall|j: int| done <= j < times ==> (#[trigger] outcomes[j]) is Err,
    ensures
        retry_run(done, times, outcomes) == (times, Some(
            RetryStep::<U, E>::Exhausted(outcomes[times - 1]->Err_0),
        )),
    decreases times - done,
{
    assert(outcomes[done as int] is Err);
    if done + 1 < times {
        lemma_retry_exhausted(done + 1, times, outcomes);
    }
}

} // verus!
