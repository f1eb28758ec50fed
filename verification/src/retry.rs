//! The retry/backoff policy of the Chain Info Client.
//!
//! A lookup makes up to five attempts. A transport failure is retried
//! after an exponential delay — one time unit before the second attempt,
//! doubling after every further failure — while a malformed response
//! fails the lookup at once, since retrying cannot fix a protocol
//! mismatch. The policy itself is pure: callers perform the attempts and
//! the waits, and feed each attempt's outcome back in.

use vstd::prelude::*;

use crate::error::{LookupError, LookupFailure};

verus! {

/// The total number of attempts a lookup may make.
pub const MAX_ATTEMPTS: u32 = 5;

/// The outcome of one attempt against the chain info service.
#[derive(Clone, Copy, Debug, PartialEq, Eq, Structural)]
pub enum AttemptOutcome {
    /// The service answered with the address's balance and
    /// transaction count.
    Success { balance: u64, tx_count: u64 },
    /// The attempt failed, retryably or not.
    Failure { error: LookupError },
}

/// Progress of the retry policy: how many attempts were already made,
/// and the delay owed before the next one.
#[derive(Clone, Copy, Debug, PartialEq, Eq, Structural)]
pub struct RetryState {
    pub attempts_made: u32,
    pub next_backoff: u64,
}

/// What the policy asks its caller to do after an attempt.
#[derive(Clone, Copy, Debug, PartialEq, Eq, Structural)]
pub enum RetryDecision {
    /// Return this value: the lookup succeeded.
    Done { balance: u64, tx_count: u64 },
    /// Give up with this failure.
    Failed { failure: LookupFailure },
    /// Wait `delay` time units, then try again from `next`.
    RetryAfter { delay: u64, next: RetryState },
}

/// The backoff owed before the attempt after `n` failed ones: 1 time
/// unit, doubled after every failure.
pub open spec fn spec_backoff(n: u32) -> u64 {
    if n == 0 {
        1u64
    } else if n == 1 {
        2u64
    } else if n == 2 {
        4u64
    } else if n == 3 {
        8u64
    } else {
        16u64
    }
}

/// The state before the first attempt.
pub open spec fn spec_retry_start() -> RetryState {
    RetryState { attempts_made: 0, next_backoff: 1 }
}

impl RetryState {
    /// A live retry state: attempts remain, and the pending delay is the
    /// exponential backoff its attempt count owes.
    pub open spec fn wf(&self) -> bool {
        self.attempts_made < MAX_ATTEMPTS && self.next_backoff == spec_backoff(self.attempts_made)
    }

    /// The state before the first attempt of a lookup.
    pub fn start() -> (r: RetryState)
        ensures
            r == spec_retry_start(),
            r.wf(),
    {
        RetryState { attempts_made: 0, next_backoff: 1 }
    }
}

/// The decision the policy owes after one attempt: success returns at
/// once; a malformed response gives up at once; a transport failure
/// retries after the pending backoff until the attempt budget is spent,
/// and then gives up with `MaxRetriesReached`.
pub open spec fn spec_retry_step(s: RetryState, outcome: AttemptOutcome) -> RetryDecision {
    match outcome {
        AttemptOutcome::Success { balance, tx_count } => RetryDecision::Done { balance, tx_count },
        AttemptOutcome::Failure { error } => match error {
            LookupError::Malformed => RetryDecision::Failed {
                failure: LookupFailure::Malformed,
            },
            LookupError::Transport => {
                if s.attempts_made + 1 < MAX_ATTEMPTS {
                    RetryDecision::RetryAfter {
                        delay: s.next_backoff,
                        next: RetryState {
                            attempts_made: (s.attempts_made + 1) as u32,
                            next_backoff: (s.next_backoff * 2) as u64,
                        },
                    }
                } else {
                    RetryDecision::Failed { failure: LookupFailure::MaxRetriesReached }
                }
            },
        },
    }
}

/// Apply the retry policy to the outcome of one attempt.
pub fn retry_step(s: &RetryState, outcome: &AttemptOutcome) -> (r: RetryDecision)
    requires
        s.wf(),
    ensures
        r == spec_retry_step(*s, *outcome),
        r matches RetryDecision::RetryAfter { next, .. } ==> next.wf(),
{
    match outcome {
        AttemptOutcome::Success { balance, tx_count } => RetryDecision::Done {
            balance: *balance,
            tx_count: *tx_count,
        },
        AttemptOutcome::Failure { error } => match error {
            LookupError::Malformed => RetryDecision::Failed {
                failure: LookupFailure::Malformed,
            },
            LookupError::Transport => {
                if s.attempts_made + 1 < MAX_ATTEMPTS {
                    RetryDecision::RetryAfter {
                        delay: s.next_backoff,
                        next: RetryState {
                            attempts_made: s.attempts_made + 1,
                            next_backoff: s.next_backoff * 2,
                        },
                    }
                } else {
                    RetryDecision::Failed { failure: LookupFailure::MaxRetriesReached }
                }
            },
        },
    }
}

/// The result and the delays slept by a whole lookup that meets the
/// attempt outcomes in `outcomes`, starting from retry state `s`.
pub open spec fn spec_run_lookup(outcomes: Seq<AttemptOutcome>, s: RetryState) -> (Result<
    (u64, u64),
    LookupFailure,
>, Seq<u64>)
    decreases outcomes.len(),
{
    if outcomes.len() == 0 {
        (Result::Err(LookupFailure::MaxRetriesReached), Seq::empty())
    } else {
        match spec_retry_step(s, outcomes[0]) {
            RetryDecision::Done { balance, tx_count } => (
                Result::Ok((balance, tx_count)),
                Seq::empty(),
            ),
            RetryDecision::Failed { failure } => (Result::Err(failure), Seq::empty()),
            RetryDecision::RetryAfter { delay, next } => {
                let rest = spec_run_lookup(outcomes.drop_first(), next);
                (rest.0, seq![delay] + rest.1)
            },
        }
    }
}

/// Run one whole lookup against a given sequence of attempt outcomes
/// (outcome `i` answers attempt `i + 1`), returning the result and the
/// delays that were owed before each retry, in order.
pub fn run_lookup(outcomes: &Vec<AttemptOutcome>) -> (r: (Result<(u64, u64), LookupFailure>, Vec<
    u64,
>))
    requires
        outcomes@.len() >= MAX_ATTEMPTS,
    ensures
        r.0 == spec_run_lookup(outcomes@, spec_retry_start()).0,
        r.1@ == spec_run_lookup(outcomes@, spec_retry_start()).1,
{
    let mut state = RetryState::start();
    let mut delays: Vec<u64> = Vec::new();
    let mut i: usize = 0;
    proof {
        assert(outcomes@.skip(0) =~= outcomes@);
        assert(Seq::<u64>::empty() + spec_run_lookup(outcomes@, spec_retry_start()).1
            =~= spec_run_lookup(outcomes@, spec_retry_start()).1);
    }
    loop
        invariant
            outcomes@.len() >= MAX_ATTEMPTS,
            state.wf(),
            i == state.attempts_made,
            i < outcomes@.len(),
            spec_run_lookup(outcomes@, spec_retry_start()).0 == spec_run_lookup(
                outcomes@.skip(i as int),
                state,
            ).0,
            spec_run_lookup(outcomes@, spec_retry_start()).1 == delays@ + spec_run_lookup(
                outcomes@.skip(i as int),
                state,
            ).1,
        decreases outcomes@.len() - i,
    {
        let outcome = outcomes[i];
        proof {
            assert(outcomes@.skip(i as int)[0] == outcomes@[i as int]);
        }
        match retry_step(&state, &outcome) {
            RetryDecision::Done { balance, tx_count } => {
                proof {
                    assert(spec_run_lookup(outcomes@, spec_retry_start()).1 =~= delays@);
                }
                return (Ok((balance, tx_count)), delays);
            },
            RetryDecision::Failed { failure } => {
                proof {
                    assert(spec_run_lookup(outcomes@, spec_retry_start()).1 =~= delays@);
                }
                return (Err(failure), delays);
            },
            RetryDecision::RetryAfter { delay, next } => {
                proof {
                    assert(outcomes@.skip(i as int).drop_first() =~= outcomes@.skip(i + 1));
                    assert(delays@ + (seq![delay] + spec_run_lookup(outcomes@.skip(i + 1), next).1)
                        =~= (delays@ + seq![delay]) + spec_run_lookup(
                        outcomes@.skip(i + 1),
                        next,
                    ).1);
                }
                delays.push(delay);
                state = next;
                i = i + 1;
            },
        }
    }
}

/// Backoff shape: when the first two attempts fail in transport and the
/// third succeeds, the lookup sleeps exactly 1 then 2 time units and
/// returns the successful value.
pub proof fn lemma_backoff_shape(outcomes: Seq<AttemptOutcome>, balance: u64, tx_count: u64)
    requires
        outcomes.len() >= 3,
        outcomes[0] == (AttemptOutcome::Failure { error: LookupError::Transport }),
        outcomes[1] == (AttemptOutcome::Failure { error: LookupError::Transport }),
        outcomes[2] == (AttemptOutcome::Success { balance, tx_count }),
    ensures
        spec_run_lookup(outcomes, spec_retry_start()).0 == Result::<
            (u64, u64),
            LookupFailure,
        >::Ok((balance, tx_count)),
        spec_run_lookup(outcomes, spec_retry_start()).1 == seq![1u64, 2u64],
{
    let s0 = spec_retry_start();
    let s1 = RetryState { attempts_made: 1, next_backoff: 2 };
    let s2 = RetryState { attempts_made: 2, next_backoff: 4 };
    let o1 = outcomes.drop_first();
    let o2 = o1.drop_first();
    assert(o1[0] == outcomes[1]);
    assert(o2[0] == outcomes[2]);
    assert(spec_retry_step(s0, outcomes[0]) == (RetryDecision::RetryAfter {
        delay: 1u64,
        next: s1,
    }));
    assert(spec_retry_step(s1, o1[0]) == (RetryDecision::RetryAfter { delay: 2u64, next: s2 }));
    assert(spec_retry_step(s2, o2[0]) == (RetryDecision::Done { balance, tx_count }));
    assert(spec_run_lookup(o2, s2).0 == Result::<(u64, u64), LookupFailure>::Ok(
        (balance, tx_count),
    ));
    assert(spec_run_lookup(o2, s2).1 == Seq::<u64>::empty());
    assert(spec_run_lookup(o1, s1).0 == spec_run_lookup(o2, s2).0);
    assert(spec_run_lookup(o1, s1).1 =~= seq![2u64]);
    assert(spec_run_lookup(outcomes, s0).0 == spec_run_lookup(o1, s1).0);
    assert(spec_run_lookup(outcomes, s0).1 =~= seq![1u64] + spec_run_lookup(o1, s1).1);
    assert(seq![1u64] + seq![2u64] =~= seq![1u64, 2u64]);
}

} // verus!
