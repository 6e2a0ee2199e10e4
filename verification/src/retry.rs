//! The retry policy: after which failures a request is sent again, how long
//! to wait before that, and when to stop.

use crate::errors::ProviderError;
use serde_json::Value;
use vstd::arithmetic::power2::{lemma2_to64, lemma_pow2_unfold, pow2};
use vstd::prelude::*;

verus! {

/// The delay before a retry: the base delay before the first one, then
/// twice the delay before, and never more than the cap.
pub open spec fn backoff(base: nat, cap: nat, retries: nat) -> nat
    decreases retries,
{
    if retries == 0 {
        if base <= cap {
            base
        } else {
            cap
        }
    } else {
        let doubled = 2 * backoff(base, cap, (retries - 1) as nat);
        if doubled <= cap {
            doubled
        } else {
            cap
        }
    }
}

/// No delay exceeds the cap.
pub proof fn lemma_backoff_capped(base: nat, cap: nat, retries: nat)
    ensures
        backoff(base, cap, retries) <= cap,
    decreases retries,
{
    if retries > 0 {
        lemma_backoff_capped(base, cap, (retries - 1) as nat);
    }
}

/// Delays never shrink from one retry to the next.
pub proof fn lemma_backoff_grows(base: nat, cap: nat, earlier: nat, later: nat)
    requires
        earlier <= later,
    ensures
        backoff(base, cap, earlier) <= backoff(base, cap, later),
    decreases later,
{
    if earlier < later {
        lemma_backoff_grows(base, cap, earlier, (later - 1) as nat);
        lemma_backoff_capped(base, cap, (later - 1) as nat);
    }
}

/// In closed form: the delay before a retry is the base delay times two to
/// the number of retries before it, or the cap where that is less.
pub proof fn lemma_backoff_is_exponential(base: nat, cap: nat, retries: nat)
    ensures
        backoff(base, cap, retries) == if base * pow2(retries) <= cap {
            base * pow2(retries)
        } else {
            cap
        },
    decreases retries,
{
    if retries == 0 {
        assert(pow2(0) == 1) by {
            lemma2_to64();
        }
        assert(base * 1 == base);
    } else {
        let earlier = (retries - 1) as nat;
        lemma_backoff_is_exponential(base, cap, earlier);
        lemma_pow2_unfold(retries);
        assert(base * pow2(retries) == 2 * (base * pow2(earlier))) by (nonlinear_arith)
            requires
                pow2(retries) == 2 * pow2(earlier),
        ;
    }
}

/// Once the delay is zero or has reached the cap, it stays.
proof fn lemma_backoff_settles(base: nat, cap: nat, from: nat, to: nat)
    requires
        from <= to,
        backoff(base, cap, from) == 0 || backoff(base, cap, from) == cap,
    ensures
        backoff(base, cap, to) == backoff(base, cap, from),
    decreases to,
{
    if from < to {
        lemma_backoff_settles(base, cap, from, (to - 1) as nat);
    }
}

/// What to do after an attempt.
#[derive(Debug, Clone, Copy, PartialEq, Eq, Structural)]
pub enum Verdict {
    /// The outcome stands: hand it to the caller.
    Finish,
    /// Wait this long, then send the same request again.
    RetryAfter { delay_ms: u64 },
}

/// The retry policy of an adapter.
#[derive(Debug, Clone, Copy, PartialEq, Eq, Structural)]
pub struct RetryConfig {
    /// The most attempts of one call, the first included.
    pub max_attempts: u32,
    /// The delay before the first retry, in milliseconds.
    pub base_delay_ms: u64,
    /// The longest delay before any retry, in milliseconds.
    pub max_delay_ms: u64,
}

impl RetryConfig {
    /// Whether the outcome of the attempt that followed `retries` retries
    /// ends the call: a success, a failure that trying again cannot mend, or
    /// any failure of the last attempt allowed.
    pub open spec fn ends_with(self, retries: nat, outcome: Result<Value, ProviderError>) -> bool {
        match outcome {
            Ok(_) => true,
            Err(error) => !error.retriable() || retries + 1 >= self.max_attempts,
        }
    }

    /// The delay before the retry that follows `retries` earlier ones.
    pub open spec fn delay(self, retries: nat) -> nat {
        backoff(self.base_delay_ms as nat, self.max_delay_ms as nat, retries)
    }

    /// The verdict on the outcome of the attempt that followed `retries`
    /// retries.
    pub open spec fn verdict_on(self, retries: u32, outcome: Result<Value, ProviderError>) -> Verdict {
        if self.ends_with(retries as nat, outcome) {
            Verdict::Finish
        } else {
            Verdict::RetryAfter { delay_ms: self.delay(retries as nat) as u64 }
        }
    }

    /// The policy that adapters use unless told otherwise: four attempts,
    /// one second before the first retry, at most thirty seconds before any.
    pub fn standard() -> (r: RetryConfig)
        ensures
            r == (RetryConfig { max_attempts: 4, base_delay_ms: 1000, max_delay_ms: 30000 }),
    {
        RetryConfig { max_attempts: 4, base_delay_ms: 1000, max_delay_ms: 30000 }
    }

    /// The delay before the retry that follows `retries` earlier ones.
    pub fn delay_ms(&self, retries: u32) -> (r: u64)
        ensures
            r == self.delay(retries as nat),
    {
        let cap: u64 = self.max_delay_ms;
        let mut delay: u64 = if self.base_delay_ms <= cap {
            self.base_delay_ms
        } else {
            cap
        };
        let mut done: u32 = 0;
        while done < retries && 0 < delay && delay < cap
            invariant
                done <= retries,
                cap == self.max_delay_ms,
                delay == self.delay(done as nat),
                delay <= cap,
            decreases retries - done,
        {
            delay = if delay <= cap - delay {
                delay + delay
            } else {
                cap
            };
            done = done + 1;
        }
        proof {
            if done < retries {
                lemma_backoff_settles(
                    self.base_delay_ms as nat,
                    self.max_delay_ms as nat,
                    done as nat,
                    retries as nat,
                );
            }
        }
        delay
    }

    /// Decides what follows the attempt that came after `retries` retries.
    ///
    /// A success and a failure that cannot pass end the call at once. A
    /// failure that may pass is retried after the backoff delay, unless the
    /// attempt was the last one allowed: then that failure itself stands.
    pub fn verdict(&self, retries: u32, outcome: &Result<Value, ProviderError>) -> (r: Verdict)
        ensures
            r == self.verdict_on(retries, *outcome),
    {
        match outcome {
            Ok(_) => Verdict::Finish,
            Err(error) => {
                if error.is_retriable() && retries < u32::MAX && retries + 1 < self.max_attempts {
                    Verdict::RetryAfter { delay_ms: self.delay_ms(retries) }
                } else {
                    Verdict::Finish
                }
            },
        }
    }
}

/// How a call went that was fed a script of outcomes.
#[derive(Debug, PartialEq, Eq)]
pub struct Run {
    /// How often the request was sent.
    pub invocations: usize,
    /// The outcome that ended the call; `None` where the script ran out
    /// while the policy still asked for another attempt.
    pub result: Option<Result<Value, ProviderError>>,
    /// The delays waited through, in order.
    pub waits: Vec<u64>,
}

impl RetryConfig {
    /// Whether a call that meets `outcomes` in this order ends with the
    /// attempt at `last`: every earlier outcome is retried, this one stands.
    pub open spec fn ends_at(self, outcomes: Seq<Result<Value, ProviderError>>, last: int) -> bool {
        &&& 0 <= last < outcomes.len()
        &&& self.ends_with(last as nat, outcomes[last])
        &&& forall|k: int| 0 <= k < last ==> !self.ends_with(k as nat, #[trigger] outcomes[k])
    }

    /// Plays a call against a script: the outcome of the first attempt, of
    /// the second, and so on. Attempts follow one another strictly; an
    /// outcome is looked at only once the one before asked for a retry.
    pub fn replay(&self, outcomes: Vec<Result<Value, ProviderError>>) -> (r: Run)
        ensures
            r.invocations <= outcomes.len(),
            match r.result {
                Some(standing) => r.invocations >= 1 && self.ends_at(outcomes@, r.invocations - 1)
                    && standing == outcomes@[r.invocations - 1],
                None => r.invocations == outcomes.len() && forall|k: int|
                    0 <= k < outcomes.len() ==> !self.ends_with(k as nat, #[trigger] outcomes@[k]),
            },
            r.waits@.len() == if r.result is Some {
                r.invocations - 1
            } else {
                r.invocations as int
            },
            forall|k: int| 0 <= k < r.waits@.len() ==> #[trigger] r.waits@[k] == self.delay(k as nat),
    {
        let mut script = outcomes;
        let mut waits: Vec<u64> = Vec::new();
        let mut at: usize = 0;
        while at < script.len()
            invariant
                script@ == outcomes@,
                at <= script.len(),
                waits@.len() == at,
                forall|k: int| 0 <= k < at ==> !self.ends_with(k as nat, #[trigger] outcomes@[k]),
                forall|k: int| 0 <= k < at ==> #[trigger] waits@[k] == self.delay(k as nat),
            decreases script.len() - at,
        {
            let retries: u32 = if at <= u32::MAX as usize {
                at as u32
            } else {
                u32::MAX
            };
            match self.verdict(retries, &script[at]) {
                Verdict::Finish => {
                    let standing = script.remove(at);
                    return Run { invocations: at + 1, result: Some(standing), waits };
                },
                Verdict::RetryAfter { delay_ms } => {
                    proof {
                        lemma_backoff_capped(
                            self.base_delay_ms as nat,
                            self.max_delay_ms as nat,
                            at as nat,
                        );
                    }
                    waits.push(delay_ms);
                },
            }
            at = at + 1;
        }
        Run { invocations: at, result: None, waits }
    }
}

impl RetryConfig {
    /// A call never makes more attempts than the ceiling allows, as long as
    /// the ceiling allows one at all.
    pub proof fn lemma_attempts_within_ceiling(
        self,
        outcomes: Seq<Result<Value, ProviderError>>,
        last: int,
    )
        requires
            self.max_attempts >= 1,
            self.ends_at(outcomes, last),
        ensures
            last + 1 <= self.max_attempts,
    {
        if last >= 1 {
            assert(!self.ends_with((last - 1) as nat, outcomes[last - 1]));
        }
    }

    /// A script has at most one attempt at which the call ends.
    pub proof fn lemma_end_is_unique(
        self,
        outcomes: Seq<Result<Value, ProviderError>>,
        first: int,
        second: int,
    )
        requires
            self.ends_at(outcomes, first),
            self.ends_at(outcomes, second),
        ensures
            first == second,
    {
        if first < second {
            assert(!self.ends_with(first as nat, outcomes[first]));
        }
        if second < first {
            assert(!self.ends_with(second as nat, outcomes[second]));
        }
    }

    /// A success, and a failure that cannot pass, end the call with the
    /// first attempt: nothing is sent twice.
    pub proof fn lemma_first_attempt_stands(self, outcomes: Seq<Result<Value, ProviderError>>)
        requires
            outcomes.len() > 0,
            match outcomes[0] {
                Ok(_) => true,
                Err(error) => !error.retriable(),
            },
        ensures
            self.ends_at(outcomes, 0),
    {
    }

    /// Failures that may pass are retried until the ceiling is reached: a
    /// script of nothing but such failures, as long as the ceiling, ends
    /// with its last attempt, whose failure is the one that stands.
    pub proof fn lemma_exhaustion_ends_at_ceiling(
        self,
        outcomes: Seq<Result<Value, ProviderError>>,
    )
        requires
            self.max_attempts >= 1,
            outcomes.len() == self.max_attempts,
            forall|k: int|
                0 <= k < outcomes.len() ==> ((#[trigger] outcomes[k]) matches Err(error)
                    && error.retriable()),
        ensures
            self.ends_at(outcomes, self.max_attempts - 1),
    {
    }
}

} // verus!
