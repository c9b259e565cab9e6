use vstd::prelude::*;
use vstd::arithmetic::mul::lemma_mul_upper_bound;
use vstd::arithmetic::power2::{lemma2_to64, lemma_pow2_strictly_increases, lemma_pow2_unfold,
    pow2};

verus! {

/// Bounded exponential backoff around a fallible operation: up to
/// `max_attempts` attempts in total, waiting `base_delay_ms` before the first
/// re-attempt and doubling the wait before each further one. Every failure is
/// retried alike; the policy does not distinguish transient from permanent
/// errors. No jitter.
pub struct RetryPolicy {
    pub max_attempts: u32,
    pub base_delay_ms: u64,
}

/// What the policy tells the driver after a failed attempt: wait and try
/// again, or stop and surface the failure just observed.
pub enum RetryDecision {
    RetryAfter { delay_ms: u64 },
    GiveUp,
}

/// Progress of one retried operation: how many attempts have failed so far
/// and the wait that the next retry decision will carry.
pub struct RetryState {
    pub failures: u32,
    pub next_delay_ms: u64,
}

/// The wait scheduled after `k + 1` failed attempts: `base * 2^k`.
pub open spec fn backoff_delay(base: nat, k: nat) -> nat {
    base * pow2(k)
}

/// Result of driving a policy of `max_attempts` over a pre-decided run of
/// per-attempt outcomes (`true` = success): how many attempts are made, and
/// whether the last of them succeeded.
pub open spec fn scripted_outcome(max_attempts: nat, outcomes: Seq<bool>) -> (nat, bool)
    decreases max_attempts,
{
    if max_attempts == 0 || outcomes.len() == 0 {
        (0, false)
    } else if outcomes[0] {
        (1nat, true)
    } else if max_attempts == 1 {
        (1nat, false)
    } else {
        let rest = scripted_outcome((max_attempts - 1) as nat, outcomes.drop_first());
        ((1 + rest.0) as nat, rest.1)
    }
}

impl RetryPolicy {
    /// Bounds under which every backoff delay the policy can schedule fits in
    /// a `u64`.
    pub open spec fn wf(self) -> bool {
        &&& 1 <= self.max_attempts <= 32
        &&& self.base_delay_ms <= 0xFFFF_FFFF
    }

    pub fn new(max_attempts: u32, base_delay_ms: u64) -> (r: RetryPolicy)
        requires
            1 <= max_attempts <= 32,
            base_delay_ms <= 0xFFFF_FFFF,
        ensures
            r.wf(),
            r.max_attempts == max_attempts,
            r.base_delay_ms == base_delay_ms,
    {
        RetryPolicy { max_attempts, base_delay_ms }
    }

    /// The configuration default: 3 attempts, 50 ms base delay.
    pub fn default_policy() -> (r: RetryPolicy)
        ensures
            r.wf(),
            r.max_attempts == 3,
            r.base_delay_ms == 50,
    {
        RetryPolicy { max_attempts: 3, base_delay_ms: 50 }
    }

    /// A state the policy itself could have produced: no more failures than
    /// attempts allowed, and the pending delay on the exponential schedule.
    pub open spec fn state_wf(self, st: RetryState) -> bool {
        &&& self.wf()
        &&& st.failures <= self.max_attempts
        &&& st.failures < self.max_attempts ==> st.next_delay_ms
            == backoff_delay(self.base_delay_ms as nat, st.failures as nat)
    }

    /// Fresh state for one operation: nothing failed yet.
    pub fn start(&self) -> (st: RetryState)
        requires
            self.wf(),
        ensures
            self.state_wf(st),
            st.failures == 0,
    {
        proof {
            lemma2_to64();
        }
        RetryState { failures: 0, next_delay_ms: self.base_delay_ms }
    }

    /// Records one failed attempt. While attempts remain, the decision is to
    /// retry after the scheduled delay — `base * 2^k` after the `(k+1)`-th
    /// failure, so consecutive delays exactly double; once `max_attempts`
    /// attempts have failed, the decision is to give up.
    pub fn on_failure(&self, st: &mut RetryState) -> (d: RetryDecision)
        requires
            self.state_wf(*old(st)),
            old(st).failures < self.max_attempts,
        ensures
            self.state_wf(*final(st)),
            final(st).failures == old(st).failures + 1,
            final(st).failures < self.max_attempts <==> (d matches RetryDecision::RetryAfter {
                delay_ms,
            } && delay_ms == backoff_delay(self.base_delay_ms as nat, old(st).failures as nat)),
            final(st).failures == self.max_attempts <==> d is GiveUp,
    {
        let prior: u64 = st.next_delay_ms;
        st.failures = st.failures + 1;
        if st.failures < self.max_attempts {
            proof {
                lemma_backoff_delay_fits(self.base_delay_ms as nat, st.failures as nat);
                lemma_backoff_doubles(self.base_delay_ms as nat, (st.failures - 1) as nat);
            }
            st.next_delay_ms = prior * 2;
            RetryDecision::RetryAfter { delay_ms: prior }
        } else {
            RetryDecision::GiveUp
        }
    }
}

/// Consecutive backoff delays double exactly (so they are non-decreasing and
/// at least double between consecutive retries).
pub proof fn lemma_backoff_doubles(base: nat, k: nat)
    ensures
        backoff_delay(base, k + 1) == 2 * backoff_delay(base, k),
        backoff_delay(base, k + 1) >= backoff_delay(base, k),
{
    lemma_pow2_unfold(k + 1);
    assert(base * (2 * pow2(k)) == 2 * (base * pow2(k))) by (nonlinear_arith);
}

/// Under the policy bounds, every delay the schedule can reach fits in a
/// `u64`.
pub proof fn lemma_backoff_delay_fits(base: nat, k: nat)
    requires
        base <= 0xFFFF_FFFF,
        k <= 31,
    ensures
        backoff_delay(base, k) <= 0x7FFF_FFFF_8000_0000,
{
    lemma2_to64();
    if k < 31 {
        lemma_pow2_strictly_increases(k, 31);
    }
    lemma_mul_upper_bound(base as int, 0xFFFF_FFFF, pow2(k) as int, 0x8000_0000);
}

/// An operation that fails `k` times and then succeeds is attempted exactly
/// `k + 1` times and the run reports success, whenever `k` leaves at least
/// one attempt available.
pub proof fn lemma_retry_eventual_success(max_attempts: nat, outcomes: Seq<bool>, k: nat)
    requires
        k < max_attempts,
        k < outcomes.len(),
        forall|i: int| 0 <= i < k ==> !outcomes[i],
        outcomes[k as int],
    ensures
        scripted_outcome(max_attempts, outcomes) == ((k + 1) as nat, true),
    decreases k,
{
    if k == 0 {
    } else {
        assert(!outcomes[0]);
        let rest = outcomes.drop_first();
        assert(forall|i: int| 0 <= i < k - 1 ==> rest[i] == outcomes[i + 1] && !rest[i]);
        assert(rest[k - 1] == outcomes[k as int]);
        lemma_retry_eventual_success((max_attempts - 1) as nat, rest, (k - 1) as nat);
    }
}

/// An operation that fails at every attempt is attempted exactly
/// `max_attempts` times and the run reports the final failure.
pub proof fn lemma_retry_exhaustion(max_attempts: nat, outcomes: Seq<bool>)
    requires
        1 <= max_attempts,
        max_attempts <= outcomes.len(),
        forall|i: int| 0 <= i < max_attempts ==> !outcomes[i],
    ensures
        scripted_outcome(max_attempts, outcomes) == (max_attempts, false),
    decreases max_attempts,
{
    assert(!outcomes[0]);
    if max_attempts > 1 {
        let rest = outcomes.drop_first();
        assert(forall|i: int| 0 <= i < max_attempts - 1 ==> rest[i] == outcomes[i + 1] && !rest[i]);
        lemma_retry_exhaustion((max_attempts - 1) as nat, rest);
    }
}

/// What one scripted drive of a policy did: every attempt up to the decisive
/// one, with the waits the policy scheduled between them.
pub struct ScriptedRun {
    pub attempts: u32,
    pub succeeded: bool,
    pub delays_ms: Vec<u64>,
}

/// Drives the policy over a pre-decided run of per-attempt outcomes (`true` =
/// success), recording each scheduled wait instead of sleeping. This is the
/// policy's full loop on an operation whose behaviour is given as data; a
/// driver doing real work follows the same decisions via `start` and
/// `on_failure`.
pub fn run_scripted(policy: &RetryPolicy, outcomes: &Vec<bool>) -> (r: ScriptedRun)
    requires
        policy.wf(),
        policy.max_attempts <= outcomes@.len(),
    ensures
        (r.attempts as nat, r.succeeded) == scripted_outcome(
            policy.max_attempts as nat,
            outcomes@,
        ),
        r.delays_ms@.len() == r.attempts - 1,
        forall|m: int|
            0 <= m < r.delays_ms@.len() ==> r.delays_ms@[m] == backoff_delay(
                policy.base_delay_ms as nat,
                m as nat,
            ),
{
    let mut st = policy.start();
    let mut delays_ms: Vec<u64> = Vec::new();
    let mut i: u32 = 0;
    loop
        invariant
            policy.wf(),
            policy.state_wf(st),
            st.failures == i,
            i < policy.max_attempts,
            policy.max_attempts <= outcomes@.len(),
            forall|m: int| 0 <= m < i ==> !outcomes@[m],
            delays_ms@.len() == i as int,
            forall|m: int|
                0 <= m < i ==> delays_ms@[m] == backoff_delay(
                    policy.base_delay_ms as nat,
                    m as nat,
                ),
        decreases policy.max_attempts - i,
    {
        let succeeded: bool = outcomes[i as usize];
        if succeeded {
            proof {
                lemma_retry_eventual_success(policy.max_attempts as nat, outcomes@, i as nat);
            }
            return ScriptedRun { attempts: i + 1, succeeded: true, delays_ms };
        }
        match policy.on_failure(&mut st) {
            RetryDecision::RetryAfter { delay_ms } => {
                delays_ms.push(delay_ms);
                i = i + 1;
            },
            RetryDecision::GiveUp => {
                proof {
                    lemma_retry_exhaustion(policy.max_attempts as nat, outcomes@);
                }
                return ScriptedRun { attempts: i + 1, succeeded: false, delays_ms };
            },
        }
    }
}

} // verus!
