//! The backoff schedule: how long to wait before each new attempt.
//!
//! The waits are whole milliseconds. The first is `initial_ms`; each next
//! one is the one before it times `factor_num / factor_den`, rounded down
//! and capped at `max_ms`. The schedule depends on nothing else, so the same
//! position always gives the same wait. A [`RetryState`] walks the schedule.

use crate::error::ConfigError;
use vstd::prelude::*;

verus! {

/// The parameters of a backoff schedule.
#[derive(Clone, Copy, Debug, PartialEq, Eq, Structural)]
pub struct BackoffPolicy {
    /// The first wait, in milliseconds.
    pub initial_ms: u64,
    /// Numerator of the factor by which each wait grows.
    pub factor_num: u64,
    /// Denominator of the factor by which each wait grows.
    pub factor_den: u64,
    /// The longest wait, in milliseconds.
    pub max_ms: u64,
    /// After how many waits to give up; `None` for never.
    pub max_retries: Option<u64>,
}

impl BackoffPolicy {
    /// Whether the parameters describe a schedule: the factor is a fraction
    /// that is at least one, and the first wait is no longer than the longest.
    pub open spec fn wf(self) -> bool {
        &&& self.factor_den > 0
        &&& self.factor_num >= self.factor_den
        &&& self.initial_ms <= self.max_ms
    }

    /// The wait that follows a wait of `wait` milliseconds.
    pub open spec fn grow(self, wait: u64) -> u64 {
        let grown = wait * self.factor_num / (self.factor_den as int);
        if grown > self.max_ms {
            self.max_ms
        } else {
            grown as u64
        }
    }

    /// The wait at a position of the schedule, counted from zero.
    pub open spec fn wait_at(self, position: nat) -> u64
        decreases position,
    {
        if position == 0 {
            self.initial_ms
        } else {
            self.grow(self.wait_at((position - 1) as nat))
        }
    }

    /// Checks the parameters of a schedule.
    ///
    /// Fails with `InvalidBackoff` exactly where they describe none.
    pub fn new(
        initial_ms: u64,
        factor_num: u64,
        factor_den: u64,
        max_ms: u64,
        max_retries: Option<u64>,
    ) -> (result: Result<BackoffPolicy, ConfigError>)
        ensures
            result == if (BackoffPolicy {
                initial_ms,
                factor_num,
                factor_den,
                max_ms,
                max_retries,
            }).wf() {
                Ok::<BackoffPolicy, ConfigError>(
                    BackoffPolicy { initial_ms, factor_num, factor_den, max_ms, max_retries },
                )
            } else {
                Err::<BackoffPolicy, ConfigError>(ConfigError::InvalidBackoff)
            },
    {
        let policy = BackoffPolicy { initial_ms, factor_num, factor_den, max_ms, max_retries };
        if policy.is_wf() {
            Ok(policy)
        } else {
            Err(ConfigError::InvalidBackoff)
        }
    }

    /// Whether the parameters describe a schedule.
    pub fn is_wf(&self) -> (ok: bool)
        ensures
            ok == self.wf(),
    {
        self.factor_den > 0 && self.factor_num >= self.factor_den && self.initial_ms <= self.max_ms
    }

    /// Computes the wait that follows a wait of `wait` milliseconds.
    pub fn next_wait(&self, wait: u64) -> (next: u64)
        requires
            self.factor_den > 0,
        ensures
            next == self.grow(wait),
    {
        assert(wait * self.factor_num <= u64::MAX * u64::MAX) by (nonlinear_arith)
            requires
                wait <= u64::MAX,
                self.factor_num <= u64::MAX,
        ;
        let product: u128 = (wait as u128) * (self.factor_num as u128);
        let grown: u128 = product / (self.factor_den as u128);
        if grown > self.max_ms as u128 {
            self.max_ms
        } else {
            grown as u64
        }
    }
}

impl Default for BackoffPolicy {
    /// Half a second at first, half as long again each time, a minute at
    /// most, and no giving up.
    fn default() -> (policy: BackoffPolicy)
        ensures
            policy == (BackoffPolicy {
                initial_ms: 500,
                factor_num: 3,
                factor_den: 2,
                max_ms: 60_000,
                max_retries: None,
            }),
            policy.wf(),
    {
        BackoffPolicy {
            initial_ms: 500,
            factor_num: 3,
            factor_den: 2,
            max_ms: 60_000,
            max_retries: None,
        }
    }
}

/// Where one run stands in its backoff schedule. The position only ever
/// moves forward: nothing resets it while the process runs.
#[derive(Debug)]
pub struct RetryState {
    policy: BackoffPolicy,
    position: u64,
    next_wait_ms: u64,
}

/// The mathematical content of a [`RetryState`].
pub struct RetryView {
    /// The schedule.
    pub policy: BackoffPolicy,
    /// How many waits were handed out.
    pub position: u64,
}

impl View for RetryState {
    type V = RetryView;

    closed spec fn view(&self) -> RetryView {
        RetryView { policy: self.policy, position: self.position }
    }
}

/// The position after one more wait; it stops at the largest `u64`.
pub open spec fn advance(position: u64) -> u64 {
    if position < u64::MAX {
        (position + 1) as u64
    } else {
        position
    }
}

/// Whether the schedule allows no further wait at a position.
pub open spec fn exhausted(policy: BackoffPolicy, position: u64) -> bool {
    policy.max_retries matches Some(limit) && position >= limit
}

impl RetryState {
    #[verifier::type_invariant]
    spec fn inv(self) -> bool {
        &&& self.policy.wf()
        &&& self.next_wait_ms == self.policy.wait_at(self.position as nat)
    }

    /// The start of a schedule.
    ///
    /// Fails with `InvalidBackoff` exactly where `policy` describes no schedule.
    pub fn new(policy: BackoffPolicy) -> (result: Result<RetryState, ConfigError>)
        ensures
            match result {
                Ok(state) => policy.wf() && state@ == (RetryView { policy, position: 0 }),
                Err(error) => !policy.wf() && error == ConfigError::InvalidBackoff,
            },
    {
        if policy.is_wf() {
            Ok(RetryState { policy, position: 0, next_wait_ms: policy.initial_ms })
        } else {
            Err(ConfigError::InvalidBackoff)
        }
    }

    /// The schedule.
    pub fn policy(&self) -> (policy: BackoffPolicy)
        ensures
            policy == self@.policy,
            policy.wf(),
    {
        proof {
            use_type_invariant(self);
        }
        self.policy
    }

    /// How many waits were handed out.
    pub fn position(&self) -> (position: u64)
        ensures
            position == self@.position,
    {
        self.position
    }

    /// How long the next wait will be, in milliseconds.
    pub fn next_wait_ms(&self) -> (millis: u64)
        ensures
            millis == self@.policy.wait_at(self@.position as nat),
            millis <= self@.policy.max_ms,
    {
        proof {
            use_type_invariant(self);
            lemma_waits_are_capped(self.policy, self.position as nat);
        }
        self.next_wait_ms
    }

    /// Whether the schedule allows no further wait.
    pub fn is_exhausted(&self) -> (done: bool)
        ensures
            done == exhausted(self@.policy, self@.position),
    {
        match self.policy.max_retries {
            Some(limit) => self.position >= limit,
            None => false,
        }
    }

    /// Hands out the wait at the current position and moves one position on.
    pub fn advance(&mut self) -> (millis: u64)
        ensures
            millis == old(self)@.policy.wait_at(old(self)@.position as nat),
            millis <= old(self)@.policy.max_ms,
            final(self)@ == (RetryView {
                policy: old(self)@.policy,
                position: advance(old(self)@.position),
            }),
    {
        proof {
            use_type_invariant(&*self);
            lemma_waits_are_capped(self.policy, self.position as nat);
        }
        let millis = self.next_wait_ms;
        if self.position < u64::MAX {
            let grown = self.policy.next_wait(millis);
            *self = RetryState {
                policy: self.policy,
                position: self.position + 1,
                next_wait_ms: grown,
            };
        }
        millis
    }
}

/// A wait never grows past the longest wait, and never shrinks.
pub proof fn lemma_grow_bounds(policy: BackoffPolicy, wait: u64)
    requires
        policy.wf(),
        wait <= policy.max_ms,
    ensures
        wait <= policy.grow(wait) <= policy.max_ms,
{
    let num = policy.factor_num as int;
    let den = policy.factor_den as int;
    let w = wait as int;
    assert(w * num >= w * den) by (nonlinear_arith)
        requires
            w >= 0,
            num >= den,
    ;
    assert((w * num) / den >= w) by (nonlinear_arith)
        requires
            den > 0,
            w * num >= w * den,
    ;
}

/// No wait of the schedule is longer than the longest wait.
pub proof fn lemma_waits_are_capped(policy: BackoffPolicy, position: nat)
    requires
        policy.wf(),
    ensures
        policy.wait_at(position) <= policy.max_ms,
    decreases position,
{
    if position > 0 {
        lemma_waits_are_capped(policy, (position - 1) as nat);
        lemma_grow_bounds(policy, policy.wait_at((position - 1) as nat));
    }
}

/// The waits of the schedule never shrink: a later position waits at least
/// as long as an earlier one.
pub proof fn lemma_waits_never_shrink(policy: BackoffPolicy, earlier: nat, later: nat)
    requires
        policy.wf(),
        earlier <= later,
    ensures
        policy.wait_at(earlier) <= policy.wait_at(later),
    decreases later,
{
    if earlier < later {
        lemma_waits_never_shrink(policy, earlier, (later - 1) as nat);
        lemma_waits_are_capped(policy, (later - 1) as nat);
        lemma_grow_bounds(policy, policy.wait_at((later - 1) as nat));
    }
}

/// Once the schedule has reached the longest wait it stays there.
pub proof fn lemma_cap_is_kept(policy: BackoffPolicy, earlier: nat, later: nat)
    requires
        policy.wf(),
        earlier <= later,
        policy.wait_at(earlier) == policy.max_ms,
    ensures
        policy.wait_at(later) == policy.max_ms,
{
    lemma_waits_never_shrink(policy, earlier, later);
    lemma_waits_are_capped(policy, later);
}

} // verus!
