//! Bounded exponential backoff for a future end-to-end session transport.
//! Keeping it separate from relay signalling prevents reconnect loops from
//! silently becoming unattended access: once the attempts are used up, the
//! user must start a new connection.
use std::time::Duration;
use vstd::prelude::*;

verus! {

/// `2` to the power `e`.
pub open spec fn power_of_two(e: nat) -> nat
    decreases e,
{
    if e == 0 {
        1
    } else {
        2 * power_of_two((e - 1) as nat)
    }
}

/// The factor of the initial delay before zero-based retry `attempt`:
/// `2^attempt`, or `u32::MAX` once the shift would overflow.
pub open spec fn retry_multiplier(attempt: nat) -> nat {
    if attempt < 32 {
        power_of_two(attempt)
    } else {
        0xffff_ffff
    }
}

/// Retry delays that double from an initial delay, capped, for a limited
/// number of attempts.
#[derive(Clone, Debug, PartialEq, Eq)]
pub struct ReconnectPolicy {
    initial_delay_ms: u64,
    maximum_delay_ms: u64,
    maximum_attempts: u8,
}

impl ReconnectPolicy {
    /// Delay before the first retry, in milliseconds.
    pub closed spec fn initial_ms(&self) -> nat {
        self.initial_delay_ms as nat
    }

    /// Longest delay, in milliseconds.
    pub closed spec fn maximum_ms(&self) -> nat {
        self.maximum_delay_ms as nat
    }

    /// Number of retries before a new user action is needed.
    pub closed spec fn attempts(&self) -> nat {
        self.maximum_attempts as nat
    }

    /// The delay before zero-based retry `attempt`, in milliseconds, or
    /// `None` when the attempts are used up.
    pub open spec fn spec_delay_ms(&self, attempt: nat) -> Option<nat> {
        if attempt >= self.attempts() {
            None
        } else {
            let doubled = self.initial_ms() * retry_multiplier(attempt);
            Some(
                if doubled < self.maximum_ms() {
                    doubled
                } else {
                    self.maximum_ms()
                },
            )
        }
    }

    /// The delay before zero-based retry `attempt`, in milliseconds, or
    /// `None` when the user must explicitly start a new connection attempt.
    pub fn delay_millis_for(&self, attempt: u8) -> (delay: Option<u64>)
        ensures
            match self.spec_delay_ms(attempt as nat) {
                Some(ms) => delay == Some(ms as u64),
                None => delay is None,
            },
    {
        if attempt >= self.maximum_attempts {
            return None;
        }
        let multiplier: u32 = if attempt >= 32 {
            0xffff_ffff
        } else {
            let mut m: u32 = 1;
            let mut i: u8 = 0;
            while i < attempt
                invariant
                    i <= attempt < 32,
                    m == power_of_two(i as nat),
                decreases attempt - i,
            {
                proof {
                    lemma_power_of_two_monotone(i as nat, 30);
                    lemma_power_of_two_30();
                }
                m = m * 2;
                i = i + 1;
            }
            m
        };
        assert((self.initial_delay_ms as u128) * (multiplier as u128) <= 0xffff_ffff_ffff_ffff
            * 0xffff_ffff) by (nonlinear_arith)
            requires
                self.initial_delay_ms <= 0xffff_ffff_ffff_ffff,
                multiplier <= 0xffff_ffff,
        ;
        let scaled = (self.initial_delay_ms as u128) * (multiplier as u128);
        if scaled < self.maximum_delay_ms as u128 {
            Some(scaled as u64)
        } else {
            Some(self.maximum_delay_ms)
        }
    }

    /// The delay before zero-based retry `attempt`, or `None` when the user
    /// must explicitly start a new connection attempt.
    pub fn delay_for(&self, attempt: u8) -> (delay: Option<Duration>)
        ensures
            match self.spec_delay_ms(attempt as nat) {
                Some(ms) => delay == Some(spec_duration_from_millis(ms as u64)),
                None => delay is None,
            },
    {
        match self.delay_millis_for(attempt) {
            Some(ms) => Some(duration_from_millis(ms)),
            None => None,
        }
    }
}

impl Default for ReconnectPolicy {
    /// One second, doubling up to thirty seconds, for five attempts.
    fn default() -> (policy: Self)
        ensures
            policy.initial_ms() == 1000,
            policy.maximum_ms() == 30_000,
            policy.attempts() == 5,
    {
        ReconnectPolicy { initial_delay_ms: 1000, maximum_delay_ms: 30_000, maximum_attempts: 5 }
    }
}

/// The `Duration` of `ms` milliseconds.
pub uninterp spec fn spec_duration_from_millis(ms: u64) -> Duration;

/// `Duration::from_millis` from std: the duration of `ms` milliseconds, a
/// function of `ms` alone.
#[verifier::external_body]
fn duration_from_millis(ms: u64) -> (d: Duration)
    ensures
        d == spec_duration_from_millis(ms),
{
    Duration::from_millis(ms)
}

/// `2^30`, and `2^31`.
pub proof fn lemma_power_of_two_30()
    ensures
        power_of_two(30) == 0x4000_0000,
        power_of_two(31) == 0x8000_0000,
{
    reveal_with_fuel(power_of_two, 32);
}

/// Powers of two grow with the exponent.
pub proof fn lemma_power_of_two_monotone(a: nat, b: nat)
    requires
        a <= b,
    ensures
        power_of_two(a) <= power_of_two(b),
    decreases b,
{
    if a < b {
        lemma_power_of_two_monotone(a, (b - 1) as nat);
    }
}

/// The backoff is bounded and runs out: no delay exceeds the maximum, the
/// delays never shrink from one attempt to the next, and after the last
/// attempt a new user action is required.
pub proof fn law_backoff_is_bounded(policy: ReconnectPolicy, a: nat, b: nat)
    requires
        a <= b,
    ensures
        policy.spec_delay_ms(a) matches Some(d) ==> d <= policy.maximum_ms(),
        policy.spec_delay_ms(b) is Some ==> policy.spec_delay_ms(a) is Some && policy.spec_delay_ms(
            a,
        )->0 <= policy.spec_delay_ms(b)->0,
        b >= policy.attempts() ==> policy.spec_delay_ms(b) is None,
{
    lemma_power_of_two_monotone(a, b);
    if b < 32 {
        assert(retry_multiplier(a) <= retry_multiplier(b));
    } else if a < 32 {
        lemma_power_of_two_monotone(a, 31);
        lemma_power_of_two_30();
        assert(retry_multiplier(a) <= retry_multiplier(b));
    }
    assert(policy.initial_ms() * retry_multiplier(a) <= policy.initial_ms() * retry_multiplier(b))
        by (nonlinear_arith)
        requires
            retry_multiplier(a) <= retry_multiplier(b),
    ;
}

/// The default policy waits 1, 2, 4, 8 and 16 seconds, then asks for a new
/// user action.
pub proof fn law_default_backoff(policy: ReconnectPolicy)
    requires
        policy.initial_ms() == 1000,
        policy.maximum_ms() == 30_000,
        policy.attempts() == 5,
    ensures
        policy.spec_delay_ms(0) == Some(1000nat),
        policy.spec_delay_ms(1) == Some(2000nat),
        policy.spec_delay_ms(2) == Some(4000nat),
        policy.spec_delay_ms(3) == Some(8000nat),
        policy.spec_delay_ms(4) == Some(16_000nat),
        policy.spec_delay_ms(5) is None,
{
    reveal_with_fuel(power_of_two, 5);
}

} // verus!
