//! Retry policy with exponential backoff, and the attempt-by-attempt
//! decision driver used by the request executors.
//!
//! All durations are carried as integer milliseconds so that the delay
//! computation is a pure, total function of the policy and the attempt
//! number.

use vstd::prelude::*;

verus! {

/// Default maximum number of retry attempts.
pub const DEFAULT_MAX_RETRIES: u32 = 3;

/// Default initial retry delay in milliseconds.
pub const DEFAULT_RETRY_DELAY_MS: u64 = 500;

/// Default maximum retry delay in milliseconds (cap for exponential backoff).
pub const DEFAULT_RETRY_MAX_DELAY_MS: u64 = 5000;

/// Mathematical power, used to state what the backoff multiplier does.
pub open spec fn pow_nat(base: nat, exp: nat) -> nat
    decreases exp,
{
    if exp == 0 {
        1
    } else {
        base * pow_nat(base, (exp - 1) as nat)
    }
}

proof fn lemma_pow_pos(base: nat, exp: nat)
    requires
        base >= 1,
    ensures
        pow_nat(base, exp) >= 1,
    decreases exp,
{
    if exp > 0 {
        lemma_pow_pos(base, (exp - 1) as nat);
        assert(base * pow_nat(base, (exp - 1) as nat) >= 1) by (nonlinear_arith)
            requires
                base >= 1,
                pow_nat(base, (exp - 1) as nat) >= 1,
        ;
    }
}

proof fn lemma_pow_mono_exp(base: nat, e1: nat, e2: nat)
    requires
        base >= 1,
        e1 <= e2,
    ensures
        pow_nat(base, e1) <= pow_nat(base, e2),
    decreases e2,
{
    if e2 > 0 && e1 < e2 {
        lemma_pow_mono_exp(base, e1, (e2 - 1) as nat);
        lemma_pow_pos(base, (e2 - 1) as nat);
        assert(pow_nat(base, e2) == base * pow_nat(base, (e2 - 1) as nat));
        assert(base * pow_nat(base, (e2 - 1) as nat) >= 1 * pow_nat(base, (e2 - 1) as nat))
            by (nonlinear_arith)
            requires
                base >= 1,
                pow_nat(base, (e2 - 1) as nat) >= 1,
        ;
    }
}

/// Retry policy with exponential backoff.
///
/// Configures how requests should be retried on failure, using exponential
/// backoff to avoid overwhelming failing services.
#[derive(Debug, Clone, Copy, PartialEq, Eq, Structural)]
pub struct RetryPolicy {
    /// Maximum number of retry attempts.
    pub max_retries: u32,
    /// Initial delay before the first retry, in milliseconds.
    pub initial_delay_ms: u64,
    /// Maximum delay between retries, in milliseconds (cap for the backoff).
    pub max_delay_ms: u64,
    /// Backoff multiplier (typically 2 for exponential backoff).
    pub backoff_multiplier: u32,
}

impl RetryPolicy {
    /// The delay before attempt number `attempt`, as a mathematical value.
    ///
    /// Attempt 0 waits nothing; attempt `n >= 1` waits
    /// `initial_delay * multiplier^(n-1)`, with the multiplier power
    /// saturating at `u32::MAX` and the product capped at `max_delay_ms`.
    pub open spec fn delay_spec(self, attempt: nat) -> int {
        if attempt == 0 {
            0
        } else {
            let mult = vstd::math::min(
                pow_nat(self.backoff_multiplier as nat, (attempt - 1) as nat) as int,
                u32::MAX as int,
            );
            vstd::math::min(self.initial_delay_ms as int * mult, self.max_delay_ms as int)
        }
    }

    /// Create a new retry policy with default values.
    pub fn new() -> (r: Self)
        ensures
            r.max_retries == DEFAULT_MAX_RETRIES,
            r.initial_delay_ms == DEFAULT_RETRY_DELAY_MS,
            r.max_delay_ms == DEFAULT_RETRY_MAX_DELAY_MS,
            r.backoff_multiplier == 2,
    {
        Self {
            max_retries: DEFAULT_MAX_RETRIES,
            initial_delay_ms: DEFAULT_RETRY_DELAY_MS,
            max_delay_ms: DEFAULT_RETRY_MAX_DELAY_MS,
            backoff_multiplier: 2,
        }
    }

    /// Create a retry policy with no retries.
    pub fn no_retry() -> (r: Self)
        ensures
            r.max_retries == 0,
            r.initial_delay_ms == 0,
            r.max_delay_ms == 0,
            r.backoff_multiplier == 1,
    {
        Self { max_retries: 0, initial_delay_ms: 0, max_delay_ms: 0, backoff_multiplier: 1 }
    }

    /// Set the maximum number of retries.
    pub fn with_max_retries(self, retries: u32) -> (r: Self)
        ensures
            r == (Self { max_retries: retries, ..self }),
    {
        Self { max_retries: retries, ..self }
    }

    /// Set the initial delay, in milliseconds.
    pub fn with_initial_delay_ms(self, delay_ms: u64) -> (r: Self)
        ensures
            r == (Self { initial_delay_ms: delay_ms, ..self }),
    {
        Self { initial_delay_ms: delay_ms, ..self }
    }

    /// Set the maximum delay, in milliseconds.
    pub fn with_max_delay_ms(self, delay_ms: u64) -> (r: Self)
        ensures
            r == (Self { max_delay_ms: delay_ms, ..self }),
    {
        Self { max_delay_ms: delay_ms, ..self }
    }

    /// Set the backoff multiplier.
    pub fn with_backoff_multiplier(self, multiplier: u32) -> (r: Self)
        ensures
            r == (Self { backoff_multiplier: multiplier, ..self }),
    {
        Self { backoff_multiplier: multiplier, ..self }
    }

    /// Calculate the delay in milliseconds before the given attempt number.
    ///
    /// Uses exponential backoff:
    /// `delay = min(initial_delay * multiplier^(attempt-1), max_delay)`,
    /// with saturating arithmetic, so the computation is total and never
    /// wraps.
    pub fn delay_for_attempt(&self, attempt: u32) -> (r: u64)
        ensures
            r as int == self.delay_spec(attempt as nat),
    {
        if attempt == 0 {
            return 0;
        }
        let mult = saturating_pow_u32(self.backoff_multiplier, attempt - 1);
        let prod = saturating_mul_u64(self.initial_delay_ms, mult as u64);
        if prod < self.max_delay_ms {
            prod
        } else {
            self.max_delay_ms
        }
    }

    /// Check if retries are enabled.
    pub fn has_retries(&self) -> (r: bool)
        ensures
            r == (self.max_retries > 0),
    {
        self.max_retries > 0
    }
}

impl Default for RetryPolicy {
    /// The default policy: 3 retries, 500 ms initial delay, 5000 ms cap,
    /// multiplier 2.
    fn default() -> (r: Self)
        ensures
            r.max_retries == DEFAULT_MAX_RETRIES,
            r.initial_delay_ms == DEFAULT_RETRY_DELAY_MS,
            r.max_delay_ms == DEFAULT_RETRY_MAX_DELAY_MS,
            r.backoff_multiplier == 2,
    {
        Self::new()
    }
}

/// `base^exp`, saturating at `u32::MAX`.
fn saturating_pow_u32(base: u32, exp: u32) -> (r: u32)
    ensures
        r as int == vstd::math::min(pow_nat(base as nat, exp as nat) as int, u32::MAX as int),
{
    if base == 0 {
        if exp == 0 {
            return 1;
        }
        assert(pow_nat(0, exp as nat) == 0);
        return 0;
    }
    if base == 1 {
        proof {
            lemma_pow_one(exp as nat);
        }
        return 1;
    }
    let mut result: u32 = 1;
    let mut i: u32 = 0;
    while i < exp
        invariant
            2 <= base,
            i <= exp,
            result as int == pow_nat(base as nat, i as nat),
        decreases exp - i,
    {
        if result > u32::MAX / base {
            proof {
                lemma_saturation_reached(base as nat, i as nat, exp as nat, result as nat);
            }
            return u32::MAX;
        }
        assert(result * base <= u32::MAX) by (nonlinear_arith)
            requires
                base >= 1,
                result <= u32::MAX as int / base as int,
        ;
        assert(pow_nat(base as nat, (i + 1) as nat) == base * pow_nat(base as nat, i as nat));
        result = result * base;
        i = i + 1;
    }
    result
}

proof fn lemma_pow_one(exp: nat)
    ensures
        pow_nat(1, exp) == 1,
    decreases exp,
{
    if exp > 0 {
        lemma_pow_one((exp - 1) as nat);
    }
}

proof fn lemma_saturation_reached(base: nat, i: nat, exp: nat, result: nat)
    requires
        base >= 2,
        i < exp,
        result == pow_nat(base, i),
        result > u32::MAX as nat / base,
    ensures
        pow_nat(base, exp) >= u32::MAX as nat,
{
    assert(result * base > u32::MAX as nat) by (nonlinear_arith)
        requires
            base >= 2,
            result > u32::MAX as nat / base,
    ;
    assert(pow_nat(base, (i + 1) as nat) == base * pow_nat(base, i));
    lemma_pow_mono_exp(base, (i + 1) as nat, exp);
}

/// `a * b`, saturating at `u64::MAX`.
pub fn saturating_mul_u64(a: u64, b: u64) -> (r: u64)
    ensures
        r as int == vstd::math::min(a as int * b as int, u64::MAX as int),
{
    if b == 0 {
        return 0;
    }
    if a > u64::MAX / b {
        proof {
            assert(a * b > u64::MAX) by (nonlinear_arith)
                requires
                    b >= 1,
                    a > u64::MAX as int / b as int,
            ;
        }
        return u64::MAX;
    }
    assert(a * b <= u64::MAX) by (nonlinear_arith)
        requires
            b >= 1,
            a <= u64::MAX as int / b as int,
    ;
    a * b
}

/// Law: for every policy whose multiplier is at least 1, the backoff delay
/// is monotonically non-decreasing in the attempt number, never exceeds the
/// configured cap, and attempt 0 waits nothing.
pub proof fn lemma_delay_monotonic(policy: RetryPolicy, n: u32)
    requires
        policy.backoff_multiplier >= 1,
        n >= 1,
    ensures
        policy.delay_spec(0) == 0,
        policy.delay_spec(n as nat) <= policy.delay_spec(n as nat + 1),
        policy.delay_spec(n as nat + 1) <= policy.max_delay_ms,
{
    let m = policy.backoff_multiplier as nat;
    lemma_pow_mono_exp(m, (n - 1) as nat, n as nat);
    let p1 = pow_nat(m, (n - 1) as nat) as int;
    let p2 = pow_nat(m, n as nat) as int;
    let m1 = vstd::math::min(p1, u32::MAX as int);
    let m2 = vstd::math::min(p2, u32::MAX as int);
    assert(m1 <= m2);
    assert(policy.initial_delay_ms as int * m1 <= policy.initial_delay_ms as int * m2)
        by (nonlinear_arith)
        requires
            0 <= policy.initial_delay_ms,
            m1 <= m2,
    ;
}

} // verus!
