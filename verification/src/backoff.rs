//! Exponential redial backoff.

use vstd::arithmetic::mul::lemma_mul_inequality;
use vstd::arithmetic::power2::{lemma2_to64, lemma_pow2_pos, lemma_pow2_strictly_increases, lemma_pow2_unfold, pow2};
use vstd::bits::lemma_u32_shl_is_mul;
use vstd::prelude::*;

verus! {

/// Fixed wait after an authentication failure (691), in milliseconds.
pub const AUTH_FAIL_DELAY_MS: u64 = 600_000;

/// Exponent of the backoff after `attempt` failures (capped at 20 doublings).
pub open spec fn capped(attempt: u32) -> nat {
    if attempt < 20 {
        attempt as nat
    } else {
        20
    }
}

/// Delay for a given attempt: `min * 2^min(attempt, 20)`, clamped to
/// `max` and then raised to at least `min` (all in milliseconds).
pub open spec fn spec_delay(min: u64, max: u64, attempt: u32) -> u64 {
    let d = min as int * pow2(capped(attempt)) as int;
    let up = if d >= max as int {
        max
    } else {
        d as u64
    };
    if up < min {
        min
    } else {
        up
    }
}

/// Exponential backoff between `min` and `max` (milliseconds).
#[derive(Debug, Clone)]
pub struct Backoff {
    min: u64,
    max: u64,
    attempt: u32,
}

impl Backoff {
    /// Lower bound of the delays.
    pub closed spec fn min_ms(&self) -> u64 {
        self.min
    }

    /// Upper bound of the delays.
    pub closed spec fn max_ms(&self) -> u64 {
        self.max
    }

    /// Number of delays handed out since the last reset (saturating).
    pub closed spec fn attempt(&self) -> u32 {
        self.attempt
    }

    /// A backoff between `min` and `max` milliseconds, with no attempt yet.
    pub fn new(min: u64, max: u64) -> (r: Self)
        ensures
            r.min_ms() == min,
            r.max_ms() == max,
            r.attempt() == 0,
    {
        Backoff { min, max, attempt: 0 }
    }

    /// The next delay; each call doubles it until the cap.
    pub fn next_delay(&mut self) -> (r: u64)
        ensures
            r == spec_delay(old(self).min_ms(), old(self).max_ms(), old(self).attempt()),
            final(self).min_ms() == old(self).min_ms(),
            final(self).max_ms() == old(self).max_ms(),
            final(self).attempt() == (if old(self).attempt() == u32::MAX {
                u32::MAX as int
            } else {
                old(self).attempt() + 1
            }),
    {
        let shift: u32 = if self.attempt < 20 {
            self.attempt
        } else {
            20
        };
        proof {
            lemma2_to64();
            lemma_pow2_le(shift as nat, 20);
            lemma_u32_shl_is_mul(1, shift);
        }
        let factor: u32 = 1u32 << shift;
        let d: u64 = match self.min.checked_mul(factor as u64) {
            Some(v) => v,
            None => u64::MAX,
        };
        self.attempt = self.attempt.saturating_add(1);
        let up = if d < self.max {
            d
        } else {
            self.max
        };
        if up < self.min {
            self.min
        } else {
            up
        }
    }

    /// Starts again from the minimum delay.
    pub fn reset(&mut self)
        ensures
            final(self).min_ms() == old(self).min_ms(),
            final(self).max_ms() == old(self).max_ms(),
            final(self).attempt() == 0,
    {
        self.attempt = 0;
    }
}

/// `2^a <= 2^b` for `a <= b`.
proof fn lemma_pow2_le(a: nat, b: nat)
    requires
        a <= b,
    ensures
        pow2(a) <= pow2(b),
{
    if a < b {
        lemma_pow2_strictly_increases(a, b);
    }
}

/// Delays never shrink as failures accumulate (until a reset).
pub proof fn lemma_delay_monotone(min: u64, max: u64, a: u32, b: u32)
    requires
        a <= b,
    ensures
        spec_delay(min, max, a) <= spec_delay(min, max, b),
{
    lemma_pow2_le(capped(a), capped(b));
    lemma_mul_inequality(pow2(capped(a)) as int, pow2(capped(b)) as int, min as int);
    assert(pow2(capped(a)) * min <= pow2(capped(b)) * min);
    assert(min as int * pow2(capped(a)) as int == pow2(capped(a)) * min) by (nonlinear_arith);
    assert(min as int * pow2(capped(b)) as int == pow2(capped(b)) * min) by (nonlinear_arith);
}

/// With `min <= max` every delay lies between the bounds, and the first
/// delay after a reset is exactly `min`.
pub proof fn lemma_delay_bounds(min: u64, max: u64, a: u32)
    requires
        min <= max,
    ensures
        min <= spec_delay(min, max, a) <= max,
        spec_delay(min, max, 0) == min,
{
    lemma2_to64();
    assert(capped(0) == 0);
    assert(pow2(0) == 1);
    assert(min as int * pow2(capped(0)) as int == min as int);
}


/// The delays of consecutive failures since a reset: the first is `min`,
/// and each of the next twenty doubles the one before until the cap, where
/// it stays (with `min <= max`). So the `k`-th delay is
/// `min(max, min * 2^k)` for `k < 20`: 1 s, 2 s, 4 s, 8 s, ... up to 5 min.
pub proof fn lemma_delay_doubles(min: u64, max: u64, k: u32)
    requires
        min <= max,
        k < 20,
    ensures
        spec_delay(min, max, 0) == min,
        spec_delay(min, max, (k + 1) as u32) == if 2 * spec_delay(min, max, k) < max {
            2 * spec_delay(min, max, k)
        } else {
            max as int
        },
{
    lemma_delay_bounds(min, max, 0);
    let e = k as nat;
    assert(capped(k) == e);
    assert(capped((k + 1) as u32) == e + 1);
    lemma_pow2_unfold(e + 1);
    lemma_pow2_pos(e);
    let p = pow2(e) as int;
    assert(pow2(e + 1) as int == 2 * p);
    assert(min as int * (2 * p) == 2 * (min as int * p)) by (nonlinear_arith);
    assert(min as int * p >= min as int) by (nonlinear_arith)
        requires
            p >= 1,
    ;
}

/// The `k`-th delay after a reset, for `k < 20`, is `min * 2^k` while that
/// stays below `max`, and `max` from there on.
pub proof fn lemma_delay_closed_form(min: u64, max: u64, k: u32)
    requires
        min <= max,
        k < 20,
    ensures
        spec_delay(min, max, k) == if min * pow2(k as nat) < max {
            min * pow2(k as nat)
        } else {
            max as int
        },
    decreases k,
{
    lemma_pow2_pos(k as nat);
    let p = pow2(k as nat) as int;
    assert(min as int * p >= min as int) by (nonlinear_arith)
        requires
            p >= 1,
    ;
    if k > 0 {
        lemma_delay_closed_form(min, max, (k - 1) as u32);
        lemma_delay_doubles(min, max, (k - 1) as u32);
        lemma_pow2_unfold(k as nat);
        let q = pow2((k - 1) as nat) as int;
        assert(min as int * (2 * q) == 2 * (min as int * q)) by (nonlinear_arith);
        assert(min as int * q <= min as int * p) by (nonlinear_arith)
            requires
                p == 2 * q,
                q >= 1,
        ;
    } else {
        lemma2_to64();
    }
}

} // verus!
