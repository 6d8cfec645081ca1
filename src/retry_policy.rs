//! Interpretation of a retry strategy: the delay before a given attempt.

use vstd::prelude::*;
use crate::bignum::{from_u64, div_limb, lemma_power_positive, mul_limb, power, value_capped, value_of};
use crate::error::RetryStrategy;

verus! {

/// The delay used by `Immediate`, in milliseconds.
pub const IMMEDIATE_DELAY_MS: u64 = 100;

/// `initial` times `(percent / 100)` to the power `k`, rounded down once,
/// at the end.
pub open spec fn backoff_value(initial: nat, percent: nat, k: nat) -> nat {
    (initial * power(percent, k)) / power(100, k)
}

pub open spec fn min_nat(a: nat, b: nat) -> nat {
    if a <= b {
        a
    } else {
        b
    }
}

/// The delay, in milliseconds, before attempt `n` (counted from 1) under
/// strategy `s`; `None` where the strategy allows no such attempt.
pub open spec fn delay_spec(s: RetryStrategy, n: nat) -> Option<nat> {
    if n == 0 {
        None
    } else {
        match s {
            RetryStrategy::NoRetry => None,
            RetryStrategy::Immediate { max_attempts } => if n <= max_attempts {
                Some(IMMEDIATE_DELAY_MS as nat)
            } else {
                None
            },
            RetryStrategy::ExponentialBackoff {
                max_attempts,
                initial_delay_ms,
                max_delay_ms,
                backoff_factor_percent,
            } => if n <= max_attempts {
                Some(
                    min_nat(
                        backoff_value(initial_delay_ms as nat, backoff_factor_percent as nat, (n - 1) as nat),
                        max_delay_ms as nat,
                    ),
                )
            } else {
                None
            },
            RetryStrategy::LinearBackoff { max_attempts, delay_increment_ms } => if n
                <= max_attempts {
                Some(min_nat((delay_increment_ms as nat) * n, u64::MAX as nat))
            } else {
                None
            },
        }
    }
}

/// Computes `min(backoff_value(initial, percent, k), cap)` exactly.
fn capped_backoff(initial: u64, percent: u32, k: u32, cap: u64) -> (r: u64)
    ensures
        r as nat == min_nat(backoff_value(initial as nat, percent as nat, k as nat), cap as nat),
{
    let mut v = from_u64(initial);
    assert(power(percent as nat, 0) == 1);
    assert((initial as nat) * 1 == initial as nat);
    let mut i: u32 = 0;
    while i < k
        invariant
            i <= k,
            value_of(v@) == (initial as nat) * power(percent as nat, i as nat),
        decreases k - i,
    {
        let ghost before = value_of(v@);
        v = mul_limb(&v, percent);
        proof {
            let p = percent as nat;
            assert(power(p, (i + 1) as nat) == p * power(p, i as nat));
            assert(before * p == (initial as nat) * (p * power(p, i as nat))) by (nonlinear_arith)
                requires
                    before == (initial as nat) * power(p, i as nat),
            ;
        }
        i += 1;
    }
    let ghost whole = (initial as nat) * power(percent as nat, k as nat);
    assert(power(100, 0) == 1);
    assert(whole / 1 == whole);
    let mut j: u32 = 0;
    while j < k
        invariant
            j <= k,
            value_of(v@) == whole / power(100, j as nat),
        decreases k - j,
    {
        let ghost before = value_of(v@);
        v = div_limb(&v, 100);
        proof {
            lemma_power_positive(100, j as nat);
            vstd::arithmetic::div_mod::lemma_div_denominator(whole as int, power(100, j as nat) as int, 100);
            assert(power(100, (j + 1) as nat) == 100 * power(100, j as nat));
            assert(power(100, j as nat) * 100 == power(100, (j + 1) as nat)) by (nonlinear_arith)
                requires
                    power(100, (j + 1) as nat) == 100 * power(100, j as nat),
            ;
        }
        j += 1;
    }
    value_capped(&v, cap)
}

/// The delay in milliseconds before attempt `attempt_number` (counted from
/// 1) under `strategy`, or `None` where the strategy allows no such attempt.
/// Attempt 0 allows nothing.
pub fn delay_for(strategy: &RetryStrategy, attempt_number: u32) -> (r: Option<u64>)
    ensures
        match r {
            Some(d) => delay_spec(*strategy, attempt_number as nat) == Some(d as nat),
            None => delay_spec(*strategy, attempt_number as nat) is None,
        },
{
    if attempt_number == 0 {
        return None;
    }
    match strategy {
        RetryStrategy::NoRetry => None,
        RetryStrategy::Immediate { max_attempts } => {
            if attempt_number <= *max_attempts {
                Some(IMMEDIATE_DELAY_MS)
            } else {
                None
            }
        },
        RetryStrategy::ExponentialBackoff {
            max_attempts,
            initial_delay_ms,
            max_delay_ms,
            backoff_factor_percent,
        } => {
            if attempt_number <= *max_attempts {
                Some(
                    capped_backoff(
                        *initial_delay_ms,
                        *backoff_factor_percent,
                        attempt_number - 1,
                        *max_delay_ms,
                    ),
                )
            } else {
                None
            }
        },
        RetryStrategy::LinearBackoff { max_attempts, delay_increment_ms } => {
            if attempt_number <= *max_attempts {
                let inc = *delay_increment_ms as u128;
                let n = attempt_number as u128;
                assert(inc * n <= 0xffff_ffff_ffff_ffffu128 * 0xffff_ffffu128) by (nonlinear_arith)
                    requires
                        inc <= 0xffff_ffff_ffff_ffffu128,
                        n <= 0xffff_ffffu128,
                ;
                let product = inc * n;
                if product > u64::MAX as u128 {
                    Some(u64::MAX)
                } else {
                    Some(product as u64)
                }
            } else {
                None
            }
        },
    }
}

} // verus!
