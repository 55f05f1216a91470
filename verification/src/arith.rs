//! Powers and the day count of the campaign clock.

use vstd::prelude::*;
use vstd::arithmetic::power::{lemma_pow_increases, pow};

use crate::constants::SECONDS_TO_DAYS;

verus! {

/// `base` raised to `exp`, or nothing when that does not fit in a `u64`.
pub fn checked_pow(base: u64, exp: u32) -> (r: Option<u64>)
    ensures
        match r {
            Some(v) => v == pow(base as int, exp as nat),
            None => pow(base as int, exp as nat) > u64::MAX,
        },
{
    let mut acc: u64 = 1;
    let mut i: u32 = 0;
    proof {
        reveal(pow);
    }
    while i < exp
        invariant
            i <= exp,
            acc == pow(base as int, i as nat),
        decreases exp - i,
    {
        proof {
            reveal(pow);
            assert(pow(base as int, (i + 1) as nat) == base * pow(base as int, i as nat));
            assert(acc * base == base * acc) by (nonlinear_arith);
        }
        match acc.checked_mul(base) {
            Some(v) => {
                acc = v;
                i = i + 1;
            },
            None => {
                proof {
                    assert(base > 0) by (nonlinear_arith)
                        requires
                            acc * base > u64::MAX,
                    ;
                    lemma_pow_increases(base as nat, (i + 1) as nat, exp as nat);
                }
                return None;
            },
        }
    }
    Some(acc)
}

/// Division that rounds toward zero, as Rust's `/` on signed integers does.
pub open spec fn trunc_div(a: int, d: int) -> int {
    if a >= 0 {
        a / d
    } else {
        -((-a) / d)
    }
}

/// Whole days from `start` to `now`, rounded toward zero (as the division of
/// the elapsed seconds by the seconds of a day does).
pub open spec fn elapsed_days(now: i64, start: i64) -> int {
    trunc_div(now - start, SECONDS_TO_DAYS as int)
}

/// Whole days from `start` to `now`, rounded toward zero.
pub fn days_elapsed(now: i64, start: i64) -> (r: i64)
    requires
        i64::MIN <= now - start <= i64::MAX,
    ensures
        r == elapsed_days(now, start),
{
    let diff: i64 = now - start;
    if diff >= 0 {
        ((diff as u64) / 86400) as i64
    } else {
        let magnitude: u64 = ((-(diff + 1)) as u64) + 1;
        assert(magnitude == -diff);
        -((magnitude / 86400) as i64)
    }
}

} // verus!
