//! Price samples of the outside oracle, their freshness, and the integer
//! price that decides a wager.

use vstd::prelude::*;
use vstd::arithmetic::div_mod::{lemma_div_denominator, lemma_div_is_ordered_by_denominator};

verus! {

/// The largest age, in the oracle's time units, of a sample that settlement
/// still accepts.
pub const STALENESS_THRESHOLD: u64 = 1800;

/// One sample of the oracle: the price is `price * 10^expo`, published at
/// `publish_time`.
#[derive(Clone, Copy, Debug, PartialEq, Eq)]
pub struct PriceSample {
    pub price: i64,
    pub expo: i32,
    pub publish_time: i64,
}

/// A price that passed the freshness gate: `price * 10^expo`.
#[derive(Clone, Copy, Debug, PartialEq, Eq)]
pub struct Price {
    pub price: i64,
    pub expo: i32,
}

/// `10^n`.
pub open spec fn pow10(n: nat) -> nat
    decreases n,
{
    if n == 0 {
        1
    } else {
        10 * pow10((n - 1) as nat)
    }
}

/// The distance in time between a sample's publication and `now`.
pub open spec fn sample_age(publish_time: i64, now: i64) -> nat {
    let d = now as int - publish_time as int;
    if d >= 0 {
        d as nat
    } else {
        (-d) as nat
    }
}

/// Whether a sample published at `publish_time` is at most `max_age` away
/// from `now`.
pub open spec fn is_fresh(publish_time: i64, now: i64, max_age: u64) -> bool {
    sample_age(publish_time, now) <= max_age
}

/// `mantissa * 10^expo`, truncated toward zero to an integer.
pub open spec fn resolved_price(mantissa: i64, expo: i32) -> int {
    if expo >= 0 {
        mantissa * pow10(expo as nat)
    } else if mantissa >= 0 {
        mantissa as int / pow10((-expo) as nat) as int
    } else {
        -((-mantissa) / pow10((-expo) as nat) as int)
    }
}

/// Whether the price `mantissa * 10^expo` settles a wager on `strike` in the
/// creator's favour: the truncated price is positive and equals the strike.
pub open spec fn price_hits_strike(strike: u64, mantissa: i64, expo: i32) -> bool {
    resolved_price(mantissa, expo) > 0 && resolved_price(mantissa, expo) == strike as int
}

proof fn lemma_pow10_positive(n: nat)
    ensures
        pow10(n) >= 1,
    decreases n,
{
    if n > 0 {
        lemma_pow10_positive((n - 1) as nat);
    }
}

proof fn lemma_pow10_monotone(a: nat, b: nat)
    requires
        a <= b,
    ensures
        pow10(a) <= pow10(b),
    decreases b - a,
{
    if a < b {
        lemma_pow10_monotone(a, (b - 1) as nat);
        lemma_pow10_positive((b - 1) as nat);
    }
}

impl PriceSample {
    /// The sample's price if it was published at most `max_age` away from
    /// `now`, and nothing otherwise.
    pub fn get_price_no_older_than(&self, now: i64, max_age: u64) -> (r: Option<Price>)
        ensures
            r == (if is_fresh(self.publish_time, now, max_age) {
                Some(Price { price: self.price, expo: self.expo })
            } else {
                None::<Price>
            }),
    {
        let d: i128 = now as i128 - self.publish_time as i128;
        let age: i128 = if d >= 0 {
            d
        } else {
            -d
        };
        if age > max_age as i128 {
            None
        } else {
            Some(Price { price: self.price, expo: self.expo })
        }
    }
}

/// Whether the truncated value of `mantissa * 10^expo` is positive and
/// equal to `strike`.
pub fn hits_strike(strike: u64, mantissa: i64, expo: i32) -> (r: bool)
    ensures
        r == price_hits_strike(strike, mantissa, expo),
{
    if mantissa <= 0 {
        proof {
            if expo >= 0 {
                lemma_pow10_positive(expo as nat);
                assert(mantissa * pow10(expo as nat) <= 0) by (nonlinear_arith)
                    requires
                        mantissa <= 0,
                        pow10(expo as nat) >= 1,
                ;
            } else {
                lemma_pow10_positive((-expo) as nat);
            }
        }
        return false;
    }
    let m: u64 = mantissa as u64;
    if expo >= 0 {
        let e: u32 = expo as u32;
        let mut v: u128 = m as u128;
        let mut k: u32 = 0;
        proof {
            assert(pow10(0) == 1);
            assert(m * pow10(0) == m);
        }
        while k < e
            invariant
                k <= e,
                e == expo,
                m == mantissa,
                m >= 1,
                v == m * pow10(k as nat),
                v <= 10 * 0xffff_ffff_ffff_ffffu128,
            decreases e - k,
        {
            if v > strike as u128 {
                proof {
                    lemma_pow10_monotone(k as nat, e as nat);
                    assert(m * pow10(e as nat) >= m * pow10(k as nat)) by (nonlinear_arith)
                        requires
                            pow10(k as nat) <= pow10(e as nat),
                            m >= 1,
                    ;
                }
                return false;
            }
            v = v * 10;
            k = k + 1;
            proof {
                assert(v == m * pow10(k as nat)) by (nonlinear_arith)
                    requires
                        v == (m * pow10((k - 1) as nat)) * 10,
                        pow10(k as nat) == 10 * pow10((k - 1) as nat),
                ;
            }
        }
        proof {
            lemma_pow10_positive(e as nat);
            assert(v >= 1) by (nonlinear_arith)
                requires
                    v == m * pow10(k as nat),
                    m >= 1,
                    pow10(k as nat) >= 1,
            ;
        }
        v == strike as u128
    } else {
        let d: u64 = (-(expo as i64)) as u64;
        let mut v: u64 = m;
        let mut k: u64 = 0;
        proof {
            assert(m as int / 1 == m as int);
        }
        while k < d
            invariant
                k <= d,
                d == -expo,
                m == mantissa,
                v == m as int / pow10(k as nat) as int,
            decreases d - k,
        {
            if v == 0 {
                proof {
                    lemma_pow10_positive(k as nat);
                    lemma_pow10_monotone(k as nat, d as nat);
                    lemma_div_is_ordered_by_denominator(
                        m as int,
                        pow10(k as nat) as int,
                        pow10(d as nat) as int,
                    );
                }
                return false;
            }
            proof {
                lemma_pow10_positive(k as nat);
                lemma_div_denominator(m as int, pow10(k as nat) as int, 10);
                assert(pow10(k as nat) * 10 == pow10((k + 1) as nat));
            }
            v = v / 10;
            k = k + 1;
        }
        v > 0 && v == strike
    }
}

} // verus!
