//! Exact numbers as read from chart attributes (depths, scales, periods).
//!
//! A finite binary floating-point number is exactly `mantissa * 2^exponent`;
//! this type holds it in that form so that depth thresholds can be tested
//! without rounding.

use vstd::prelude::*;
use vstd::arithmetic::power2::{
    pow2,
    lemma_pow2_unfold,
    lemma_pow2_strictly_increases,
    lemma_pow2_pos,
    lemma2_to64,
    lemma2_to64_rest,
};

verus! {

/// The value `mantissa * 2^exponent`.
#[derive(Debug, Clone, Copy, PartialEq, Eq, Structural)]
pub struct Real {
    pub mantissa: i64,
    pub exponent: i32,
}

/// The sign of an integer: -1, 0 or 1.
pub open spec fn sign(x: int) -> int {
    if x < 0 {
        -1
    } else if x == 0 {
        0
    } else {
        1
    }
}

impl Real {
    /// The sign of `self - k`, computed exactly.
    pub open spec fn cmp_spec(self, k: int) -> int {
        if self.exponent >= 0 {
            sign(self.mantissa * pow2(self.exponent as nat) - k)
        } else {
            sign(self.mantissa - k * pow2((-self.exponent) as nat))
        }
    }

    /// `self < k`
    pub open spec fn lt_spec(self, k: int) -> bool {
        self.cmp_spec(k) < 0
    }

    /// `self <= k`
    pub open spec fn le_spec(self, k: int) -> bool {
        self.cmp_spec(k) <= 0
    }

    /// The real number equal to the integer `i`.
    pub fn from_int(i: i64) -> (r: Real)
        ensures
            r.mantissa == i,
            r.exponent == 0,
    {
        Real { mantissa: i, exponent: 0 }
    }

    /// The sign of `self - k`: -1 when `self < k`, 0 when equal, 1 when greater.
    pub fn cmp_int(&self, k: i64) -> (r: i8)
        ensures
            r as int == self.cmp_spec(k as int),
    {
        let m = self.mantissa as i128;
        let kk = k as i128;
        proof {
            lemma2_to64();
            lemma2_to64_rest();
        }
        if self.exponent >= 0 {
            let e = self.exponent as u32;
            if e > 63 {
                proof {
                    if e > 64 {
                        lemma_pow2_strictly_increases(64, e as nat);
                    }
                    let p = pow2(e as nat) as int;
                    let mi = m as int;
                    if mi > 0 {
                        assert(mi * p >= p) by (nonlinear_arith)
                            requires mi >= 1, p > 0;
                    } else if mi < 0 {
                        assert(mi * p <= -p) by (nonlinear_arith)
                            requires mi <= -1, p > 0;
                    } else {
                        assert(mi * p == 0) by (nonlinear_arith)
                            requires mi == 0;
                    }
                }
                if m == 0 {
                    sign_of(0 - kk)
                } else if m > 0 {
                    1
                } else {
                    -1
                }
            } else {
                let p = pow2_exec(e);
                proof {
                    if e < 63 {
                        lemma_pow2_strictly_increases(e as nat, 63);
                    }
                    assert(-0x4000_0000_0000_0000_0000_0000_0000_0000 <= m * p
                        <= 0x4000_0000_0000_0000_0000_0000_0000_0000) by (nonlinear_arith)
                        requires
                            -0x8000_0000_0000_0000 <= m < 0x8000_0000_0000_0000,
                            0 < p <= 0x8000_0000_0000_0000;
                }
                let v = m * p;
                sign_of(v - kk)
            }
        } else {
            let s: i64 = -(self.exponent as i64);
            if s > 63 {
                proof {
                    lemma_pow2_strictly_increases(63, s as nat);
                    let p = pow2(s as nat) as int;
                    let ki = kk as int;
                    if ki > 0 {
                        assert(ki * p >= p) by (nonlinear_arith)
                            requires ki >= 1, p > 0;
                    } else if ki < 0 {
                        assert(ki * p <= -p) by (nonlinear_arith)
                            requires ki <= -1, p > 0;
                    } else {
                        assert(ki * p == 0) by (nonlinear_arith)
                            requires ki == 0;
                    }
                }
                if kk == 0 {
                    sign_of(m)
                } else if kk > 0 {
                    -1
                } else {
                    1
                }
            } else {
                let p = pow2_exec(s as u32);
                proof {
                    if s < 63 {
                        lemma_pow2_strictly_increases(s as nat, 63);
                    }
                    assert(-0x4000_0000_0000_0000_0000_0000_0000_0000 <= kk * p
                        <= 0x4000_0000_0000_0000_0000_0000_0000_0000) by (nonlinear_arith)
                        requires
                            -0x8000_0000_0000_0000 <= kk < 0x8000_0000_0000_0000,
                            0 < p <= 0x8000_0000_0000_0000;
                }
                let v = kk * p;
                sign_of(m - v)
            }
        }
    }

    /// `self < k`
    pub fn lt_int(&self, k: i64) -> (r: bool)
        ensures
            r == self.lt_spec(k as int),
    {
        self.cmp_int(k) < 0
    }

    /// `self <= k`
    pub fn le_int(&self, k: i64) -> (r: bool)
        ensures
            r == self.le_spec(k as int),
    {
        self.cmp_int(k) <= 0
    }
}

fn sign_of(x: i128) -> (r: i8)
    ensures
        r as int == sign(x as int),
{
    if x < 0 {
        -1
    } else if x == 0 {
        0
    } else {
        1
    }
}

/// `2^n` for `n` up to 64.
fn pow2_exec(n: u32) -> (r: i128)
    requires
        n <= 64,
    ensures
        r == pow2(n as nat),
        r > 0,
{
    proof {
        lemma2_to64();
        lemma2_to64_rest();
    }
    let mut r: i128 = 1;
    let mut i: u32 = 0;
    while i < n
        invariant
            i <= n <= 64,
            r == pow2(i as nat),
            pow2(64) == 0x1_0000_0000_0000_0000,
        decreases n - i,
    {
        proof {
            lemma_pow2_unfold((i + 1) as nat);
            if i + 1 < 64 {
                lemma_pow2_strictly_increases((i + 1) as nat, 64);
            }
        }
        r = r * 2;
        i = i + 1;
    }
    proof {
        lemma_pow2_pos(n as nat);
    }
    r
}

} // verus!
