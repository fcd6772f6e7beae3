//! Exact integer readings of IEEE-754 binary64 metadata numbers.
//!
//! AMF0 carries every number as the 8 raw bytes of a binary64 value. The
//! demuxer never does floating-point arithmetic: a finite binary64 value is
//! exactly `mantissa * 2^exponent`, so the scalings the metadata needs
//! (seconds to nanoseconds, kilobits to bits, truncation to an integer, and
//! a rational approximation) are computed exactly on the bit fields.

use vstd::prelude::*;
use vstd::arithmetic::power2::{
    pow2, lemma_pow2_adds, lemma_pow2_strictly_increases, lemma_pow2_pos, lemma2_to64,
    lemma2_to64_rest,
};
use vstd::arithmetic::mul::{
    lemma_mul_upper_bound, lemma_mul_inequality, lemma_mul_left_inequality,
    lemma_mul_strict_inequality,
};
use vstd::arithmetic::div_mod::lemma_basic_div;
use vstd::bits::{lemma_u64_shr_is_div, lemma_u128_shr_is_div};

verus! {

/// Sign bit of a binary64 value.
pub open spec fn f64_sign(b: u64) -> bool {
    b / 0x8000000000000000 == 1
}

/// Biased exponent field of a binary64 value.
pub open spec fn f64_exp(b: u64) -> u64 {
    (b / 0x10000000000000) as u64 % 0x800
}

/// Fraction field of a binary64 value.
pub open spec fn f64_frac(b: u64) -> u64 {
    b % 0x10000000000000
}

/// Whether the bits encode a NaN.
pub open spec fn f64_is_nan(b: u64) -> bool {
    f64_exp(b) == 0x7ff && f64_frac(b) != 0
}

/// Whether the bits encode an infinity.
pub open spec fn f64_is_inf(b: u64) -> bool {
    f64_exp(b) == 0x7ff && f64_frac(b) == 0
}

/// Integer mantissa of a finite binary64 value: the fraction with the
/// implicit leading bit for normal numbers.
pub open spec fn f64_mant(b: u64) -> int {
    if f64_exp(b) == 0 {
        f64_frac(b) as int
    } else {
        f64_frac(b) as int + 0x10000000000000
    }
}

/// Binary exponent of a finite binary64 value: its magnitude is exactly
/// `f64_mant(b) * 2^f64_e2(b)`.
pub open spec fn f64_e2(b: u64) -> int {
    if f64_exp(b) == 0 {
        -1074
    } else {
        f64_exp(b) - 1075
    }
}

/// `trunc(value * 2^shift)` saturated to `u32`, with NaN and negative values
/// giving 0 — the saturating Rust cast of a scaled binary64 value.
pub open spec fn spec_f64_floor_u32(b: u64, shift: int) -> u32 {
    if f64_is_nan(b) || f64_sign(b) {
        0
    } else if f64_is_inf(b) {
        u32::MAX
    } else {
        let e = f64_e2(b) + shift;
        let m = f64_mant(b);
        if e >= 0 {
            if m * pow2(e as nat) > u32::MAX {
                u32::MAX
            } else {
                (m * pow2(e as nat)) as u32
            }
        } else {
            if m / pow2((-e) as nat) as int > u32::MAX {
                u32::MAX
            } else {
                (m / pow2((-e) as nat) as int) as u32
            }
        }
    }
}

/// `round(value * 10^9)` (half up) saturated to `u64`, with NaN and negative
/// values giving 0: the nanosecond reading of a duration in seconds.
pub open spec fn spec_f64_seconds_to_ns(b: u64) -> u64 {
    if f64_is_nan(b) || f64_sign(b) {
        0
    } else if f64_is_inf(b) {
        u64::MAX
    } else {
        let e = f64_e2(b);
        let p = f64_mant(b) * 1000000000;
        if e >= 0 {
            if p * pow2(e as nat) > u64::MAX {
                u64::MAX
            } else {
                (p * pow2(e as nat)) as u64
            }
        } else {
            let k = (-e) as nat;
            let q = (p + pow2((k - 1) as nat)) / pow2(k) as int;
            if q > u64::MAX {
                u64::MAX
            } else {
                q as u64
            }
        }
    }
}

/// Continued-fraction approximation of `num/den` with numerator and
/// denominator bounded by `0x7fffffff`: successive convergents are built
/// from the Euclidean quotients until the remainder is zero (the fraction is
/// exact) or the next convergent would leave the bound (the last one within
/// it is kept).
pub open spec fn cf_approx(num: int, den: int, h0: int, k0: int, h1: int, k1: int) -> (int, int)
    recommends
        num >= 0,
        den >= 1,
    decreases den,
    when den >= 1
{
    let a = num / den;
    if a > 0x7fffffff {
        (h1, k1)
    } else {
        let h2 = a * h1 + h0;
        let k2 = a * k1 + k0;
        if h2 > 0x7fffffff || k2 > 0x7fffffff {
            (h1, k1)
        } else {
            let r = num % den;
            if r == 0 {
                (h2, k2)
            } else {
                cf_approx(den, r, h1, k1, h2, k2)
            }
        }
    }
}

/// The rational approximation of a binary64 metadata number: `None` for
/// NaN, infinities and negative values; otherwise a fraction with both
/// parts bounded by `0x7fffffff`, exact whenever the value fits the bound.
/// Values below `2^-100` approximate to zero.
pub open spec fn spec_bits_to_fraction(b: u64) -> Option<(u32, u32)> {
    if f64_is_nan(b) || f64_is_inf(b) || (f64_sign(b) && f64_mant(b) != 0) {
        None
    } else if f64_mant(b) == 0 {
        Some((0u32, 1u32))
    } else {
        let m = f64_mant(b);
        let e = f64_e2(b);
        if e >= 0 {
            if m * pow2(e as nat) > 0x7fffffff {
                Some((0x7fffffffu32, 1u32))
            } else {
                Some(((m * pow2(e as nat)) as u32, 1u32))
            }
        } else {
            let k = (-e) as nat;
            if k > 100 {
                Some((0u32, 1u32))
            } else if m / pow2(k) as int > 0x7fffffff {
                Some((0x7fffffffu32, 1u32))
            } else {
                let hk = cf_approx(m, pow2(k) as int, 0, 1, 1, 0);
                Some((hk.0 as u32, hk.1 as u32))
            }
        }
    }
}

/// `2^127` fits in `u128`, stated over `pow2` so saturation proofs can use
/// it symbolically.
proof fn lemma_pow2_u128_bound()
    ensures
        pow2(127) < u128::MAX,
{
    lemma2_to64();
    lemma2_to64_rest();
    lemma_pow2_adds(63, 64);
    assert(pow2(63) * pow2(64) < u128::MAX) by (nonlinear_arith)
        requires
            pow2(63) == 0x8000000000000000 && pow2(64) == 0x10000000000000000,
    ;
}

/// `2^k`, computed so proofs can relate shifts to `pow2`.
fn pow2_u128(k: u32) -> (r: u128)
    requires
        k <= 126,
    ensures
        r == pow2(k as nat),
{
    let mut r: u128 = 1;
    let mut i: u32 = 0;
    proof {
        lemma2_to64();
    }
    while i < k
        invariant
            0 <= i <= k <= 126,
            r == pow2(i as nat),
        decreases k - i,
    {
        proof {
            lemma_pow2_u128_bound();
            if i + 1 < 127 {
                lemma_pow2_strictly_increases((i + 1) as nat, 127);
            }
            lemma_pow2_adds(i as nat, 1);
            lemma2_to64();
        }
        r = r * 2;
        i = i + 1;
    }
    r
}

/// Truncates `m * 2^e` to an integer, saturating at `u32::MAX`.
fn mant_floor_u32(m: u64, e: i64) -> (r: u32)
    requires
        0 <= m < 0x20000000000000,
        -1200 <= e <= 1200,
    ensures
        ({
            let exact = if e >= 0 {
                m * pow2(e as nat)
            } else {
                m as int / pow2((-e) as nat) as int
            };
            if exact > u32::MAX {
                r == u32::MAX
            } else {
                r == exact
            }
        }),
{
    if m == 0 {
        proof {
            if e >= 0 {
                assert(0int * pow2(e as nat) == 0);
            } else {
                lemma_pow2_pos((-e) as nat);
                lemma_basic_div(0, pow2((-e) as nat) as int);
            }
        }
        return 0;
    }
    if e >= 0 {
        if e >= 32 {
            proof {
                lemma2_to64();
                if e > 32 {
                    lemma_pow2_strictly_increases(32, e as nat);
                }
                lemma_mul_inequality(1, m as int, pow2(e as nat) as int);
            }
            return u32::MAX;
        }
        let pw = pow2_u128(e as u32);
        proof {
            lemma2_to64();
            lemma2_to64_rest();
            if e < 31 {
                lemma_pow2_strictly_increases(e as nat, 31);
            }
            lemma_mul_upper_bound(m as int, pow2(53) as int, pow2(e as nat) as int, pow2(31) as int);
            lemma_pow2_adds(53, 31);
            lemma_pow2_strictly_increases(84, 127);
            lemma_pow2_u128_bound();
        }
        let p = (m as u128) * pw;
        if p > 0xffffffff {
            u32::MAX
        } else {
            p as u32
        }
    } else {
        let neg = -e;
        let k = neg as u64;
        if k >= 54 {
            proof {
                lemma2_to64();
                lemma2_to64_rest();
                if k > 54 {
                    lemma_pow2_strictly_increases(54, k as nat);
                }
                lemma_basic_div(m as int, pow2(k as nat) as int);
            }
            return 0;
        }
        let q = m >> k;
        proof {
            lemma_u64_shr_is_div(m, k);
        }
        if q > 0xffffffff {
            u32::MAX
        } else {
            q as u32
        }
    }
}

/// Reads a metadata number, scaled by `2^shift`, as a truncated `u32` —
/// the exact value of the saturating float-to-integer cast.
pub fn bits_to_u32_floor(b: u64, shift: i64) -> (r: u32)
    requires
        0 <= shift <= 16,
    ensures
        r == spec_f64_floor_u32(b, shift as int),
{
    let exp = (b / 0x10000000000000) % 0x800;
    let frac = b % 0x10000000000000;
    let sign = b / 0x8000000000000000 == 1;
    if exp == 0x7ff && frac != 0 {
        return 0;
    }
    if sign {
        return 0;
    }
    if exp == 0x7ff {
        return u32::MAX;
    }
    let m: u64 = if exp == 0 {
        frac
    } else {
        frac + 0x10000000000000
    };
    let e: i64 = if exp == 0 {
        -1074 + shift
    } else {
        (exp as i64) - 1075 + shift
    };
    mant_floor_u32(m, e)
}

/// Reads a metadata number of seconds as nanoseconds: `round(value * 10^9)`,
/// half up, saturated to `u64`; NaN and negative values give 0.
pub fn bits_to_ns(b: u64) -> (r: u64)
    ensures
        r == spec_f64_seconds_to_ns(b),
{
    let exp = (b / 0x10000000000000) % 0x800;
    let frac = b % 0x10000000000000;
    let sign = b / 0x8000000000000000 == 1;
    if exp == 0x7ff && frac != 0 {
        return 0;
    }
    if sign {
        return 0;
    }
    if exp == 0x7ff {
        return u64::MAX;
    }
    let m: u64 = if exp == 0 {
        frac
    } else {
        frac + 0x10000000000000
    };
    let e: i64 = if exp == 0 {
        -1074
    } else {
        (exp as i64) - 1075
    };
    let p: u128 = (m as u128) * 1000000000;
    proof {
        lemma2_to64();
        lemma2_to64_rest();
        // p < 2^83: the mantissa is under 2^53 and 10^9 is under 2^30.
        lemma_mul_inequality(m as int, pow2(53) as int - 1, 1000000000);
        lemma_mul_strict_inequality(pow2(53) as int - 1, pow2(53) as int, 1000000000);
        lemma_mul_left_inequality(pow2(53) as int, 1000000000, pow2(30) as int);
        lemma_pow2_adds(53, 30);
    }
    assert(p < pow2(83));
    if e >= 0 {
        if p == 0 {
            proof {
                assert(0int * pow2(e as nat) == 0);
            }
            return 0;
        }
        if e >= 35 {
            proof {
                lemma2_to64();
                lemma2_to64_rest();
                if e > 35 {
                    lemma_pow2_strictly_increases(35, e as nat);
                }
                // p >= 10^9 > 2^29, so p * 2^e >= 2^29 * 2^35 = 2^64 > u64::MAX.
                lemma_mul_inequality(1, m as int, 1000000000);
                lemma_mul_left_inequality(p as int, pow2(35) as int, pow2(e as nat) as int);
                lemma_mul_inequality(pow2(29) as int, p as int, pow2(35) as int);
                lemma_pow2_adds(29, 35);
            }
            return u64::MAX;
        }
        let pw = pow2_u128(e as u32);
        proof {
            if e < 34 {
                lemma_pow2_strictly_increases(e as nat, 34);
            }
            lemma_mul_upper_bound(p as int, pow2(83) as int, pow2(e as nat) as int, pow2(
                34,
            ) as int);
            lemma_pow2_adds(83, 34);
            lemma_pow2_strictly_increases(117, 127);
            lemma_pow2_u128_bound();
        }
        let q = p * pw;
        if q > 0xffffffffffffffff {
            u64::MAX
        } else {
            q as u64
        }
    } else {
        let neg = -e;
        let k = neg as u64;
        if k >= 84 {
            proof {
                // p < 2^83 <= 2^(k-1), so p + 2^(k-1) < 2^k and the rounded
                // quotient is zero.
                if k > 84 {
                    lemma_pow2_strictly_increases(83, (k - 1) as nat);
                }
                lemma_pow2_adds((k - 1) as nat, 1);
                lemma2_to64();
                lemma_pow2_pos((k - 1) as nat);
                lemma_basic_div((p + pow2((k - 1) as nat)) as int, pow2(k as nat) as int);
            }
            return 0;
        }
        let half = pow2_u128((k - 1) as u32);
        proof {
            if k - 1 < 83 {
                lemma_pow2_strictly_increases((k - 1) as nat, 83);
            }
            lemma_pow2_adds(83, 1);
            lemma_pow2_strictly_increases(84, 127);
            lemma_pow2_u128_bound();
        }
        let num = p + half;
        let q = num >> (k as u128);
        proof {
            lemma_u128_shr_is_div(num, k as u128);
        }
        if q > 0xffffffffffffffff {
            u64::MAX
        } else {
            q as u64
        }
    }
}

/// Runs the continued-fraction loop of [`cf_approx`].
fn cf_exec(num: u128, den: u128, h0: u128, k0: u128, h1: u128, k1: u128) -> (r: (u128, u128))
    requires
        den >= 1,
        h0 <= 0x7fffffff,
        k0 <= 0x7fffffff,
        h1 <= 0x7fffffff,
        k1 <= 0x7fffffff,
    ensures
        ({
            let q = cf_approx(num as int, den as int, h0 as int, k0 as int, h1 as int, k1 as int);
            r.0 as int == q.0 && r.1 as int == q.1 && r.0 <= 0x7fffffff && r.1 <= 0x7fffffff
        }),
    decreases den,
{
    let a = num / den;
    if a > 0x7fffffff {
        (h1, k1)
    } else {
        proof {
            assert(a * h1 + h0 < 0x8000000000000000 && a * k1 + k0 < 0x8000000000000000)
                by (nonlinear_arith)
                requires
                    a <= 0x7fffffff && h1 <= 0x7fffffff && h0 <= 0x7fffffff && k1 <= 0x7fffffff
                        && k0 <= 0x7fffffff,
            ;
        }
        let h2 = a * h1 + h0;
        let k2 = a * k1 + k0;
        if h2 > 0x7fffffff || k2 > 0x7fffffff {
            (h1, k1)
        } else {
            let r = num % den;
            if r == 0 {
                (h2, k2)
            } else {
                cf_exec(den, r, h1, k1, h2, k2)
            }
        }
    }
}

/// Reads a metadata number as a bounded fraction, for framerates: `None`
/// for NaN, infinities and negative values, otherwise the rational
/// approximation of [`spec_bits_to_fraction`].
pub fn bits_to_fraction(b: u64) -> (r: Option<(u32, u32)>)
    ensures
        r == spec_bits_to_fraction(b),
{
    let exp = (b / 0x10000000000000) % 0x800;
    let frac = b % 0x10000000000000;
    let sign = b / 0x8000000000000000 == 1;
    let m: u64 = if exp == 0 {
        frac
    } else {
        frac + 0x10000000000000
    };
    if exp == 0x7ff {
        return None;
    }
    if sign && m != 0 {
        return None;
    }
    if m == 0 {
        return Some((0, 1));
    }
    let e: i64 = if exp == 0 {
        -1074
    } else {
        (exp as i64) - 1075
    };
    if e >= 0 {
        if e >= 31 {
            proof {
                lemma2_to64();
                if e > 31 {
                    lemma_pow2_strictly_increases(31, e as nat);
                }
                lemma_mul_inequality(1, m as int, pow2(e as nat) as int);
            }
            return Some((0x7fffffff, 1));
        }
        let pw = pow2_u128(e as u32);
        proof {
            lemma2_to64();
            lemma2_to64_rest();
            if e < 31 {
                lemma_pow2_strictly_increases(e as nat, 31);
            }
            lemma_mul_upper_bound(m as int, pow2(53) as int, pow2(e as nat) as int, pow2(31) as int);
            lemma_pow2_adds(53, 31);
            lemma_pow2_strictly_increases(84, 127);
            lemma_pow2_u128_bound();
        }
        let p = (m as u128) * pw;
        if p > 0x7fffffff {
            Some((0x7fffffff, 1))
        } else {
            Some((p as u32, 1))
        }
    } else {
        let neg = -e;
        let k = neg as u64;
        if k > 100 {
            return Some((0, 1));
        }
        let den = pow2_u128(k as u32);
        proof {
            lemma_pow2_pos(k as nat);
        }
        let a0 = (m as u128) / den;
        if a0 > 0x7fffffff {
            return Some((0x7fffffff, 1));
        }
        let hk = cf_exec(m as u128, den, 0, 1, 1, 0);
        Some((hk.0 as u32, hk.1 as u32))
    }
}

} // verus!
