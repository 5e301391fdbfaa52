//! Exact conversion of decimal numbers to amounts counted in ten-thousandths.
use rust_decimal::Decimal;
use vstd::arithmetic::div_mod::{
    lemma_fundamental_div_mod, lemma_fundamental_div_mod_converse, lemma_small_mod,
};
use vstd::prelude::*;

verus! {

#[verifier::external_type_specification]
#[verifier::external_body]
pub struct ExDecimal(Decimal);

/// Relies on rust_decimal's `Decimal::mantissa`: the signed integer
/// coefficient of the value (nothing more is assumed of it).
pub assume_specification[ Decimal::mantissa ](d: &Decimal) -> i128;

/// Relies on rust_decimal's `Decimal::scale`: the power of ten the mantissa
/// is divided by (nothing more is assumed of it).
pub assume_specification[ Decimal::scale ](d: &Decimal) -> u32;

pub open spec fn pow10(n: nat) -> nat
    decreases n,
{
    if n == 0 {
        1
    } else {
        10 * pow10((n - 1) as nat)
    }
}

/// The value `mantissa / 10^scale` counted in ten-thousandths, where that
/// is a whole number.
pub open spec fn units_of(mantissa: int, scale: nat) -> Option<int> {
    if scale <= 4 {
        Some(mantissa * pow10((4 - scale) as nat))
    } else {
        let p = pow10((scale - 4) as nat);
        if mantissa % (p as int) == 0 {
            Some(mantissa / (p as int))
        } else {
            None
        }
    }
}

/// `units_of`, kept only where it fits an `i128`.
pub open spec fn units_in_range(mantissa: int, scale: nat) -> Option<i128> {
    match units_of(mantissa, scale) {
        Some(v) => if i128::MIN <= v <= i128::MAX {
            Some(v as i128)
        } else {
            None
        },
        None => None,
    }
}

proof fn lemma_pow10_positive(n: nat)
    ensures
        pow10(n) >= 1,
    decreases n,
{
    if n > 0 {
        lemma_pow10_positive((n - 1) as nat);
    }
}

proof fn lemma_pow10_grows(a: nat, b: nat)
    requires
        a <= b,
    ensures
        pow10(a) <= pow10(b),
    decreases b - a,
{
    if a < b {
        lemma_pow10_grows(a, (b - 1) as nat);
        lemma_pow10_positive((b - 1) as nat);
    }
}

/// The amount in ten-thousandths of the decimal `mantissa / 10^scale`:
/// `None` when it has more than four fractional digits or does not fit.
pub fn units_from_parts(mantissa: i128, scale: u32) -> (r: Option<i128>)
    ensures
        r == units_in_range(mantissa as int, scale as nat),
{
    if scale <= 4 {
        let mut f: i128 = 1;
        let mut i: u32 = 0;
        while i < 4 - scale
            invariant
                scale <= 4,
                i <= 4 - scale,
                f == pow10(i as nat),
                f <= 10000,
            decreases 4 - scale - i,
        {
            proof {
                lemma_pow10_grows((i + 1) as nat, 4);
                reveal_with_fuel(pow10, 5);
                assert(pow10(4) == 10000);
            }
            f = f * 10;
            i = i + 1;
        }
        return mantissa.checked_mul(f);
    }
    let n: u32 = scale - 4;
    let mut d: u128 = 1;
    let mut i: u32 = 0;
    let magnitude: u128 = if mantissa >= 0 {
        mantissa as u128
    } else {
        (-(mantissa + 1)) as u128 + 1
    };
    while i < n
        invariant
            4 < scale,
            n == scale - 4,
            i <= n,
            d == pow10(i as nat),
            magnitude as int == (if mantissa >= 0 {
                mantissa as int
            } else {
                -(mantissa as int)
            }),
        decreases n - i,
    {
        match d.checked_mul(10) {
            Some(d2) => {
                d = d2;
                i = i + 1;
            },
            None => {
                proof {
                    assert(pow10((i + 1) as nat) == 10 * pow10(i as nat));
                    assert(pow10((i + 1) as nat) > u128::MAX);
                    lemma_pow10_grows((i + 1) as nat, n as nat);
                    let p = pow10(n as nat) as int;
                    let m = mantissa as int;
                    if m > 0 {
                        lemma_small_mod(m as nat, p as nat);
                    } else if m < 0 {
                        lemma_fundamental_div_mod_converse(m, p, -1, p + m);
                    } else {
                        lemma_fundamental_div_mod_converse(0, p, 0, 0);
                    }
                }
                return if mantissa == 0 {
                    Some(0)
                } else {
                    None
                };
            },
        }
    }
    proof {
        lemma_pow10_positive(n as nat);
    }
    if magnitude % d != 0 {
        proof {
            let p = d as int;
            let m = mantissa as int;
            if m < 0 && m % p == 0 {
                let q = m / p;
                lemma_fundamental_div_mod(m, p);
                assert(-m == (-q) * p + 0) by (nonlinear_arith)
                    requires
                        m == p * q + 0,
                ;
                lemma_fundamental_div_mod_converse(-m, p, -q, 0);
            }
        }
        return None;
    }
    let q: u128 = magnitude / d;
    proof {
        let p = d as int;
        let m = mantissa as int;
        lemma_fundamental_div_mod(magnitude as int, p);
        assert(magnitude as int == p * (q as int) + 0);
        if m >= 0 {
            assert(m == (q as int) * p + 0) by (nonlinear_arith)
                requires
                    m == p * (q as int),
            ;
            lemma_fundamental_div_mod_converse(m, p, q as int, 0);
        } else {
            assert(m == (-(q as int)) * p + 0) by (nonlinear_arith)
                requires
                    magnitude as int == -m,
                    magnitude as int == p * (q as int),
            ;
            lemma_fundamental_div_mod_converse(m, p, -(q as int), 0);
        }
        lemma_pow10_grows(1, n as nat);
        assert(pow10(1) == 10);
        assert(q * 10 <= magnitude) by (nonlinear_arith)
            requires
                magnitude as int == p * (q as int),
                p >= 10,
                q >= 0,
        ;
    }
    if mantissa >= 0 {
        Some(q as i128)
    } else {
        Some(-(q as i128))
    }
}

/// The amount in ten-thousandths of `d`: `units_from_parts` applied to its
/// mantissa and scale.
pub fn units_from_decimal(d: &Decimal) -> Option<i128> {
    let m = d.mantissa();
    let s = d.scale();
    units_from_parts(m, s)
}

} // verus!
