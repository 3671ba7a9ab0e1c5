//! The Gaussian seed of the external potential, in fixed point.
//!
//! The bell `peak * exp(-r^2 / (2 width^2))` nucleates a micelle on the
//! surfactant component. The exponential is evaluated in fixed point: the
//! integer part through powers of `exp(-1)`, the fractional part through a
//! short alternating series; the same closed formulas stand in the
//! contracts.

use vstd::prelude::*;

use crate::error::MicelleError;
use crate::fixed::{
    div_defined, div_fixed, div_trunc, div_value, in_i64, mul_defined, mul_fixed, mul_value,
    narrow, SCALE,
};

verus! {

/// `exp(-1)` in fixed-point reduced units.
pub const EXP_NEG_ONE_FIXED: i64 = 367_879;

/// Powers of `exp(-1)` by repeated fixed-point multiplication.
pub open spec fn pow_exp_neg(n: nat) -> int
    decreases n,
{
    if n == 0 {
        SCALE as int
    } else {
        mul_value(pow_exp_neg((n - 1) as nat), EXP_NEG_ONE_FIXED as int)
    }
}

/// The alternating series for `exp(-f)` on a fractional argument.
pub open spec fn taylor_exp_neg(f: int) -> int {
    SCALE - f + div_trunc(mul_value(f, f), 2) - div_trunc(mul_value(mul_value(f, f), f), 6)
}

/// The fixed-point exponential `exp(-y)` for a nonnegative argument:
/// zero beyond the underflow horizon, otherwise the power of `exp(-1)` at
/// the integer part times the series at the fractional part.
pub open spec fn exp_neg_value(y: int) -> int {
    let n = div_trunc(y, SCALE as int);
    let f = y - n * (SCALE as int);
    if n >= 14 {
        0
    } else {
        mul_value(pow_exp_neg(n as nat), taylor_exp_neg(f))
    }
}

/// Scaling a nonnegative fixed-point factor bounded by one never grows the
/// magnitude of the other factor.
pub proof fn lemma_scale_bound(a: int, e: int)
    requires
        0 <= e <= SCALE,
    ensures
        a >= 0 ==> 0 <= mul_value(a, e) <= a,
        a < 0 ==> a <= mul_value(a, e) <= 0,
{
    let s = SCALE as int;
    if a >= 0 {
        assert(0 <= a * e <= a * s) by (nonlinear_arith)
            requires
                0 <= e <= s,
                0 <= a,
        ;
        if a * e == 0 {
            assert(mul_value(a, e) == 0);
        } else {
            vstd::arithmetic::div_mod::lemma_div_pos_is_pos(a * e, s);
            vstd::arithmetic::div_mod::lemma_div_is_ordered(a * e, a * s, s);
            vstd::arithmetic::div_mod::lemma_div_by_multiple(a, s);
        }
    } else {
        let na = -a;
        assert(0 <= na * e <= na * s) by (nonlinear_arith)
            requires
                0 <= e <= s,
                0 <= na,
        ;
        assert(a * e == -(na * e)) by (nonlinear_arith)
            requires
                na == -a,
        ;
        if na * e == 0 {
            assert(mul_value(a, e) == 0);
        } else {
            vstd::arithmetic::div_mod::lemma_div_pos_is_pos(na * e, s);
            vstd::arithmetic::div_mod::lemma_div_is_ordered(na * e, na * s, s);
            vstd::arithmetic::div_mod::lemma_div_by_multiple(na, s);
            assert(mul_value(a, e) == ((na * e) / s) * -1);
        }
    }
}

/// The fixed-point exponential of a nonnegative argument, between zero and
/// one.
pub fn exp_neg(y: i64) -> (r: i64)
    requires
        y >= 0,
    ensures
        r == exp_neg_value(y as int),
        0 <= r <= SCALE,
{
    let s = SCALE;
    let n: i64 = crate::fixed::div_plain(y, s);
    proof {
        let yi = y as int;
        let si = s as int;
        vstd::arithmetic::div_mod::lemma_fundamental_div_mod(yi, si);
        vstd::arithmetic::div_mod::lemma_div_pos_is_pos(yi, si);
        vstd::arithmetic::div_mod::lemma_mod_bound(yi, si);
        vstd::arithmetic::div_mod::lemma_div_is_ordered(0, yi, si);
        assert(div_trunc(yi, si) == yi / si);
        assert(si * (yi / si) == (yi / si) * si) by (nonlinear_arith);
    }
    let f: i64 = y - n * s;
    if n >= 14 {
        return 0;
    }
    let mut p: i64 = s;
    let mut j: i64 = 0;
    while j < n
        invariant
            0 <= j <= n || (n <= 0 && j == 0),
            n <= 13,
            p == pow_exp_neg(j as nat),
            0 <= p <= SCALE,
        decreases n - j,
    {
        proof {
            lemma_scale_bound(p as int, EXP_NEG_ONE_FIXED as int);
        }
        p = match mul_fixed(p, EXP_NEG_ONE_FIXED) {
            Ok(v) => v,
            Err(_) => unreached(),
        };
        j = j + 1;
    }
    proof {
        lemma_scale_bound(f as int, f as int);
    }
    let m2: i64 = match mul_fixed(f, f) {
        Ok(v) => v,
        Err(_) => unreached(),
    };
    let t2: i64 = crate::fixed::div_plain(m2, 2);
    proof {
        lemma_scale_bound(m2 as int, f as int);
    }
    let m3: i64 = match mul_fixed(m2, f) {
        Ok(v) => v,
        Err(_) => unreached(),
    };
    let t3: i64 = crate::fixed::div_plain(m3, 6);
    proof {
        let m2i = m2 as int;
        let m3i = m3 as int;
        if m2i > 0 {
            vstd::arithmetic::div_mod::lemma_div_pos_is_pos(m2i, 2);
            vstd::arithmetic::div_mod::lemma_div_is_ordered(0, m2i, 2);
            vstd::arithmetic::div_mod::lemma_div_is_ordered_by_denominator(m2i, 1, 2);
        }
        if m3i > 0 {
            vstd::arithmetic::div_mod::lemma_div_pos_is_pos(m3i, 6);
            vstd::arithmetic::div_mod::lemma_div_is_ordered(m3i, m2i, 6);
            vstd::arithmetic::div_mod::lemma_div_is_ordered_by_denominator(m2i, 2, 6);
        }
    }
    let t: i64 = s - f + t2 - t3;
    proof {
        lemma_scale_bound(p as int, t as int);
    }
    let r: i64 = match mul_fixed(p, t) {
        Ok(v) => v,
        Err(_) => unreached(),
    };
    r
}

/// Every reduction of the Gaussian bell at radius `r` is defined: the
/// squared radius over twice the squared width is a representable,
/// nonnegative exponent.
pub open spec fn gaussian_defined(peak: int, width: int, r: int) -> bool {
    &&& mul_defined(r, r)
    &&& mul_defined(width, width)
    &&& in_i64(2 * mul_value(width, width))
    &&& div_defined(mul_value(r, r), 2 * mul_value(width, width))
    &&& div_value(mul_value(r, r), 2 * mul_value(width, width)) >= 0
}

/// The value of the Gaussian bell at radius `r`.
pub open spec fn gaussian_value(peak: int, width: int, r: int) -> int {
    mul_value(peak, exp_neg_value(div_value(mul_value(r, r), 2 * mul_value(width, width))))
}

/// Evaluates the Gaussian bell at radius `r`. An undefined reduction — a
/// zero width, or a value beyond the fixed-point range — is a
/// numerical-reduction error.
pub fn gaussian(peak: i64, width: i64, r: i64) -> (res: Result<i64, MicelleError>)
    ensures
        gaussian_defined(peak as int, width as int, r as int) <==> res is Ok,
        res matches Ok(v) ==> v == gaussian_value(peak as int, width as int, r as int) as i64,
        res is Err ==> res == Err::<i64, MicelleError>(MicelleError::NumericalReduction),
{
    let r2: i64 = mul_fixed(r, r)?;
    let w2: i64 = mul_fixed(width, width)?;
    let denom: i64 = narrow(2 * (w2 as i128))?;
    let y: i64 = div_fixed(r2, denom)?;
    if y < 0 {
        return Err(MicelleError::NumericalReduction);
    }
    let e: i64 = exp_neg(y);
    proof {
        lemma_scale_bound(peak as int, e as int);
    }
    let v: i64 = match mul_fixed(peak, e) {
        Ok(v) => v,
        Err(_) => unreached(),
    };
    Ok(v)
}

} // verus!
