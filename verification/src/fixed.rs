//! Fixed-point arithmetic over reduced units.
//!
//! Every physical quantity of the solver is a dimensionless reduced value,
//! held as an `i64` multiple of `1 / SCALE`. Products and quotients are
//! computed in 128-bit intermediates and truncated toward zero; a result that
//! falls outside the representable range, or a division by zero, is a
//! numerical-reduction error and never a panic.

use vstd::prelude::*;

use crate::error::MicelleError;

verus! {

/// Number of counts that stand for one unit: the quantity `x` is represented
/// by the integer `x * SCALE`, truncated.
pub const SCALE: i64 = 1_000_000;

/// Whether a mathematical integer fits into an `i64`.
pub open spec fn in_i64(x: int) -> bool {
    i64::MIN <= x <= i64::MAX
}

/// Integer division truncated toward zero (the rounding of the solver),
/// defined for `d != 0`.
pub open spec fn div_trunc(x: int, d: int) -> int {
    if x == 0 {
        0
    } else if x > 0 && d > 0 {
        x / d
    } else if x < 0 && d < 0 {
        (x * -1) / (d * -1)
    } else if x < 0 {
        ((x * -1) / d) * -1
    } else {
        (x / (d * -1)) * -1
    }
}

/// The mathematical value of the fixed-point product of `a` and `b`.
pub open spec fn mul_value(a: int, b: int) -> int {
    div_trunc(a * b, SCALE as int)
}

/// Whether the fixed-point product of `a` and `b` is representable.
pub open spec fn mul_defined(a: int, b: int) -> bool {
    in_i64(mul_value(a, b))
}

/// The mathematical value of the fixed-point quotient of `a` by `b`.
pub open spec fn div_value(a: int, b: int) -> int {
    div_trunc(a * (SCALE as int), b)
}

/// Whether the fixed-point quotient of `a` by `b` is defined and
/// representable.
pub open spec fn div_defined(a: int, b: int) -> bool {
    b != 0 && in_i64(div_value(a, b))
}

/// Narrows a 128-bit intermediate to `i64`; out of range is a
/// numerical-reduction error.
pub fn narrow(q: i128) -> (r: Result<i64, MicelleError>)
    ensures
        in_i64(q as int) ==> r == Ok::<i64, MicelleError>(q as i64),
        !in_i64(q as int) ==> r == Err::<i64, MicelleError>(MicelleError::NumericalReduction),
{
    if i64::MIN as i128 <= q && q <= i64::MAX as i128 {
        Ok(q as i64)
    } else {
        Err(MicelleError::NumericalReduction)
    }
}

/// Truncating division of 128-bit intermediates, total over `d != 0` for the
/// magnitudes the solver produces.
fn div_trunc_i128(x: i128, d: i128) -> (q: i128)
    requires
        d != 0,
        -0x4000_0000_0000_0000_0000_0000_0000_0000 <= x
            <= 0x4000_0000_0000_0000_0000_0000_0000_0000,
        -0x4000_0000_0000_0000_0000_0000_0000_0000 <= d
            <= 0x4000_0000_0000_0000_0000_0000_0000_0000,
    ensures
        q == div_trunc(x as int, d as int),
{
    let r = x.checked_div(d);
    proof {
        assert(div_trunc(x as int, d as int) == (if x == 0 {
            0int
        } else if x > 0 && d > 0 {
            (x as int) / (d as int)
        } else if x < 0 && d < 0 {
            ((x as int) * -1) / ((d as int) * -1)
        } else if x < 0 {
            (((x as int) * -1) / (d as int)) * -1
        } else {
            ((x as int) / ((d as int) * -1)) * -1
        }));
        if x != 0 {
            lemma_div_trunc_in_range(x as int, d as int);
        }
    }
    match r {
        Some(q) => q,
        None => 0,
    }
}

/// The magnitude of a truncating quotient never exceeds the magnitude of the
/// dividend.
proof fn lemma_div_trunc_in_range(x: int, d: int)
    requires
        d != 0,
        x != 0,
    ensures
        x > 0 ==> -x <= div_trunc(x, d) <= x,
        x < 0 ==> x <= div_trunc(x, d) <= -x,
{
    let ax = if x > 0 { x } else { -x };
    let ad = if d > 0 { d } else { -d };
    vstd::arithmetic::div_mod::lemma_div_nonincreasing(ax, ad);
    vstd::arithmetic::div_mod::lemma_div_pos_is_pos(ax, ad);
    assert(0 <= ax / ad <= ax);
}

/// A product of values bounded in magnitude by `m` is bounded by `m * m`.
pub proof fn lemma_product_bound(a: int, b: int, m: int)
    requires
        -m <= a <= m,
        -m <= b <= m,
        0 <= m,
    ensures
        -(m * m) <= a * b <= m * m,
{
    assert(-(m * m) <= a * b <= m * m) by (nonlinear_arith)
        requires
            -m <= a <= m,
            -m <= b <= m,
            0 <= m,
    ;
}

/// Truncating division of an `i64` by a positive divisor, as in splitting a
/// width into grid cells.
pub fn div_plain(a: i64, b: i64) -> (r: i64)
    requires
        b >= 1,
    ensures
        r == div_trunc(a as int, b as int),
{
    let q = div_trunc_i128(a as i128, b as i128);
    proof {
        if a != 0 {
            lemma_div_trunc_in_range(a as int, b as int);
        }
    }
    q as i64
}

/// The fixed-point product `a * b / SCALE`, truncated toward zero; a result
/// out of range is a numerical-reduction error.
pub fn mul_fixed(a: i64, b: i64) -> (r: Result<i64, MicelleError>)
    ensures
        mul_defined(a as int, b as int) ==> r == Ok::<i64, MicelleError>(
            mul_value(a as int, b as int) as i64,
        ),
        !mul_defined(a as int, b as int) ==> r == Err::<i64, MicelleError>(
            MicelleError::NumericalReduction,
        ),
{
    proof {
        lemma_product_bound(a as int, b as int, 0x8000_0000_0000_0000);
    }
    let p: i128 = (a as i128) * (b as i128);
    let q = div_trunc_i128(p, SCALE as i128);
    narrow(q)
}

/// The fixed-point quotient `a * SCALE / b`, truncated toward zero; a zero
/// divisor or a result out of range is a numerical-reduction error.
pub fn div_fixed(a: i64, b: i64) -> (r: Result<i64, MicelleError>)
    ensures
        div_defined(a as int, b as int) ==> r == Ok::<i64, MicelleError>(
            div_value(a as int, b as int) as i64,
        ),
        !div_defined(a as int, b as int) ==> r == Err::<i64, MicelleError>(
            MicelleError::NumericalReduction,
        ),
{
    if b == 0 {
        return Err(MicelleError::NumericalReduction);
    }
    proof {
        lemma_product_bound(a as int, SCALE as int, 0x8000_0000_0000_0000);
    }
    let p: i128 = (a as i128) * (SCALE as i128);
    let q = div_trunc_i128(p, b as i128);
    narrow(q)
}

} // verus!
