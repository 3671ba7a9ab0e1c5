//! The one-dimensional radial grid and its volume elements.
//!
//! An [`Axis`] discretizes a radial domain of a given physical width into
//! cells of equal step. Each cell carries the volume of its own shell —
//! spherical shells for a spherical grid, rings per unit length for a
//! cylindrical one — so that integration over the grid respects the
//! geometry's volume element.

use vstd::prelude::*;

use crate::error::MicelleError;
use crate::fixed::{
    div_plain, div_trunc, in_i64, lemma_product_bound, mul_defined, mul_fixed, mul_value, narrow,
};

verus! {

/// The symmetry of the radial grid.
#[derive(Clone, Copy, Debug, PartialEq, Eq, Structural)]
pub enum Geometry {
    /// Spherical shells around the origin.
    Spherical,
    /// Cylindrical rings per unit length of the cylinder.
    Cylindrical,
}

/// The circle constant in fixed-point reduced units.
pub const PI_FIXED: i64 = 3_141_592;

/// Four thirds of the circle constant in fixed-point reduced units.
pub const FOUR_THIRDS_PI_FIXED: i64 = 4_188_790;

/// Largest admissible number of grid points.
pub const MAX_POINTS: usize = 0xFFFF_FFFF;

/// The grid step: the width split evenly over the cells.
pub open spec fn grid_step(width: int, n: int) -> int {
    div_trunc(width, n)
}

/// The center of cell `k`.
pub open spec fn position_value(step: int, k: int) -> int {
    k * step + div_trunc(step, 2)
}

/// The geometric factor of cell `k`: the difference of consecutive integer
/// cubes for spherical shells, of consecutive integer squares for
/// cylindrical rings.
pub open spec fn shell_factor(geometry: Geometry, k: int) -> int {
    match geometry {
        Geometry::Spherical => 3 * (k * k) + 3 * k + 1,
        Geometry::Cylindrical => 2 * k + 1,
    }
}

/// Whether the geometry's base volume (of the innermost cell) is
/// representable, step by step of its computation.
pub open spec fn base_defined(geometry: Geometry, step: int) -> bool {
    match geometry {
        Geometry::Spherical => mul_defined(step, step) && mul_defined(mul_value(step, step), step)
            && mul_defined(FOUR_THIRDS_PI_FIXED as int, mul_value(mul_value(step, step), step)),
        Geometry::Cylindrical => mul_defined(step, step) && mul_defined(
            PI_FIXED as int,
            mul_value(step, step),
        ),
    }
}

/// The base volume of the innermost cell: `4/3 pi step^3` for a sphere,
/// `pi step^2` per unit length for a cylinder.
pub open spec fn base_value(geometry: Geometry, step: int) -> int {
    match geometry {
        Geometry::Spherical => mul_value(
            FOUR_THIRDS_PI_FIXED as int,
            mul_value(mul_value(step, step), step),
        ),
        Geometry::Cylindrical => mul_value(PI_FIXED as int, mul_value(step, step)),
    }
}

/// The volume of cell `k`.
pub open spec fn weight_value(geometry: Geometry, step: int, k: int) -> int {
    base_value(geometry, step) * shell_factor(geometry, k)
}

/// The sum of a sequence of values.
pub open spec fn sum_of(s: Seq<i64>) -> int
    decreases s.len(),
{
    if s.len() == 0 {
        0
    } else {
        sum_of(s.drop_last()) + s.last()
    }
}

/// Appending a value adds it to the sum.
pub proof fn lemma_sum_push(s: Seq<i64>, x: i64)
    ensures
        sum_of(s.push(x)) == sum_of(s) + x,
{
    assert(s.push(x).drop_last() =~= s);
}

/// The fixed-point inner product of values with volume weights.
pub open spec fn dot_fixed(values: Seq<i64>, weights: Seq<i64>) -> int
    decreases values.len(),
{
    if values.len() == 0 {
        0
    } else {
        dot_fixed(values.drop_last(), weights.drop_last()) + mul_value(
            values.last() as int,
            weights.last() as int,
        )
    }
}

/// Every term of the fixed-point inner product is representable.
pub open spec fn dot_defined(values: Seq<i64>, weights: Seq<i64>) -> bool {
    forall|k: int| 0 <= k < values.len() ==> mul_defined(values[k] as int, weights[k] as int)
}

/// Extending both sequences by one pair extends the inner product by one
/// term.
pub proof fn lemma_dot_push(values: Seq<i64>, weights: Seq<i64>, v: i64, w: i64)
    ensures
        dot_fixed(values.push(v), weights.push(w)) == dot_fixed(values, weights) + mul_value(
            v as int,
            w as int,
        ),
{
    assert(values.push(v).drop_last() =~= values);
    assert(weights.push(w).drop_last() =~= weights);
}

/// An accumulator of at most `j` terms from `i64` stays within its linear
/// bound when one more term is added.
proof fn lemma_acc_step(acc: int, term: int, j: int)
    requires
        0 <= j,
        j * (i64::MIN as int) <= acc <= j * (i64::MAX as int),
        i64::MIN as int <= term <= i64::MAX as int,
    ensures
        (j + 1) * (i64::MIN as int) <= acc + term <= (j + 1) * (i64::MAX as int),
{
    assert((j + 1) * (i64::MIN as int) == j * (i64::MIN as int) + (i64::MIN as int))
        by (nonlinear_arith);
    assert((j + 1) * (i64::MAX as int) == j * (i64::MAX as int) + (i64::MAX as int))
        by (nonlinear_arith);
}

/// The linear accumulator bound over at most `cap` terms stays inside
/// `i128`.
proof fn lemma_acc_in_i128(acc: int, j: int, cap: int)
    requires
        0 <= j <= cap,
        cap <= usize::MAX,
        j * (i64::MIN as int) <= acc <= j * (i64::MAX as int),
    ensures
        i128::MIN as int <= acc <= i128::MAX as int,
{
    assert(j * (i64::MAX as int) <= cap * (i64::MAX as int)) by (nonlinear_arith)
        requires
            0 <= j <= cap,
    ;
    assert(cap * (i64::MIN as int) <= j * (i64::MIN as int)) by (nonlinear_arith)
        requires
            0 <= j <= cap,
    ;
    assert(cap * (i64::MAX as int) <= (usize::MAX as int) * (i64::MAX as int))
        by (nonlinear_arith)
        requires
            0 <= cap <= usize::MAX,
    ;
    assert((usize::MAX as int) * (i64::MIN as int) <= cap * (i64::MIN as int))
        by (nonlinear_arith)
        requires
            0 <= cap <= usize::MAX,
    ;
}

/// A one-dimensional radial grid. Immutable after construction.
pub struct Axis {
    /// The symmetry of the grid.
    pub geometry: Geometry,
    /// Number of grid cells.
    pub point_count: usize,
    /// Physical width of the domain, in reduced units.
    pub width: i64,
    /// Width of one cell.
    pub step: i64,
    /// Radial position of each cell center.
    pub positions: Vec<i64>,
    /// Volume of each cell, respecting the geometry.
    pub weights: Vec<i64>,
    /// Total volume of the domain: the sum of the cell volumes.
    pub volume: i64,
}

impl Axis {
    /// Shape and bookkeeping of a well-formed grid.
    pub open spec fn wf(self) -> bool {
        &&& 1 <= self.point_count <= MAX_POINTS
        &&& self.positions@.len() == self.point_count
        &&& self.weights@.len() == self.point_count
        &&& self.volume == sum_of(self.weights@)
    }

    /// The grid parameters admit a representable grid: the step, every cell
    /// center, every cell volume and the total volume fit the fixed-point
    /// range.
    pub open spec fn parameters_ok(geometry: Geometry, n: int, width: int) -> bool {
        &&& 1 <= n <= MAX_POINTS
        &&& width >= 1
        &&& base_defined(geometry, grid_step(width, n))
        &&& forall|k: int|
            0 <= k < n ==> in_i64(#[trigger] weight_value(geometry, grid_step(width, n), k))
        &&& forall|k: int|
            0 <= k < n ==> in_i64(#[trigger] position_value(grid_step(width, n), k))
        &&& in_i64(
            sum_of(
                Seq::new(
                    n as nat,
                    |k: int| weight_value(geometry, grid_step(width, n), k) as i64,
                ),
            ),
        )
    }

    /// Builds a grid of `n` cells over the given `width` with the given
    /// geometry. Parameters with no representable grid — a zero cell count,
    /// a nonpositive width, or cell volumes beyond the fixed-point range —
    /// are a numerical-reduction error.
    pub fn new(geometry: Geometry, n: usize, width: i64) -> (r: Result<Axis, MicelleError>)
        ensures
            Axis::parameters_ok(geometry, n as int, width as int) <==> r is Ok,
            r matches Ok(axis) ==> {
                &&& axis.wf()
                &&& axis.geometry == geometry
                &&& axis.point_count == n
                &&& axis.width == width
                &&& axis.step == grid_step(width as int, n as int)
                &&& forall|k: int|
                    0 <= k < n ==> axis.positions@[k] == position_value(axis.step as int, k)
                &&& forall|k: int|
                    0 <= k < n ==> axis.weights@[k] == weight_value(geometry, axis.step as int, k)
            },
            r is Err ==> r == Err::<Axis, MicelleError>(MicelleError::NumericalReduction),
    {
        if n == 0 || n > MAX_POINTS || width < 1 {
            return Err(MicelleError::NumericalReduction);
        }
        let step: i64 = div_plain(width, n as i64);
        let half: i64 = div_plain(step, 2);
        let base: i64 = match Self::base_volume(geometry, step) {
            Ok(b) => b,
            Err(e) => {
                return Err(e);
            },
        };
        let ghost step_i: int = step as int;
        let mut positions: Vec<i64> = Vec::new();
        let mut weights: Vec<i64> = Vec::new();
        let mut acc: i128 = 0;
        let mut k: usize = 0;
        while k < n
            invariant
                k <= n,
                1 <= n <= MAX_POINTS,
                positions@.len() == k,
                weights@.len() == k,
                step == grid_step(width as int, n as int),
                half == div_trunc(step_i, 2),
                step_i == step as int,
                base == base_value(geometry, step_i),
                base_defined(geometry, step_i),
                forall|q: int| 0 <= q < k ==> positions@[q] == position_value(step_i, q),
                forall|q: int| 0 <= q < k ==> weights@[q] == weight_value(geometry, step_i, q),
                forall|q: int| 0 <= q < k ==> in_i64(#[trigger] weight_value(geometry, step_i, q)),
                forall|q: int| 0 <= q < k ==> in_i64(#[trigger] position_value(step_i, q)),
                acc == sum_of(weights@),
                (k as int) * (i64::MIN as int) <= acc <= (k as int) * (i64::MAX as int),
            decreases n - k,
        {
            proof {
                lemma_product_bound(k as int, step as int, 0x8000_0000_0000_0000);
            }
            let pos128: i128 = (k as i128) * (step as i128) + (half as i128);
            let pos: i64 = match narrow(pos128) {
                Ok(p) => p,
                Err(e) => {
                    assert(!in_i64(position_value(step_i, k as int)));
                    return Err(e);
                },
            };
            let factor128: i128 = match geometry {
                Geometry::Spherical => {
                    let ki: i128 = k as i128;
                    proof {
                        lemma_product_bound(ki as int, ki as int, 0x1_0000_0000);
                        assert(ki * ki >= 0) by (nonlinear_arith)
                            requires
                                ki >= 0,
                        ;
                    }
                    let k2: i128 = ki * ki;
                    3 * k2 + 3 * ki + 1
                },
                Geometry::Cylindrical => 2 * (k as i128) + 1,
            };
            assert(factor128 == shell_factor(geometry, k as int));
            assert(factor128 >= 1);
            let w: i64 = if base == 0 {
                proof {
                    assert(base_value(geometry, step_i) * shell_factor(geometry, k as int)
                        == 0) by (nonlinear_arith)
                        requires
                            base_value(geometry, step_i) == 0,
                    ;
                }
                0
            } else {
                if factor128 > (i64::MAX as i128) + 1 {
                    proof {
                        lemma_factor_large(
                            base_value(geometry, step_i),
                            shell_factor(geometry, k as int),
                        );
                        assert(!in_i64(weight_value(geometry, step_i, k as int)));
                    }
                    return Err(MicelleError::NumericalReduction);
                }
                proof {
                    lemma_product_bound(base as int, factor128 as int, 0x8000_0000_0000_0000);
                }
                let p: i128 = (base as i128) * factor128;
                match narrow(p) {
                    Ok(w) => w,
                    Err(e) => {
                        assert(!in_i64(weight_value(geometry, step_i, k as int)));
                        return Err(e);
                    },
                }
            };
            proof {
                lemma_sum_push(weights@, w);
                lemma_acc_step(acc as int, w as int, k as int);
                lemma_acc_in_i128(acc as int + w as int, k as int + 1, n as int);
            }
            positions.push(pos);
            weights.push(w);
            acc = acc + (w as i128);
            k = k + 1;
        }
        let ghost formula: Seq<i64> = Seq::new(
            n as nat,
            |q: int| weight_value(geometry, step_i, q) as i64,
        );
        proof {
            assert(weights@ =~= formula);
        }
        let volume: i64 = match narrow(acc) {
            Ok(v) => v,
            Err(e) => {
                return Err(e);
            },
        };
        Ok(Axis { geometry, point_count: n, width, step, positions, weights, volume })
    }

    /// Builds a spherical grid (shells around the origin).
    pub fn new_spherical(n: usize, width: i64) -> (r: Result<Axis, MicelleError>)
        ensures
            Axis::parameters_ok(Geometry::Spherical, n as int, width as int) <==> r is Ok,
            r matches Ok(axis) ==> {
                &&& axis.wf()
                &&& axis.geometry == Geometry::Spherical
                &&& axis.point_count == n
                &&& axis.width == width
                &&& axis.step == grid_step(width as int, n as int)
                &&& forall|k: int|
                    0 <= k < n ==> axis.positions@[k] == position_value(axis.step as int, k)
                &&& forall|k: int|
                    0 <= k < n ==> axis.weights@[k] == weight_value(
                        Geometry::Spherical,
                        axis.step as int,
                        k,
                    )
            },
            r is Err ==> r == Err::<Axis, MicelleError>(MicelleError::NumericalReduction),
    {
        Axis::new(Geometry::Spherical, n, width)
    }

    /// Builds a cylindrical (polar) grid, per unit length of the cylinder.
    pub fn new_polar(n: usize, width: i64) -> (r: Result<Axis, MicelleError>)
        ensures
            Axis::parameters_ok(Geometry::Cylindrical, n as int, width as int) <==> r is Ok,
            r matches Ok(axis) ==> {
                &&& axis.wf()
                &&& axis.geometry == Geometry::Cylindrical
                &&& axis.point_count == n
                &&& axis.width == width
                &&& axis.step == grid_step(width as int, n as int)
                &&& forall|k: int|
                    0 <= k < n ==> axis.positions@[k] == position_value(axis.step as int, k)
                &&& forall|k: int|
                    0 <= k < n ==> axis.weights@[k] == weight_value(
                        Geometry::Cylindrical,
                        axis.step as int,
                        k,
                    )
            },
            r is Err ==> r == Err::<Axis, MicelleError>(MicelleError::NumericalReduction),
    {
        Axis::new(Geometry::Cylindrical, n, width)
    }

    /// The base volume of the innermost cell, by the geometry's formula.
    fn base_volume(geometry: Geometry, step: i64) -> (r: Result<i64, MicelleError>)
        ensures
            base_defined(geometry, step as int) <==> r is Ok,
            r matches Ok(b) ==> b == base_value(geometry, step as int),
            r is Err ==> r == Err::<i64, MicelleError>(MicelleError::NumericalReduction),
    {
        match geometry {
            Geometry::Spherical => {
                let c1 = mul_fixed(step, step)?;
                let c2 = mul_fixed(c1, step)?;
                let b = mul_fixed(FOUR_THIRDS_PI_FIXED, c2)?;
                Ok(b)
            },
            Geometry::Cylindrical => {
                let c1 = mul_fixed(step, step)?;
                let b = mul_fixed(PI_FIXED, c1)?;
                Ok(b)
            },
        }
    }

    /// The two grids hold the same geometry, shape and volumes.
    pub open spec fn identical(self, other: Axis) -> bool {
        &&& self.geometry == other.geometry
        &&& self.point_count == other.point_count
        &&& self.width == other.width
        &&& self.step == other.step
        &&& self.positions@ == other.positions@
        &&& self.weights@ == other.weights@
        &&& self.volume == other.volume
    }

    /// An independent deep copy of the grid.
    pub fn duplicate(&self) -> (r: Axis)
        ensures
            r.identical(*self),
    {
        Axis {
            geometry: self.geometry,
            point_count: self.point_count,
            width: self.width,
            step: self.step,
            positions: crate::bulk::copy_values(&self.positions),
            weights: crate::bulk::copy_values(&self.weights),
            volume: self.volume,
        }
    }

    /// Integrates a per-cell quantity over the grid: the fixed-point inner
    /// product with the cell volumes. A term or a total beyond the
    /// fixed-point range is a numerical-reduction error.
    pub fn integrate(&self, values: &Vec<i64>) -> (r: Result<i64, MicelleError>)
        requires
            self.wf(),
            values@.len() == self.point_count,
        ensures
            (dot_defined(values@, self.weights@) && in_i64(dot_fixed(values@, self.weights@)))
                <==> r is Ok,
            r matches Ok(v) ==> v == dot_fixed(values@, self.weights@),
            r is Err ==> r == Err::<i64, MicelleError>(MicelleError::NumericalReduction),
    {
        let n: usize = values.len();
        let mut acc: i128 = 0;
        let mut k: usize = 0;
        while k < n
            invariant
                k <= n,
                n == values@.len(),
                n == self.weights@.len(),
                acc == dot_fixed(values@.take(k as int), self.weights@.take(k as int)),
                forall|q: int|
                    0 <= q < k ==> mul_defined(values@[q] as int, self.weights@[q] as int),
                (k as int) * (i64::MIN as int) <= acc <= (k as int) * (i64::MAX as int),
            decreases n - k,
        {
            let term: i64 = match mul_fixed(values[k], self.weights[k]) {
                Ok(t) => t,
                Err(e) => {
                    assert(!dot_defined(values@, self.weights@));
                    return Err(e);
                },
            };
            proof {
                assert(values@.take(k as int).push(values@[k as int]) =~= values@.take(
                    k as int + 1,
                ));
                assert(self.weights@.take(k as int).push(self.weights@[k as int])
                    =~= self.weights@.take(k as int + 1));
                lemma_dot_push(
                    values@.take(k as int),
                    self.weights@.take(k as int),
                    values@[k as int],
                    self.weights@[k as int],
                );
                lemma_acc_step(acc as int, term as int, k as int);
                lemma_acc_in_i128(acc as int + term as int, k as int + 1, n as int);
            }
            acc = acc + (term as i128);
            k = k + 1;
        }
        proof {
            assert(values@.take(n as int) =~= values@);
            assert(self.weights@.take(n as int) =~= self.weights@);
        }
        narrow(acc)
    }
}

/// A nonzero base with a factor beyond the fixed-point range gives a cell
/// volume beyond that range.
proof fn lemma_factor_large(base: int, factor: int)
    requires
        base != 0,
        factor > i64::MAX + 1,
    ensures
        !in_i64(base * factor),
{
    if base >= 1 {
        assert(base * factor >= factor) by (nonlinear_arith)
            requires
                base >= 1,
                factor >= 0,
        ;
    } else {
        assert(base * factor <= -factor) by (nonlinear_arith)
            requires
                base <= -1,
                factor >= 0,
        ;
    }
}

} // verus!
