//! The density profile and its inner self-consistent solve.
//!
//! A [`DensityProfile`] owns the density field over the grid, an external
//! potential field, the bulk state it relaxes toward, the convolution
//! engine, and the closure rule applied once per iteration. Solving runs
//! the field iteration to self-consistency: each round asks the engine for
//! a bulk-density proposal, lets the specification adjust it, applies the
//! engine's update, and stops when the residual meets the tolerance.

use vstd::prelude::*;

use crate::axis::{dot_defined, dot_fixed, Axis};
use crate::bulk::BulkState;
use crate::capability::{BulkEos, ConvolutionEngine};
use crate::error::{MicelleError, Operation};
use crate::field::Field;
use crate::fixed::in_i64;
use crate::specification::MicelleSpecification;

verus! {

/// Caller-supplied overrides of an iteration budget and a tolerance; a
/// field left `None` falls back to the operation's default.
#[derive(Clone, Copy, Debug)]
pub struct SolverSettings {
    /// Largest number of iterations to spend.
    pub max_iter: Option<usize>,
    /// Convergence tolerance, in reduced units.
    pub tol: Option<i64>,
}

/// The iteration budget that a settings value resolves to.
pub open spec fn max_iter_of(settings: Option<SolverSettings>, fallback: usize) -> usize {
    match settings {
        Some(s) => match s.max_iter {
            Some(m) => m,
            None => fallback,
        },
        None => fallback,
    }
}

/// The iteration budget that a borrowed settings value resolves to.
pub open spec fn max_iter_ref(settings: Option<&SolverSettings>, fallback: usize) -> usize {
    match settings {
        Some(s) => match s.max_iter {
            Some(m) => m,
            None => fallback,
        },
        None => fallback,
    }
}

/// The tolerance that a settings value resolves to.
pub open spec fn tol_of(settings: Option<SolverSettings>, fallback: i64) -> i64 {
    match settings {
        Some(s) => match s.tol {
            Some(t) => t,
            None => fallback,
        },
        None => fallback,
    }
}

/// Default iteration budget of the inner field iteration.
pub const DEFAULT_MAX_ITER_FIELD: usize = 500;

/// Default residual tolerance of the inner field iteration.
pub const DEFAULT_TOL_FIELD: i64 = 1;

/// A density profile over a radial grid, with its bulk reference, its
/// external potential, its convolution engine and its closure rule.
pub struct DensityProfile<F, C> {
    /// The bulk equation-of-state capability.
    pub eos: F,
    /// The convolution engine planned for this grid and temperature.
    pub convolver: C,
    /// The radial grid.
    pub axis: Axis,
    /// The bulk state far from the micelle, owned by this profile and
    /// replaced wholesale when the composition changes.
    pub bulk: BulkState,
    /// The density field, mutable during solving.
    pub density: Field,
    /// The external potential field.
    pub external_potential: Field,
    /// The closure rule applied once per iteration.
    pub specification: MicelleSpecification,
}

impl<C: ConvolutionEngine, F: BulkEos<C>> DensityProfile<F, C> {
    /// Shapes agree: one row per component over the grid's points, for both
    /// fields, and a bulk entry per component.
    pub open spec fn wf(self) -> bool {
        &&& self.axis.wf()
        &&& self.density.wf()
        &&& self.external_potential.wf()
        &&& self.density.components >= 1
        &&& self.density.points == self.axis.point_count
        &&& self.external_potential.same_shape(self.density)
        &&& self.bulk.wf(self.density.components as nat)
    }

    /// The density of component `i` along the grid.
    pub open spec fn row_seq(self, i: int) -> Seq<i64> {
        Seq::new(self.density.points as nat, |k: int| self.density.at(i, k))
    }

    /// The total particle count of component `i`: its density integrated
    /// over the grid.
    pub open spec fn moles_value(self, i: int) -> int {
        dot_fixed(self.row_seq(i), self.axis.weights@)
    }

    /// Every component's integral is defined and representable.
    pub open spec fn moles_defined(self) -> bool {
        forall|i: int|
            0 <= i < self.density.components ==> dot_defined(
                #[trigger] self.row_seq(i),
                self.axis.weights@,
            ) && in_i64(dot_fixed(self.row_seq(i), self.axis.weights@))
    }

    /// Copies the density of component `i` along the grid.
    pub fn row(&self, i: usize) -> (r: Vec<i64>)
        requires
            self.wf(),
            i < self.density.components,
        ensures
            r@ == self.row_seq(i as int),
    {
        let points: usize = self.density.points;
        let mut r: Vec<i64> = Vec::new();
        let mut k: usize = 0;
        while k < points
            invariant
                k <= points,
                self.wf(),
                i < self.density.components,
                points == self.density.points,
                r@.len() == k,
                forall|q: int| 0 <= q < k ==> r@[q] == self.density.at(i as int, q),
            decreases points - k,
        {
            let v: i64 = self.density.get(i, k);
            r.push(v);
            k = k + 1;
        }
        proof {
            assert(r@ =~= self.row_seq(i as int));
        }
        r
    }

    /// The total particle count of each component. A component whose
    /// integral is beyond the fixed-point range is a numerical-reduction
    /// error.
    pub fn moles(&self) -> (r: Result<Vec<i64>, MicelleError>)
        requires
            self.wf(),
        ensures
            self.moles_defined() <==> r is Ok,
            r matches Ok(v) ==> {
                &&& v@.len() == self.density.components
                &&& forall|i: int|
                    0 <= i < self.density.components ==> v@[i] == self.moles_value(i) as i64
            },
            r is Err ==> r == Err::<Vec<i64>, MicelleError>(MicelleError::NumericalReduction),
    {
        let components: usize = self.density.components;
        let mut v: Vec<i64> = Vec::new();
        let mut i: usize = 0;
        while i < components
            invariant
                i <= components,
                self.wf(),
                components == self.density.components,
                v@.len() == i,
                forall|q: int| 0 <= q < i ==> v@[q] == self.moles_value(q) as i64,
                forall|q: int|
                    0 <= q < i ==> dot_defined(#[trigger] self.row_seq(q), self.axis.weights@)
                        && in_i64(dot_fixed(self.row_seq(q), self.axis.weights@)),
            decreases components - i,
        {
            let row: Vec<i64> = self.row(i);
            let m: i64 = match self.axis.integrate(&row) {
                Ok(m) => m,
                Err(e) => {
                    return Err(e);
                },
            };
            v.push(m);
            i = i + 1;
        }
        Ok(v)
    }

    /// Runs the field iteration to self-consistency: proposal, closure
    /// adjustment, update, until the residual meets the tolerance, at most
    /// `max_iter` rounds. `debug` requests residual diagnostics from the
    /// engine and does not alter the numerics. On exhaustion the iteration
    /// fails as not converged, naming itself.
    pub fn solve(&mut self, solver: Option<&SolverSettings>, debug: bool) -> (r: Result<
        (),
        MicelleError,
    >)
        requires
            old(self).wf(),
            old(self).specification is Size ==> old(self).density.components == 2,
        ensures
            final(self).wf(),
            final(self).eos == old(self).eos,
            final(self).convolver == old(self).convolver,
            final(self).axis == old(self).axis,
            final(self).bulk == old(self).bulk,
            final(self).external_potential == old(self).external_potential,
            final(self).specification == old(self).specification,
            final(self).density.same_shape(old(self).density),
            r is Ok ==> forall|i: int, k: int|
                0 <= i < final(self).density.components && 0 <= k < final(self).density.points
                    ==> final(self).density.at(i, k) >= 0,
            max_iter_ref(solver, DEFAULT_MAX_ITER_FIELD) == 0 ==> r == Err::<(), MicelleError>(
                MicelleError::NotConverged(Operation::ProfileSolve),
            ),
    {
        let max_iter: usize = match solver {
            Some(s) => match s.max_iter {
                Some(m) => m,
                None => DEFAULT_MAX_ITER_FIELD,
            },
            None => DEFAULT_MAX_ITER_FIELD,
        };
        let tol: i64 = match solver {
            Some(s) => match s.tol {
                Some(t) => t,
                None => DEFAULT_TOL_FIELD,
            },
            None => DEFAULT_TOL_FIELD,
        };
        let mut it: usize = 0;
        while it < max_iter
            invariant
                it <= max_iter,
                max_iter == max_iter_ref(solver, DEFAULT_MAX_ITER_FIELD),
                self.wf(),
                self.specification is Size ==> self.density.components == 2,
                self.eos == old(self).eos,
                self.convolver == old(self).convolver,
                self.axis == old(self).axis,
                self.bulk == old(self).bulk,
                self.external_potential == old(self).external_potential,
                self.specification == old(self).specification,
                self.density.same_shape(old(self).density),
            decreases max_iter - it,
        {
            let prop = match self.convolver.propose(
                self.bulk.temperature,
                &self.axis,
                &self.external_potential,
                &self.density,
                &self.bulk,
            ) {
                Ok(p) => p,
                Err(e) => {
                    return Err(e);
                },
            };
            let adjusted = match self.specification.calculate_bulk_density::<C, F>(
                &self.eos,
                self.bulk.temperature,
                self.axis.volume,
                &prop.bulk_density,
                &prop.z,
            ) {
                Ok(a) => a,
                Err(e) => {
                    return Err(e);
                },
            };
            let upd = match self.convolver.update(
                self.bulk.temperature,
                &self.axis,
                &self.external_potential,
                &self.density,
                &adjusted,
                debug,
            ) {
                Ok(u) => u,
                Err(e) => {
                    return Err(e);
                },
            };
            self.density = upd.density;
            if upd.residual < tol {
                return Ok(());
            }
            it = it + 1;
        }
        Err(MicelleError::NotConverged(Operation::ProfileSolve))
    }
}

} // verus!
