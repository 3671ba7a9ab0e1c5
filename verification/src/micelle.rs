//! The micelle profile: lifecycle, two-stage solve, post-processing, and
//! the critical micelle concentration search.

use vstd::prelude::*;

use crate::axis::{dot_defined, dot_fixed, grid_step, position_value, Axis, Geometry};
use crate::bulk::{copy_values, BulkState};
use crate::capability::{BulkEos, ConvolutionEngine};
use crate::error::{MicelleError, Operation};
use crate::field::Field;
use crate::fixed::{div_defined, div_fixed, div_value, in_i64, mul_defined, mul_fixed, mul_value, narrow, SCALE};
use crate::gauss::{gaussian, gaussian_defined, gaussian_value};
use crate::profile::{max_iter_of, max_iter_ref, tol_of, DensityProfile, SolverSettings, DEFAULT_MAX_ITER_FIELD};
use crate::specification::MicelleSpecification;

verus! {

/// Default iteration budget of the critical micelle search.
pub const MAX_ITER_MICELLE: usize = 50;

/// Default tolerance of the critical micelle search, in reduced units
/// (scaled by the temperature at the convergence check).
pub const TOL_MICELLE: i64 = 10;

/// How the candidate micelle is nucleated: by a Gaussian external potential
/// on the surfactant component, or by a directly supplied density field.
pub enum MicelleInitialization {
    /// Seed a Gaussian bump `peak * exp(-r^2 / (2 width^2))` on the
    /// surfactant component of the external potential.
    ExternalPotential(i64, i64),
    /// Seed the density field directly.
    Density(Field),
}

impl MicelleInitialization {
    /// The directly supplied density field, if this initialization carries
    /// one.
    pub fn density(&self) -> (r: Option<&Field>)
        ensures
            self is Density <==> r is Some,
            r matches Some(d) ==> (self matches MicelleInitialization::Density(f)
                && d.identical(*f)),
    {
        match self {
            MicelleInitialization::ExternalPotential(_, _) => None,
            MicelleInitialization::Density(density) => Some(density),
        }
    }
}

/// The per-cell integrand of the excess grand potential: the
/// grand-potential density of the solved profile plus the bulk pressure.
pub open spec fn omega_cells(gpd: Seq<i64>, pressure: int) -> Seq<i64> {
    Seq::new(gpd.len(), |k: int| (gpd[k] + pressure) as i64)
}

/// Every cell of the integrand is representable, and so are the terms and
/// the total of its integral over the grid.
pub open spec fn omega_defined(gpd: Seq<i64>, weights: Seq<i64>, pressure: int) -> bool {
    &&& forall|k: int| 0 <= k < gpd.len() ==> in_i64(#[trigger] gpd[k] + pressure)
    &&& dot_defined(omega_cells(gpd, pressure), weights)
    &&& in_i64(dot_fixed(omega_cells(gpd, pressure), weights))
}

/// The excess grand potential: the integrand integrated with the grid's
/// volume elements.
pub open spec fn omega_value(gpd: Seq<i64>, weights: Seq<i64>, pressure: int) -> int {
    dot_fixed(omega_cells(gpd, pressure), weights)
}

/// Adds the bulk pressure to the grand-potential density of every cell and
/// integrates over the grid: the excess grand potential of a solved
/// profile. A cell, a term or the total beyond the fixed-point range is a
/// numerical-reduction error.
pub fn excess_grand_potential(axis: &Axis, gpd: &Vec<i64>, pressure: i64) -> (r: Result<
    i64,
    MicelleError,
>)
    requires
        axis.wf(),
        gpd@.len() == axis.point_count,
    ensures
        omega_defined(gpd@, axis.weights@, pressure as int) <==> r is Ok,
        r matches Ok(v) ==> v == omega_value(gpd@, axis.weights@, pressure as int) as i64,
        r is Err ==> r == Err::<i64, MicelleError>(MicelleError::NumericalReduction),
{
    let points: usize = gpd.len();
    let mut shifted: Vec<i64> = Vec::new();
    let mut k: usize = 0;
    while k < points
        invariant
            k <= points,
            gpd@.len() == points,
            shifted@.len() == k,
            forall|q: int| 0 <= q < k ==> in_i64(#[trigger] gpd@[q] + pressure),
            forall|q: int| 0 <= q < k ==> shifted@[q] == (gpd@[q] + pressure) as i64,
        decreases points - k,
    {
        let s: i64 = match narrow((gpd[k] as i128) + (pressure as i128)) {
            Ok(s) => s,
            Err(e) => {
                assert(!omega_defined(gpd@, axis.weights@, pressure as int));
                return Err(e);
            },
        };
        shifted.push(s);
        k = k + 1;
    }
    proof {
        assert(shifted@ =~= omega_cells(gpd@, pressure as int));
    }
    axis.integrate(&shifted)
}

/// A micelle profile: a density profile together with the excess grand
/// potential and excess particle counts of its last solve. The two derived
/// quantities are `None` until a solve completes and are reset whenever the
/// specification is swapped.
pub struct MicelleProfile<F, C> {
    /// The underlying density profile.
    pub profile: DensityProfile<F, C>,
    /// Excess grand potential of the last solve.
    pub delta_omega: Option<i64>,
    /// Excess particle count per component of the last solve.
    pub delta_n: Option<Vec<i64>>,
}

impl<C: ConvolutionEngine, F: BulkEos<C>> MicelleProfile<F, C> {
    /// The profile is well-formed and the derived counts, when present,
    /// carry one entry per component.
    pub open spec fn wf(self) -> bool {
        &&& self.profile.wf()
        &&& (self.delta_n matches Some(v) ==> v@.len() == self.profile.density.components)
    }

    /// The excess particle count of component `i`: the profile's total
    /// moles minus the uniform bulk's share of the volume.
    pub open spec fn excess_value(p: DensityProfile<F, C>, i: int) -> int {
        p.moles_value(i) - mul_value(p.bulk.partial_density@[i] as int, p.axis.volume as int)
    }

    /// Every component's excess count is defined and representable.
    pub open spec fn excess_defined(p: DensityProfile<F, C>) -> bool {
        &&& p.moles_defined()
        &&& forall|i: int|
            0 <= i < p.density.components ==> mul_defined(
                #[trigger] p.bulk.partial_density@[i] as int,
                p.axis.volume as int,
            ) && in_i64(Self::excess_value(p, i))
    }

    /// The derived quantities hold of the profile: the excess particle
    /// count of each component is the algebraic excess over the uniform
    /// bulk.
    pub open spec fn post_processed(self) -> bool {
        &&& self.delta_omega is Some
        &&& (self.delta_n matches Some(v) && v@.len() == self.profile.density.components
            && Self::excess_defined(self.profile) && forall|i: int|
            0 <= i < self.profile.density.components ==> v@[i] == Self::excess_value(
                self.profile,
                i,
            ) as i64)
    }

    /// Recomputes the excess grand potential — the grand-potential density
    /// of the solved profile plus the bulk pressure, integrated over the
    /// grid — and the excess particle count of each component. On any
    /// failure the profile and both derived quantities are left untouched.
    fn post_process(&mut self) -> (r: Result<(), MicelleError>)
        requires
            old(self).profile.wf(),
        ensures
            final(self).profile == old(self).profile,
            r is Ok ==> final(self).post_processed(),
            r is Err ==> *final(self) == *old(self),
    {
        let t: i64 = self.profile.bulk.temperature;
        let pressure: i64 = self.profile.bulk.pressure;
        let gpd: Vec<i64> = match self.profile.convolver.grand_potential_density(
            t,
            &self.profile.axis,
            &self.profile.density,
        ) {
            Ok(g) => g,
            Err(e) => {
                return Err(e);
            },
        };
        let omega: i64 = match excess_grand_potential(&self.profile.axis, &gpd, pressure) {
            Ok(o) => o,
            Err(e) => {
                return Err(e);
            },
        };
        let moles: Vec<i64> = match self.profile.moles() {
            Ok(m) => m,
            Err(e) => {
                return Err(e);
            },
        };
        let components: usize = self.profile.density.components;
        let volume: i64 = self.profile.axis.volume;
        let mut excess: Vec<i64> = Vec::new();
        let mut i: usize = 0;
        while i < components
            invariant
                i <= components,
                self.profile.wf(),
                components == self.profile.density.components,
                volume == self.profile.axis.volume,
                moles@.len() == components,
                forall|q: int|
                    0 <= q < components ==> moles@[q] == self.profile.moles_value(q) as i64,
                self.profile.moles_defined(),
                excess@.len() == i,
                forall|q: int|
                    0 <= q < i ==> excess@[q] == Self::excess_value(self.profile, q) as i64,
                forall|q: int|
                    0 <= q < i ==> mul_defined(
                        #[trigger] self.profile.bulk.partial_density@[q] as int,
                        volume as int,
                    ) && in_i64(Self::excess_value(self.profile, q)),
            decreases components - i,
        {
            let share: i64 = match mul_fixed(self.profile.bulk.partial_density[i], volume) {
                Ok(s) => s,
                Err(e) => {
                    return Err(e);
                },
            };
            let d: i64 = match narrow((moles[i] as i128) - (share as i128)) {
                Ok(d) => d,
                Err(e) => {
                    return Err(e);
                },
            };
            excess.push(d);
            i = i + 1;
        }
        self.delta_omega = Some(omega);
        self.delta_n = Some(excess);
        Ok(())
    }

    /// A single confined solve followed by post-processing, in place.
    pub fn solve_inplace(&mut self, solver: Option<&SolverSettings>, debug: bool) -> (r: Result<
        (),
        MicelleError,
    >)
        requires
            old(self).profile.wf(),
            old(self).profile.specification is Size ==> old(self).profile.density.components == 2,
        ensures
            final(self).profile.wf(),
            final(self).profile.eos == old(self).profile.eos,
            final(self).profile.convolver == old(self).profile.convolver,
            final(self).profile.axis == old(self).profile.axis,
            final(self).profile.bulk == old(self).profile.bulk,
            final(self).profile.external_potential == old(self).profile.external_potential,
            final(self).profile.specification == old(self).profile.specification,
            final(self).profile.density.same_shape(old(self).profile.density),
            r is Ok ==> final(self).post_processed(),
            r is Err ==> final(self).delta_omega == old(self).delta_omega && final(self).delta_n
                == old(self).delta_n,
            max_iter_ref(solver, DEFAULT_MAX_ITER_FIELD) == 0 ==> r == Err::<(), MicelleError>(
                MicelleError::NotConverged(Operation::ProfileSolve),
            ),
    {
        let solved: Result<(), MicelleError> = self.profile.solve(solver, debug);
        match solved {
            Ok(()) => self.post_process(),
            Err(e) => Err(e),
        }
    }

    /// A single confined solve followed by post-processing, by value.
    pub fn solve(self, solver: Option<&SolverSettings>) -> (r: Result<
        MicelleProfile<F, C>,
        MicelleError,
    >)
        requires
            self.profile.wf(),
            self.profile.specification is Size ==> self.profile.density.components == 2,
        ensures
            r matches Ok(m) ==> {
                &&& m.profile.wf()
                &&& m.profile.eos == self.profile.eos
                &&& m.profile.axis == self.profile.axis
                &&& m.profile.bulk == self.profile.bulk
                &&& m.profile.external_potential == self.profile.external_potential
                &&& m.profile.specification == self.profile.specification
                &&& m.profile.density.same_shape(self.profile.density)
                &&& m.post_processed()
            },
            max_iter_ref(solver, DEFAULT_MAX_ITER_FIELD) == 0 ==> r == Err::<
                MicelleProfile<F, C>,
                MicelleError,
            >(MicelleError::NotConverged(Operation::ProfileSolve)),
    {
        let mut this = self;
        match this.solve_inplace(solver, false) {
            Ok(()) => Ok(this),
            Err(e) => Err(e),
        }
    }

    /// The two-stage micelle solve, in place: first a solve confined by the
    /// external potential (with forced diagnostics), then the potential is
    /// cleared entirely and the profile relaxes unconfined, then
    /// post-processing. The confined stage supplies the nucleation seed;
    /// clearing the potential lets the true free-energy minimum be
    /// reported.
    pub fn solve_micelle_inplace(
        &mut self,
        solver1: Option<&SolverSettings>,
        solver2: Option<&SolverSettings>,
        debug: bool,
    ) -> (r: Result<(), MicelleError>)
        requires
            old(self).profile.wf(),
            old(self).profile.specification is Size ==> old(self).profile.density.components == 2,
        ensures
            final(self).profile.wf(),
            final(self).profile.eos == old(self).profile.eos,
            final(self).profile.convolver == old(self).profile.convolver,
            final(self).profile.axis == old(self).profile.axis,
            final(self).profile.bulk == old(self).profile.bulk,
            final(self).profile.specification == old(self).profile.specification,
            final(self).profile.density.same_shape(old(self).profile.density),
            r is Ok ==> final(self).post_processed(),
            r is Ok ==> forall|i: int, k: int|
                0 <= i < final(self).profile.external_potential.components
                    && 0 <= k < final(self).profile.external_potential.points
                    ==> final(self).profile.external_potential.at(i, k) == 0,
            r is Err ==> final(self).delta_omega == old(self).delta_omega && final(self).delta_n
                == old(self).delta_n,
            max_iter_ref(solver1, DEFAULT_MAX_ITER_FIELD) == 0 ==> r == Err::<(), MicelleError>(
                MicelleError::NotConverged(Operation::ProfileSolve),
            ),
    {
        let first: Result<(), MicelleError> = self.profile.solve(solver1, true);
        match first {
            Ok(()) => {},
            Err(e) => {
                return Err(e);
            },
        }
        self.profile.external_potential.fill(0);
        let second: Result<(), MicelleError> = self.profile.solve(solver2, debug);
        match second {
            Ok(()) => {},
            Err(e) => {
                return Err(e);
            },
        }
        self.post_process()
    }

    /// The two-stage micelle solve, by value.
    pub fn solve_micelle(
        self,
        solver1: Option<&SolverSettings>,
        solver2: Option<&SolverSettings>,
    ) -> (r: Result<MicelleProfile<F, C>, MicelleError>)
        requires
            self.profile.wf(),
            self.profile.specification is Size ==> self.profile.density.components == 2,
        ensures
            r matches Ok(m) ==> {
                &&& m.profile.wf()
                &&& m.profile.eos == self.profile.eos
                &&& m.profile.axis == self.profile.axis
                &&& m.profile.bulk == self.profile.bulk
                &&& m.profile.specification == self.profile.specification
                &&& m.post_processed()
                &&& forall|i: int, k: int|
                    0 <= i < m.profile.external_potential.components && 0 <= k
                        < m.profile.external_potential.points
                        ==> m.profile.external_potential.at(i, k) == 0
            },
            max_iter_ref(solver1, DEFAULT_MAX_ITER_FIELD) == 0 ==> r == Err::<
                MicelleProfile<F, C>,
                MicelleError,
            >(MicelleError::NotConverged(Operation::ProfileSolve)),
    {
        let mut this = self;
        match this.solve_micelle_inplace(solver1, solver2, false) {
            Ok(()) => Ok(this),
            Err(e) => Err(e),
        }
    }
}

/// The external potential carries the Gaussian seed on the surfactant
/// component (index 1) and is zero on every other component.
pub open spec fn seeded_potential(pot: Field, axis: Axis, peak: int, width: int) -> bool {
    &&& forall|i: int, k: int|
        0 <= i < pot.components && i != 1 && 0 <= k < pot.points ==> pot.at(i, k) == 0
    &&& forall|k: int|
        0 <= k < pot.points ==> pot.at(1, k) == gaussian_value(
            peak,
            width,
            axis.positions@[k] as int,
        ) as i64
}

/// The density field is flat at the bulk partial densities.
pub open spec fn flat_density(d: Field, bulk: BulkState) -> bool {
    forall|i: int, k: int|
        0 <= i < d.components && 0 <= k < d.points ==> d.at(i, k) == bulk.partial_density@[i]
}

/// Every cell center of the grid admits a defined Gaussian seed value.
pub open spec fn seed_defined(peak: int, width: int, axis: Axis) -> bool {
    forall|k: int|
        0 <= k < axis.point_count ==> gaussian_defined(
            peak,
            width,
            #[trigger] axis.positions@[k] as int,
        )
}

/// Every cell center of the grid that `n` cells over `width` describe
/// admits a defined Gaussian seed value.
pub open spec fn seed_points_defined(peak: int, width_g: int, n: int, width: int) -> bool {
    forall|k: int|
        0 <= k < n ==> gaussian_defined(
            peak,
            width_g,
            #[trigger] position_value(grid_step(width, n), k),
        )
}

/// The excess grand potential lies strictly inside the convergence band
/// `|w| < tol * T`.
pub open spec fn within_tolerance(w: i64, tol: i64, t: i64) -> bool {
    &&& mul_defined(tol as int, t as int)
    &&& -mul_value(tol as int, t as int) < (w as int)
    &&& (w as int) < mul_value(tol as int, t as int)
}

/// The closed-form Newton step on the surfactant mole fraction: the
/// pressure-coupling term from the pressure derivatives, the excess-count
/// cross terms from the chemical-potential derivatives, combined into the
/// slope `domega/dx`, and the update `x - delta_omega / (domega/dx)`.
pub open spec fn newton_fraction_value(
    delta_omega: int,
    dn0: int,
    dn1: int,
    dp0: int,
    dp1: int,
    dmu00: int,
    dmu01: int,
    dmu10: int,
    dmu11: int,
    x: int,
    density: int,
) -> int {
    let p_term = div_value(dp1 - dp0, mul_value(dp1, x) + mul_value(dp0, SCALE - x));
    let a = mul_value(dn1, dmu11) + mul_value(dn0, dmu10);
    let b = mul_value(dn1, dmu01) + mul_value(dn0, dmu00);
    let ab = a - b;
    let slope = -mul_value(mul_value(mul_value(ab, x) + b, p_term) + ab, density);
    x - div_value(delta_omega, slope)
}

/// Every reduction of the Newton step is defined and representable, in the
/// order the step is computed.
pub open spec fn newton_fraction_defined(
    delta_omega: int,
    dn0: int,
    dn1: int,
    dp0: int,
    dp1: int,
    dmu00: int,
    dmu01: int,
    dmu10: int,
    dmu11: int,
    x: int,
    density: int,
) -> bool {
    let sx = SCALE - x;
    let denom = mul_value(dp1, x) + mul_value(dp0, sx);
    let num = dp1 - dp0;
    let p_term = div_value(num, denom);
    let a = mul_value(dn1, dmu11) + mul_value(dn0, dmu10);
    let b = mul_value(dn1, dmu01) + mul_value(dn0, dmu00);
    let ab = a - b;
    let inner1 = mul_value(ab, x) + b;
    let inner2 = mul_value(inner1, p_term) + ab;
    let slope = -mul_value(inner2, density);
    &&& in_i64(sx)
    &&& mul_defined(dp1, x)
    &&& mul_defined(dp0, sx)
    &&& in_i64(denom)
    &&& in_i64(num)
    &&& div_defined(num, denom)
    &&& mul_defined(dn1, dmu11)
    &&& mul_defined(dn0, dmu10)
    &&& in_i64(a)
    &&& mul_defined(dn1, dmu01)
    &&& mul_defined(dn0, dmu00)
    &&& in_i64(b)
    &&& in_i64(ab)
    &&& mul_defined(ab, x)
    &&& in_i64(inner1)
    &&& mul_defined(inner1, p_term)
    &&& in_i64(inner2)
    &&& mul_defined(inner2, density)
    &&& in_i64(-mul_value(inner2, density))
    &&& div_defined(delta_omega, slope)
    &&& in_i64(x - div_value(delta_omega, slope))
}

/// One closed-form Newton step of the critical micelle search: combines
/// the excess grand potential, the excess particle counts and the bulk
/// response derivatives (pressure and chemical potential, each scaled by
/// the volume) into the next surfactant mole fraction. An undefined
/// reduction — a zero denominator or a value beyond the fixed-point
/// range — is a numerical-reduction error.
pub fn newton_mole_fraction(
    delta_omega: i64,
    delta_n: &Vec<i64>,
    dp_dn_v: &Vec<i64>,
    dmu_dn_v: &Vec<i64>,
    x: i64,
    density: i64,
) -> (r: Result<i64, MicelleError>)
    requires
        delta_n@.len() == 2,
        dp_dn_v@.len() == 2,
        dmu_dn_v@.len() == 4,
    ensures
        newton_fraction_defined(
            delta_omega as int,
            delta_n@[0] as int,
            delta_n@[1] as int,
            dp_dn_v@[0] as int,
            dp_dn_v@[1] as int,
            dmu_dn_v@[0] as int,
            dmu_dn_v@[1] as int,
            dmu_dn_v@[2] as int,
            dmu_dn_v@[3] as int,
            x as int,
            density as int,
        ) <==> r is Ok,
        r matches Ok(v) ==> v as int == newton_fraction_value(
            delta_omega as int,
            delta_n@[0] as int,
            delta_n@[1] as int,
            dp_dn_v@[0] as int,
            dp_dn_v@[1] as int,
            dmu_dn_v@[0] as int,
            dmu_dn_v@[1] as int,
            dmu_dn_v@[2] as int,
            dmu_dn_v@[3] as int,
            x as int,
            density as int,
        ),
        r is Err ==> r == Err::<i64, MicelleError>(MicelleError::NumericalReduction),
{
    let dn0: i64 = delta_n[0];
    let dn1: i64 = delta_n[1];
    let dp0: i64 = dp_dn_v[0];
    let dp1: i64 = dp_dn_v[1];
    let dmu00: i64 = dmu_dn_v[0];
    let dmu01: i64 = dmu_dn_v[1];
    let dmu10: i64 = dmu_dn_v[2];
    let dmu11: i64 = dmu_dn_v[3];
    let sx: i64 = narrow((SCALE as i128) - (x as i128))?;
    let d1x: i64 = mul_fixed(dp1, x)?;
    let d0sx: i64 = mul_fixed(dp0, sx)?;
    let denom: i64 = narrow((d1x as i128) + (d0sx as i128))?;
    let num: i64 = narrow((dp1 as i128) - (dp0 as i128))?;
    let p_term: i64 = div_fixed(num, denom)?;
    let a1: i64 = mul_fixed(dn1, dmu11)?;
    let a2: i64 = mul_fixed(dn0, dmu10)?;
    let a: i64 = narrow((a1 as i128) + (a2 as i128))?;
    let b1: i64 = mul_fixed(dn1, dmu01)?;
    let b2: i64 = mul_fixed(dn0, dmu00)?;
    let b: i64 = narrow((b1 as i128) + (b2 as i128))?;
    let ab: i64 = narrow((a as i128) - (b as i128))?;
    let abx: i64 = mul_fixed(ab, x)?;
    let inner1: i64 = narrow((abx as i128) + (b as i128))?;
    let term1: i64 = mul_fixed(inner1, p_term)?;
    let inner2: i64 = narrow((term1 as i128) + (ab as i128))?;
    let scaled: i64 = mul_fixed(inner2, density)?;
    let slope: i64 = narrow(-(scaled as i128))?;
    let step: i64 = div_fixed(delta_omega, slope)?;
    narrow((x as i128) - (step as i128))
}

impl<C: ConvolutionEngine, F: BulkEos<C>> MicelleProfile<F, C> {
    /// Builds a micelle profile over the given grid: seeds the external
    /// potential or the density field from the initialization, plans the
    /// convolution engine for the grid at the bulk temperature, and
    /// attaches the specification. Both derived quantities start undefined.
    fn new(
        eos: F,
        bulk: BulkState,
        axis: Axis,
        initialization: MicelleInitialization,
        specification: MicelleSpecification,
    ) -> (r: Result<MicelleProfile<F, C>, MicelleError>)
        requires
            axis.wf(),
            bulk.molefracs@.len() == bulk.partial_density@.len(),
            bulk.partial_density@.len() >= 1,
            bulk.partial_density@.len() * axis.point_count <= usize::MAX,
            initialization matches MicelleInitialization::Density(d) ==> d.wf() && d.components
                == bulk.partial_density@.len() && d.points == axis.point_count,
            initialization is ExternalPotential ==> bulk.partial_density@.len() >= 2,
        ensures
            r matches Ok(m) ==> {
                &&& m.wf()
                &&& m.profile.eos == eos
                &&& m.profile.axis == axis
                &&& m.profile.bulk == bulk
                &&& m.profile.specification == specification
                &&& m.delta_omega is None
                &&& m.delta_n is None
                &&& m.profile.density.components == bulk.partial_density@.len()
                &&& m.profile.density.points == axis.point_count
                &&& (initialization matches MicelleInitialization::Density(d)
                    ==> m.profile.density.identical(d) && forall|i: int, k: int|
                        0 <= i < m.profile.external_potential.components && 0 <= k
                            < m.profile.external_potential.points
                            ==> m.profile.external_potential.at(i, k) == 0)
                &&& (initialization matches MicelleInitialization::ExternalPotential(pk, wd)
                    ==> (seeded_potential(m.profile.external_potential, axis, pk as int, wd as int)
                        && flat_density(m.profile.density, bulk)))
            },
            initialization matches MicelleInitialization::ExternalPotential(pk, wd)
                && !seed_defined(pk as int, wd as int, axis) ==> r == Err::<
                MicelleProfile<F, C>,
                MicelleError,
            >(MicelleError::NumericalReduction),
    {
        let ncomp: usize = bulk.partial_density.len();
        let points: usize = axis.point_count;
        let mut external_potential: Field = Field::constant(ncomp, points, 0);
        let density: Field = match initialization {
            MicelleInitialization::ExternalPotential(peak, gwidth) => {
                let mut k: usize = 0;
                while k < points
                    invariant
                        k <= points,
                        ncomp >= 2,
                        axis.wf(),
                        points == axis.point_count,
                        external_potential.wf(),
                        external_potential.components == ncomp,
                        external_potential.points == points,
                        forall|q: int|
                            0 <= q < k ==> gaussian_defined(
                                peak as int,
                                gwidth as int,
                                #[trigger] axis.positions@[q] as int,
                            ),
                        forall|q: int|
                            0 <= q < k ==> external_potential.at(1, q) == gaussian_value(
                                peak as int,
                                gwidth as int,
                                axis.positions@[q] as int,
                            ) as i64,
                        forall|i: int, q: int|
                            0 <= i < ncomp && i != 1 && 0 <= q < points ==> external_potential.at(
                                i,
                                q,
                            ) == 0,
                    decreases points - k,
                {
                    let rpos: i64 = axis.positions[k];
                    let g: i64 = match gaussian(peak, gwidth, rpos) {
                        Ok(g) => g,
                        Err(e) => {
                            assert(!seed_defined(peak as int, gwidth as int, axis));
                            return Err(e);
                        },
                    };
                    external_potential.store(1, k, g);
                    k = k + 1;
                }
                let mut d: Field = Field::constant(ncomp, points, 0);
                let mut i: usize = 0;
                while i < ncomp
                    invariant
                        i <= ncomp,
                        bulk.partial_density@.len() == ncomp,
                        d.wf(),
                        d.components == ncomp,
                        d.points == points,
                        forall|a: int, q: int|
                            0 <= a < i && 0 <= q < points ==> d.at(a, q)
                                == bulk.partial_density@[a],
                    decreases ncomp - i,
                {
                    let v: i64 = bulk.partial_density[i];
                    let mut k2: usize = 0;
                    while k2 < points
                        invariant
                            k2 <= points,
                            i < ncomp,
                            bulk.partial_density@.len() == ncomp,
                            v == bulk.partial_density@[i as int],
                            d.wf(),
                            d.components == ncomp,
                            d.points == points,
                            forall|a: int, q: int|
                                0 <= a < i && 0 <= q < points ==> d.at(a, q)
                                    == bulk.partial_density@[a],
                            forall|q: int| 0 <= q < k2 ==> d.at(i as int, q) == v,
                        decreases points - k2,
                    {
                        d.store(i, k2, v);
                        k2 = k2 + 1;
                    }
                    i = i + 1;
                }
                d
            },
            MicelleInitialization::Density(d) => d,
        };
        let convolver: C = match eos.plan(&axis, bulk.temperature) {
            Ok(c) => c,
            Err(e) => {
                return Err(e);
            },
        };
        Ok(
            MicelleProfile {
                profile: DensityProfile {
                    eos,
                    convolver,
                    axis,
                    bulk,
                    density,
                    external_potential,
                    specification,
                },
                delta_omega: None,
                delta_n: None,
            },
        )
    }

    /// Builds a spherical micelle profile of `n_grid` cells over `width`.
    /// Grid parameters with no representable grid are a numerical-reduction
    /// error.
    pub fn new_spherical(
        eos: F,
        bulk: BulkState,
        n_grid: usize,
        width: i64,
        initialization: MicelleInitialization,
        specification: MicelleSpecification,
    ) -> (r: Result<MicelleProfile<F, C>, MicelleError>)
        requires
            bulk.molefracs@.len() == bulk.partial_density@.len(),
            bulk.partial_density@.len() >= 1,
            bulk.partial_density@.len() * n_grid <= usize::MAX,
            initialization matches MicelleInitialization::Density(d) ==> d.wf() && d.components
                == bulk.partial_density@.len() && d.points == n_grid,
            initialization is ExternalPotential ==> bulk.partial_density@.len() >= 2,
        ensures
            r matches Ok(m) ==> {
                &&& m.wf()
                &&& m.profile.axis.geometry == Geometry::Spherical
                &&& m.profile.axis.point_count == n_grid
                &&& m.profile.axis.width == width
                &&& m.profile.eos == eos
                &&& m.profile.bulk == bulk
                &&& m.profile.specification == specification
                &&& m.delta_omega is None
                &&& m.delta_n is None
                &&& m.profile.density.components == bulk.partial_density@.len()
                &&& m.profile.density.points == n_grid
                &&& (initialization matches MicelleInitialization::Density(d)
                    ==> m.profile.density.identical(d) && forall|i: int, k: int|
                        0 <= i < m.profile.external_potential.components && 0 <= k
                            < m.profile.external_potential.points
                            ==> m.profile.external_potential.at(i, k) == 0)
                &&& (initialization matches MicelleInitialization::ExternalPotential(pk, wd)
                    ==> (seeded_potential(
                        m.profile.external_potential,
                        m.profile.axis,
                        pk as int,
                        wd as int,
                    ) && flat_density(m.profile.density, bulk)))
            },
            !Axis::parameters_ok(Geometry::Spherical, n_grid as int, width as int) ==> r == Err::<
                MicelleProfile<F, C>,
                MicelleError,
            >(MicelleError::NumericalReduction),
            Axis::parameters_ok(Geometry::Spherical, n_grid as int, width as int) && (initialization
                matches MicelleInitialization::ExternalPotential(pk, wd) && !seed_points_defined(
                pk as int,
                wd as int,
                n_grid as int,
                width as int,
            )) ==> r == Err::<MicelleProfile<F, C>, MicelleError>(MicelleError::NumericalReduction),
    {
        let axis: Axis = match Axis::new_spherical(n_grid, width) {
            Ok(a) => a,
            Err(e) => {
                return Err(e);
            },
        };
        proof {
            assert forall|p: int, w: int| #[trigger] seed_defined(p, w, axis) implies
                seed_points_defined(p, w, n_grid as int, width as int) by {
                assert forall|k: int| 0 <= k < n_grid implies gaussian_defined(
                    p,
                    w,
                    #[trigger] position_value(grid_step(width as int, n_grid as int), k),
                ) by {
                    assert(axis.positions@[k] == position_value(axis.step as int, k));
                    assert(gaussian_defined(p, w, axis.positions@[k] as int));
                };
            };
        }
        Self::new(eos, bulk, axis, initialization, specification)
    }

    /// Builds a cylindrical micelle profile of `n_grid` cells over `width`.
    /// Grid parameters with no representable grid are a numerical-reduction
    /// error.
    pub fn new_cylindrical(
        eos: F,
        bulk: BulkState,
        n_grid: usize,
        width: i64,
        initialization: MicelleInitialization,
        specification: MicelleSpecification,
    ) -> (r: Result<MicelleProfile<F, C>, MicelleError>)
        requires
            bulk.molefracs@.len() == bulk.partial_density@.len(),
            bulk.partial_density@.len() >= 1,
            bulk.partial_density@.len() * n_grid <= usize::MAX,
            initialization matches MicelleInitialization::Density(d) ==> d.wf() && d.components
                == bulk.partial_density@.len() && d.points == n_grid,
            initialization is ExternalPotential ==> bulk.partial_density@.len() >= 2,
        ensures
            r matches Ok(m) ==> {
                &&& m.wf()
                &&& m.profile.axis.geometry == Geometry::Cylindrical
                &&& m.profile.axis.point_count == n_grid
                &&& m.profile.axis.width == width
                &&& m.profile.eos == eos
                &&& m.profile.bulk == bulk
                &&& m.profile.specification == specification
                &&& m.delta_omega is None
                &&& m.delta_n is None
                &&& m.profile.density.components == bulk.partial_density@.len()
                &&& m.profile.density.points == n_grid
                &&& (initialization matches MicelleInitialization::Density(d)
                    ==> m.profile.density.identical(d) && forall|i: int, k: int|
                        0 <= i < m.profile.external_potential.components && 0 <= k
                            < m.profile.external_potential.points
                            ==> m.profile.external_potential.at(i, k) == 0)
                &&& (initialization matches MicelleInitialization::ExternalPotential(pk, wd)
                    ==> (seeded_potential(
                        m.profile.external_potential,
                        m.profile.axis,
                        pk as int,
                        wd as int,
                    ) && flat_density(m.profile.density, bulk)))
            },
            !Axis::parameters_ok(Geometry::Cylindrical, n_grid as int, width as int) ==> r == Err::<
                MicelleProfile<F, C>,
                MicelleError,
            >(MicelleError::NumericalReduction),
            Axis::parameters_ok(Geometry::Cylindrical, n_grid as int, width as int) && (initialization
                matches MicelleInitialization::ExternalPotential(pk, wd) && !seed_points_defined(
                pk as int,
                wd as int,
                n_grid as int,
                width as int,
            )) ==> r == Err::<MicelleProfile<F, C>, MicelleError>(MicelleError::NumericalReduction),
    {
        let axis: Axis = match Axis::new_polar(n_grid, width) {
            Ok(a) => a,
            Err(e) => {
                return Err(e);
            },
        };
        proof {
            assert forall|p: int, w: int| #[trigger] seed_defined(p, w, axis) implies
                seed_points_defined(p, w, n_grid as int, width as int) by {
                assert forall|k: int| 0 <= k < n_grid implies gaussian_defined(
                    p,
                    w,
                    #[trigger] position_value(grid_step(width as int, n_grid as int), k),
                ) by {
                    assert(axis.positions@[k] == position_value(axis.step as int, k));
                    assert(gaussian_defined(p, w, axis.positions@[k] as int));
                };
            };
        }
        Self::new(eos, bulk, axis, initialization, specification)
    }
}

impl<C: ConvolutionEngine + Clone, F: BulkEos<C> + Clone> Clone for MicelleProfile<F, C> {
    /// A deep copy: the density field, the external potential, the bulk
    /// state and the derived quantities are copied into independent
    /// storage, so the original and the clone evolve independently.
    fn clone(&self) -> (r: Self)
        ensures
            r.profile.axis.identical(self.profile.axis),
            r.profile.bulk.identical(self.profile.bulk),
            r.profile.density.identical(self.profile.density),
            r.profile.external_potential.identical(self.profile.external_potential),
            r.profile.specification == self.profile.specification,
            r.delta_omega == self.delta_omega,
            (r.delta_n matches Some(v) && self.delta_n matches Some(w) && v@ == w@) || (r.delta_n
                is None && self.delta_n is None),
    {
        let delta_n: Option<Vec<i64>> = match &self.delta_n {
            Some(v) => Some(copy_values(v)),
            None => None,
        };
        MicelleProfile {
            profile: DensityProfile {
                eos: self.profile.eos.clone(),
                convolver: self.profile.convolver.clone(),
                axis: self.profile.axis.duplicate(),
                bulk: self.profile.bulk.duplicate(),
                density: self.profile.density.duplicate(),
                external_potential: self.profile.external_potential.duplicate(),
                specification: self.profile.specification,
            },
            delta_omega: self.delta_omega,
            delta_n,
        }
    }
}

impl<C: ConvolutionEngine, F: BulkEos<C>> MicelleProfile<F, C> {
    /// Searches for the critical micelle concentration: the bulk surfactant
    /// mole fraction at which the excess grand potential of the free
    /// micelle vanishes, at fixed temperature and pressure. Each round
    /// checks `|delta_omega| < tol * T`, takes one closed-form Newton step
    /// on the mole fraction from the excess counts and the bulk response
    /// derivatives, rebuilds the bulk state at the new composition, shifts
    /// the density field rigidly so its far field matches the new bulk, and
    /// re-solves. The specification is pinned to the chemical-potential
    /// rule throughout. On exhausting the budget the search fails as not
    /// converged, naming itself.
    pub fn critical_micelle(
        self,
        solver: Option<&SolverSettings>,
        options: SolverSettings,
    ) -> (r: Result<MicelleProfile<F, C>, MicelleError>)
        requires
            self.profile.wf(),
            self.profile.density.components == 2,
            self.delta_omega is Some,
            self.delta_n matches Some(v) && v@.len() == 2,
        ensures
            r matches Ok(m) ==> {
                &&& m.profile.wf()
                &&& m.profile.specification == MicelleSpecification::ChemicalPotential
                &&& m.profile.eos == self.profile.eos
                &&& m.profile.axis == self.profile.axis
                &&& m.profile.external_potential == self.profile.external_potential
                &&& m.profile.convolver == self.profile.convolver
                &&& m.profile.bulk.temperature == self.profile.bulk.temperature
                &&& m.profile.bulk.pressure == self.profile.bulk.pressure
                &&& m.profile.density.components == 2
                &&& m.delta_omega is Some
                &&& (m.delta_n matches Some(v) && v@.len() == 2)
                &&& (m.delta_omega matches Some(w) ==> within_tolerance(
                    w,
                    tol_of(Some(options), TOL_MICELLE),
                    self.profile.bulk.temperature,
                ))
            },
            !mul_defined(
                tol_of(Some(options), TOL_MICELLE) as int,
                self.profile.bulk.temperature as int,
            ) ==> r == Err::<MicelleProfile<F, C>, MicelleError>(MicelleError::NumericalReduction),
            mul_defined(
                tol_of(Some(options), TOL_MICELLE) as int,
                self.profile.bulk.temperature as int,
            ) && max_iter_of(Some(options), MAX_ITER_MICELLE) == 0 ==> r == Err::<
                MicelleProfile<F, C>,
                MicelleError,
            >(MicelleError::NotConverged(Operation::CriticalMicelle)),
            (self.delta_omega matches Some(w0) && within_tolerance(
                w0,
                tol_of(Some(options), TOL_MICELLE),
                self.profile.bulk.temperature,
            ) && max_iter_of(Some(options), MAX_ITER_MICELLE) >= 1) ==> (r matches Ok(m)
                && m.profile.density == self.profile.density && m.profile.bulk
                == self.profile.bulk && m.profile.external_potential
                == self.profile.external_potential && m.delta_omega == self.delta_omega
                && m.delta_n == self.delta_n && m.profile.specification
                == MicelleSpecification::ChemicalPotential),
    {
        let mut this = self;
        let temperature: i64 = this.profile.bulk.temperature;
        let pressure: i64 = this.profile.bulk.pressure;
        let tol: i64 = match options.tol {
            Some(t) => t,
            None => TOL_MICELLE,
        };
        let max_iter: usize = match options.max_iter {
            Some(m) => m,
            None => MAX_ITER_MICELLE,
        };
        this.profile.specification = MicelleSpecification::ChemicalPotential;
        let threshold: i64 = mul_fixed(tol, temperature)?;
        let mut it: usize = 0;
        while it < max_iter
            invariant
                it <= max_iter,
                this.profile.wf(),
                this.profile.density.components == 2,
                this.profile.specification == MicelleSpecification::ChemicalPotential,
                this.delta_omega is Some,
                this.delta_n matches Some(v) && v@.len() == 2,
                this.profile.bulk.temperature == temperature,
                this.profile.eos == self.profile.eos,
                this.profile.axis == self.profile.axis,
                this.profile.external_potential == self.profile.external_potential,
                this.profile.convolver == self.profile.convolver,
                temperature == self.profile.bulk.temperature,
                tol == tol_of(Some(options), TOL_MICELLE),
                max_iter == max_iter_of(Some(options), MAX_ITER_MICELLE),
                mul_defined(tol as int, temperature as int),
                threshold as int == mul_value(tol as int, temperature as int),
                pressure == self.profile.bulk.pressure,
                this.profile.bulk.pressure == pressure,
                (self.delta_omega matches Some(w0) && within_tolerance(w0, tol, temperature))
                    ==> (this.profile.density == self.profile.density && this.profile.bulk
                    == self.profile.bulk && this.delta_omega == self.delta_omega && this.delta_n
                    == self.delta_n),
                it >= 1 ==> !(self.delta_omega matches Some(w0) && within_tolerance(
                    w0,
                    tol,
                    temperature,
                )),
            decreases max_iter - it,
        {
            let w: i64 = match this.delta_omega {
                Some(w) => w,
                None => unreached(),
            };
            if -(threshold as i128) < (w as i128) && w < threshold {
                return Ok(this);
            }
            let dp = match this.profile.eos.dp_dn_v(&this.profile.bulk) {
                Ok(v) => v,
                Err(e) => {
                    return Err(e);
                },
            };
            let dmu = match this.profile.eos.dmu_dn_v(&this.profile.bulk) {
                Ok(v) => v,
                Err(e) => {
                    return Err(e);
                },
            };
            let x: i64 = this.profile.bulk.molefracs[1];
            let density_total: i64 = this.profile.bulk.density;
            let stepped: Result<i64, MicelleError> = match &this.delta_n {
                Some(v) => newton_mole_fraction(w, v, &dp, &dmu, x, density_total),
                None => unreached(),
            };
            let x_new: i64 = match stepped {
                Ok(v) => v,
                Err(e) => {
                    return Err(e);
                },
            };
            let x_solvent: i64 = narrow((SCALE as i128) - (x_new as i128))?;
            let mut xs: Vec<i64> = Vec::new();
            xs.push(x_solvent);
            xs.push(x_new);
            let new_bulk: BulkState = this.profile.eos.build_state(temperature, pressure, &xs)?;
            this.profile.bulk = new_bulk;
            let n_grid: usize = this.profile.axis.point_count;
            let mut i: usize = 0;
            while i < 2
                invariant
                    i <= 2,
                    this.profile.wf(),
                    this.profile.density.components == 2,
                    this.profile.specification == MicelleSpecification::ChemicalPotential,
                    this.profile.bulk.temperature == temperature,
                    this.profile.eos == self.profile.eos,
                    this.profile.axis == self.profile.axis,
                    this.profile.external_potential == self.profile.external_potential,
                    this.profile.convolver == self.profile.convolver,
                    this.profile.bulk.pressure == pressure,
                    n_grid == this.profile.axis.point_count,
                    tol == tol_of(Some(options), TOL_MICELLE),
                    temperature == self.profile.bulk.temperature,
                    mul_defined(tol as int, temperature as int),
                    max_iter_of(Some(options), MAX_ITER_MICELLE) >= 1,
                    !(self.delta_omega matches Some(w0) && within_tolerance(w0, tol, temperature)),
                decreases 2 - i,
            {
                let edge: i64 = this.profile.density.get(i, n_grid - 1);
                let target: i64 = this.profile.bulk.partial_density[i];
                let delta: i64 = narrow((target as i128) - (edge as i128))?;
                match this.profile.density.shift_component(i, delta) {
                    Ok(()) => {},
                    Err(e) => {
                        return Err(e);
                    },
                }
                i = i + 1;
            }
            match this.profile.solve(solver, false) {
                Ok(()) => {},
                Err(e) => {
                    return Err(e);
                },
            }
            match this.post_process() {
                Ok(()) => {},
                Err(e) => {
                    return Err(e);
                },
            }
            it = it + 1;
        }
        Err(MicelleError::NotConverged(Operation::CriticalMicelle))
    }
}

impl<C: ConvolutionEngine + Clone, F: BulkEos<C> + Clone> MicelleProfile<F, C> {
    /// A clone of the profile with a new specification attached and both
    /// derived quantities reset to undefined: they stay undefined until the
    /// next solve.
    pub fn update_specification(&self, specification: MicelleSpecification) -> (r: MicelleProfile<
        F,
        C,
    >)
        ensures
            r.delta_omega is None,
            r.delta_n is None,
            r.profile.specification == specification,
            r.profile.axis.identical(self.profile.axis),
            r.profile.bulk.identical(self.profile.bulk),
            r.profile.density.identical(self.profile.density),
            r.profile.external_potential.identical(self.profile.external_potential),
    {
        let mut profile = self.clone();
        profile.profile.specification = specification;
        profile.delta_omega = None;
        profile.delta_n = None;
        profile
    }
}

} // verus!
