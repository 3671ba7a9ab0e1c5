//! Narrow interfaces to the external collaborators.
//!
//! The solver consumes the bulk equation of state and the weighted-density
//! convolution machinery through these traits, so the core can be driven by
//! any thermodynamic model. An implementation owes only the shape guarantees
//! written on the methods; everything the solver concludes beyond them is
//! proved for every value an implementation may return.

use vstd::prelude::*;

use crate::axis::Axis;
use crate::bulk::BulkState;
use crate::error::MicelleError;
use crate::field::Field;

verus! {

/// A homogeneous trial state probed at fixed volume: the Helmholtz energy
/// density and the chemical potential of each component.
pub struct ProbeResult {
    /// Helmholtz energy per volume of the trial state.
    pub energy_density: i64,
    /// Chemical potential of each component.
    pub chemical_potentials: Vec<i64>,
}

/// One proposal of the inner field iteration: the raw bulk density estimate
/// and the grid-relative weighting vector used to propagate boundary
/// densities.
pub struct Proposal {
    /// Estimated bulk density of each component.
    pub bulk_density: Vec<i64>,
    /// Grid-relative weighting of each component.
    pub z: Vec<i64>,
}

/// One update of the inner field iteration: the next density field and the
/// residual of the fixed-point equation.
pub struct FieldUpdate {
    /// The next density field.
    pub density: Field,
    /// Residual of the field equation, nonnegative.
    pub residual: i64,
}

/// The bulk equation-of-state capability: builds converged homogeneous
/// states and evaluates their response functions.
pub trait BulkEos<C: ConvolutionEngine>: Sized {
    /// Builds a converged bulk state at the given temperature, pressure and
    /// composition. A state that comes back Ok carries the requested
    /// temperature, pressure and composition, with one partial density per
    /// component.
    fn build_state(&self, temperature: i64, pressure: i64, molefracs: &Vec<i64>) -> (r: Result<
        BulkState,
        MicelleError,
    >)
        ensures
            r matches Ok(b) ==> {
                &&& b.wf(molefracs@.len())
                &&& b.temperature == temperature
                &&& b.pressure == pressure
                &&& b.molefracs@ == molefracs@
            },
    ;

    /// Probes a homogeneous trial state at the given partial densities and
    /// temperature, returning its Helmholtz energy density and one chemical
    /// potential per component.
    fn probe_nvt(&self, temperature: i64, partial_density: &Vec<i64>) -> (r: Result<
        ProbeResult,
        MicelleError,
    >)
        ensures
            r matches Ok(p) ==> p.chemical_potentials@.len() == partial_density@.len(),
    ;

    /// The pressure derivative with respect to each component's particle
    /// number, scaled by the volume.
    fn dp_dn_v(&self, bulk: &BulkState) -> (r: Result<Vec<i64>, MicelleError>)
        ensures
            r matches Ok(v) ==> v@.len() == bulk.partial_density@.len(),
    ;

    /// The chemical-potential derivative matrix with respect to particle
    /// numbers, scaled by the volume, in row-major order.
    fn dmu_dn_v(&self, bulk: &BulkState) -> (r: Result<Vec<i64>, MicelleError>)
        ensures
            r matches Ok(m) ==> m@.len() == bulk.partial_density@.len()
                * bulk.partial_density@.len(),
    ;

    /// Plans the convolution engine for the given grid at the given
    /// temperature, from the weight functions of the model's contributions.
    fn plan(&self, axis: &Axis, temperature: i64) -> (r: Result<C, MicelleError>);
}

/// The weighted-density convolution capability: maps a density field to the
/// quantities of one self-consistent iteration and to the grand-potential
/// density of a solved field.
pub trait ConvolutionEngine: Sized {
    /// Computes the bulk-density proposal of one inner iteration, one entry
    /// per component.
    fn propose(
        &self,
        temperature: i64,
        axis: &Axis,
        external_potential: &Field,
        density: &Field,
        bulk: &BulkState,
    ) -> (r: Result<Proposal, MicelleError>)
        ensures
            r matches Ok(p) ==> p.bulk_density@.len() == density.components && p.z@.len()
                == density.components,
    ;

    /// Applies one update of the inner field iteration with the adjusted
    /// bulk densities; `verbose` requests residual diagnostics and must not
    /// alter the numerics. The density that comes back keeps the shape of
    /// the old one, is nonnegative everywhere, and carries a nonnegative
    /// residual.
    fn update(
        &self,
        temperature: i64,
        axis: &Axis,
        external_potential: &Field,
        density: &Field,
        bulk_density: &Vec<i64>,
        verbose: bool,
    ) -> (r: Result<FieldUpdate, MicelleError>)
        ensures
            r matches Ok(u) ==> {
                &&& u.density.wf()
                &&& u.density.same_shape(*density)
                &&& u.residual >= 0
                &&& forall|i: int, k: int|
                    0 <= i < u.density.components && 0 <= k < u.density.points ==> u.density.at(
                        i,
                        k,
                    ) >= 0
            },
    ;

    /// The grand-potential density of the given field, one value per grid
    /// point.
    fn grand_potential_density(&self, temperature: i64, axis: &Axis, density: &Field) -> (r: Result<
        Vec<i64>,
        MicelleError,
    >)
        ensures
            r matches Ok(g) ==> g@.len() == axis.point_count,
    ;
}

} // verus!
