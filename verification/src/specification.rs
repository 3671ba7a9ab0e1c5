//! The closure rule applied once per inner iteration.
//!
//! A specification translates the raw bulk-density estimate of the inner
//! solver into the density values enforced at the bulk reference. The
//! behavior set is closed: either the estimate is passed through unchanged
//! (equal chemical potential with the bulk), or the solvent density is
//! re-derived from a grand-potential balance so that the profile is pinned
//! to a prescribed excess surfactant count at a prescribed pressure.

use vstd::prelude::*;

use crate::bulk::copy_values;
use crate::capability::{BulkEos, ConvolutionEngine};
use crate::error::MicelleError;
use crate::fixed::{div_defined, div_fixed, div_value, in_i64, mul_defined, mul_fixed, mul_value, narrow};

verus! {

/// The closure rule of a profile. Immutable once attached for a given
/// solve; may be swapped between solves.
#[derive(Clone, Copy, Debug, PartialEq, Eq, Structural)]
pub enum MicelleSpecification {
    /// Enforce equal chemical potential with the bulk: the inner iteration
    /// already does, so the estimate passes through unchanged.
    ChemicalPotential,
    /// Pin the profile to a prescribed excess surfactant count at a
    /// prescribed pressure.
    Size {
        /// Target excess particle count of the surfactant.
        delta_n_surfactant: i64,
        /// Pressure of the grand-potential balance.
        pressure: i64,
    },
}

/// The reduced excess-count target of the size rule: the prescribed excess
/// plus the surfactant particles a uniform bulk would hold in the volume.
pub open spec fn size_target_value(delta_n_surfactant: int, rho_s: int, volume: int) -> int {
    delta_n_surfactant + mul_value(rho_s, volume)
}

/// The numerator of the grand-potential balance
/// `pressure + f_bulk - rho_s * mu_s`.
pub open spec fn balance_numerator(pressure: int, energy_density: int, rho_s: int, mu_s: int) -> int {
    pressure + energy_density - mul_value(rho_s, mu_s)
}

/// The solvent density solved from the grand-potential balance
/// `pressure + f_bulk - rho_s * mu_s = rho_w * mu_w`.
pub open spec fn balance_value(
    pressure: int,
    energy_density: int,
    rho_s: int,
    mu_s: int,
    mu_w: int,
) -> int {
    div_value(balance_numerator(pressure, energy_density, rho_s, mu_s), mu_w)
}

/// Every reduction of the size rule is defined and representable: the
/// excess-count target, its division by the surfactant weighting, and the
/// grand-potential balance divided by the solvent chemical potential.
pub open spec fn size_defined(
    delta_n_surfactant: int,
    pressure: int,
    volume: int,
    rho_s: int,
    energy_density: int,
    mu_w: int,
    mu_s: int,
    z_s: int,
) -> bool {
    &&& mul_defined(rho_s, volume)
    &&& in_i64(size_target_value(delta_n_surfactant, rho_s, volume))
    &&& div_defined(size_target_value(delta_n_surfactant, rho_s, volume), z_s)
    &&& mul_defined(rho_s, mu_s)
    &&& in_i64(balance_numerator(pressure, energy_density, rho_s, mu_s))
    &&& div_defined(balance_numerator(pressure, energy_density, rho_s, mu_s), mu_w)
}

/// The pure arithmetic of the size rule, applied to the probe of a
/// homogeneous trial state: entry 1 is the reduced excess-count target
/// divided by the surfactant weighting, entry 0 is the solvent density
/// solved from the grand-potential balance. An undefined reduction — a zero
/// chemical potential or weighting, or a value beyond the fixed-point
/// range — is a numerical-reduction error.
pub fn size_bulk_density(
    delta_n_surfactant: i64,
    pressure: i64,
    volume: i64,
    bulk_density: &Vec<i64>,
    z: &Vec<i64>,
    energy_density: i64,
    chemical_potentials: &Vec<i64>,
) -> (r: Result<Vec<i64>, MicelleError>)
    requires
        bulk_density@.len() == 2,
        z@.len() == 2,
        chemical_potentials@.len() == 2,
    ensures
        size_defined(
            delta_n_surfactant as int,
            pressure as int,
            volume as int,
            bulk_density@[1] as int,
            energy_density as int,
            chemical_potentials@[0] as int,
            chemical_potentials@[1] as int,
            z@[1] as int,
        ) <==> r is Ok,
        r matches Ok(v) ==> {
            &&& v@.len() == 2
            &&& v@[0] == balance_value(
                pressure as int,
                energy_density as int,
                bulk_density@[1] as int,
                chemical_potentials@[1] as int,
                chemical_potentials@[0] as int,
            ) as i64
            &&& v@[1] == div_value(
                size_target_value(
                    delta_n_surfactant as int,
                    bulk_density@[1] as int,
                    volume as int,
                ),
                z@[1] as int,
            ) as i64
        },
        r is Err ==> r == Err::<Vec<i64>, MicelleError>(MicelleError::NumericalReduction),
{
    let rho_s: i64 = bulk_density[1];
    let n_s_bulk: i64 = mul_fixed(rho_s, volume)?;
    let target: i64 = narrow((delta_n_surfactant as i128) + (n_s_bulk as i128))?;
    let r1: i64 = div_fixed(target, z[1])?;
    let m: i64 = mul_fixed(rho_s, chemical_potentials[1])?;
    let num: i64 = narrow((pressure as i128) + (energy_density as i128) - (m as i128))?;
    let r0: i64 = div_fixed(num, chemical_potentials[0])?;
    let mut v: Vec<i64> = Vec::new();
    v.push(r0);
    v.push(r1);
    Ok(v)
}

impl MicelleSpecification {
    /// Translates the inner solver's bulk-density estimate into the values
    /// to enforce. The chemical-potential rule passes the estimate through
    /// unchanged; the size rule probes a homogeneous trial state at the
    /// estimated densities and applies [`size_bulk_density`] to the probe.
    pub fn calculate_bulk_density<C: ConvolutionEngine, F: BulkEos<C>>(
        &self,
        eos: &F,
        temperature: i64,
        volume: i64,
        bulk_density: &Vec<i64>,
        z: &Vec<i64>,
    ) -> (r: Result<Vec<i64>, MicelleError>)
        requires
            self is Size ==> bulk_density@.len() == 2 && z@.len() == 2,
        ensures
            self is ChemicalPotential ==> (r matches Ok(v) && v@ == bulk_density@),
            self is Size ==> (r matches Ok(v) ==> v@.len() == 2),
            self matches MicelleSpecification::Size { delta_n_surfactant, pressure } ==> (
            r matches Ok(v) ==> v@[1] == div_value(
                size_target_value(
                    delta_n_surfactant as int,
                    bulk_density@[1] as int,
                    volume as int,
                ),
                z@[1] as int,
            ) as i64),
    {
        match self {
            MicelleSpecification::ChemicalPotential => Ok(copy_values(bulk_density)),
            MicelleSpecification::Size { delta_n_surfactant, pressure } => {
                let probe = eos.probe_nvt(temperature, bulk_density)?;
                size_bulk_density(
                    *delta_n_surfactant,
                    *pressure,
                    volume,
                    bulk_density,
                    z,
                    probe.energy_density,
                    &probe.chemical_potentials,
                )
            },
        }
    }
}

} // verus!
