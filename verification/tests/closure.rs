use micelles::axis::Axis;
use micelles::bulk::BulkState;
use micelles::capability::{BulkEos, ConvolutionEngine, FieldUpdate, ProbeResult, Proposal};
use micelles::error::MicelleError;
use micelles::field::Field;
use micelles::specification::MicelleSpecification;

/// An engine that never iterates: the closure tests exercise only the bulk
/// probe.
#[derive(Clone, Copy)]
struct IdleEngine;

impl ConvolutionEngine for IdleEngine {
    fn propose(
        &self,
        _temperature: i64,
        _axis: &Axis,
        _external_potential: &Field,
        density: &Field,
        bulk: &BulkState,
    ) -> Result<Proposal, MicelleError> {
        let mut bd: Vec<i64> = Vec::new();
        let mut z: Vec<i64> = Vec::new();
        for i in 0..density.components {
            bd.push(bulk.partial_density[i]);
            z.push(1_000_000);
        }
        Ok(Proposal { bulk_density: bd, z })
    }

    fn update(
        &self,
        _temperature: i64,
        _axis: &Axis,
        _external_potential: &Field,
        density: &Field,
        _bulk_density: &Vec<i64>,
        _verbose: bool,
    ) -> Result<FieldUpdate, MicelleError> {
        Ok(FieldUpdate { density: density.duplicate(), residual: 0 })
    }

    fn grand_potential_density(
        &self,
        _temperature: i64,
        axis: &Axis,
        _density: &Field,
    ) -> Result<Vec<i64>, MicelleError> {
        Ok(vec![0; axis.point_count])
    }
}

/// A linear model: fixed Helmholtz energy density and fixed chemical
/// potentials, enough to drive the size rule.
#[derive(Clone, Copy)]
struct ProbeEos {
    energy_density: i64,
    mu_solvent: i64,
    mu_surfactant: i64,
}

impl BulkEos<IdleEngine> for ProbeEos {
    fn build_state(
        &self,
        temperature: i64,
        pressure: i64,
        molefracs: &Vec<i64>,
    ) -> Result<BulkState, MicelleError> {
        Ok(BulkState {
            temperature,
            pressure,
            molefracs: molefracs.clone(),
            partial_density: molefracs.clone(),
            density: 1_000_000,
        })
    }

    fn probe_nvt(
        &self,
        _temperature: i64,
        partial_density: &Vec<i64>,
    ) -> Result<ProbeResult, MicelleError> {
        let mut mu: Vec<i64> = Vec::new();
        mu.push(self.mu_solvent);
        mu.push(self.mu_surfactant);
        for _ in 2..partial_density.len() {
            mu.push(0);
        }
        Ok(ProbeResult { energy_density: self.energy_density, chemical_potentials: mu })
    }

    fn dp_dn_v(&self, bulk: &BulkState) -> Result<Vec<i64>, MicelleError> {
        Ok(vec![0; bulk.partial_density.len()])
    }

    fn dmu_dn_v(&self, bulk: &BulkState) -> Result<Vec<i64>, MicelleError> {
        let n = bulk.partial_density.len();
        Ok(vec![0; n * n])
    }

    fn plan(&self, _axis: &Axis, _temperature: i64) -> Result<IdleEngine, MicelleError> {
        Ok(IdleEngine)
    }
}

#[test]
fn chemical_potential_rule_passes_estimate_through() {
    let eos = ProbeEos { energy_density: 0, mu_solvent: 1, mu_surfactant: 1 };
    let bd = vec![300_000, 400_000];
    let z = vec![1_000_000, 2_000_000];
    let spec = MicelleSpecification::ChemicalPotential;
    let r = spec
        .calculate_bulk_density::<IdleEngine, ProbeEos>(&eos, 1_000_000, 1_000_000, &bd, &z)
        .unwrap();
    assert_eq!(r, bd);
}

#[test]
fn size_rule_solves_grand_potential_balance() {
    let eos = ProbeEos { energy_density: 50_000, mu_solvent: 250_000, mu_surfactant: 125_000 };
    let bd = vec![300_000, 400_000];
    let z = vec![1_000_000, 2_000_000];
    let spec = MicelleSpecification::Size { delta_n_surfactant: 100_000, pressure: 150_000 };
    let r = spec
        .calculate_bulk_density::<IdleEngine, ProbeEos>(&eos, 1_000_000, 1_000_000, &bd, &z)
        .unwrap();
    // entry 1: (0.1 + 0.4 * 1.0) / 2.0 = 0.25
    // entry 0: (0.15 + 0.05 - 0.4 * 0.125) / 0.25 = 0.6
    assert_eq!(r, vec![600_000, 250_000]);
}

#[test]
fn size_rule_zero_solvent_potential_is_reduction_error() {
    let eos = ProbeEos { energy_density: 50_000, mu_solvent: 0, mu_surfactant: 125_000 };
    let bd = vec![300_000, 400_000];
    let z = vec![1_000_000, 2_000_000];
    let spec = MicelleSpecification::Size { delta_n_surfactant: 100_000, pressure: 150_000 };
    let r = spec.calculate_bulk_density::<IdleEngine, ProbeEos>(
        &eos, 1_000_000, 1_000_000, &bd, &z,
    );
    assert_eq!(r, Err(MicelleError::NumericalReduction));
}

#[test]
fn size_rule_zero_weighting_is_reduction_error() {
    let eos = ProbeEos { energy_density: 50_000, mu_solvent: 250_000, mu_surfactant: 125_000 };
    let bd = vec![300_000, 400_000];
    let z = vec![1_000_000, 0];
    let spec = MicelleSpecification::Size { delta_n_surfactant: 100_000, pressure: 150_000 };
    let r = spec.calculate_bulk_density::<IdleEngine, ProbeEos>(
        &eos, 1_000_000, 1_000_000, &bd, &z,
    );
    assert_eq!(r, Err(MicelleError::NumericalReduction));
}
