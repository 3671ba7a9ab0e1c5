use micelles::axis::Axis;
use micelles::bulk::BulkState;
use micelles::capability::{BulkEos, ConvolutionEngine, FieldUpdate, ProbeResult, Proposal};
use micelles::error::{MicelleError, Operation};
use micelles::field::Field;
use micelles::micelle::{MicelleInitialization, MicelleProfile};
use micelles::profile::SolverSettings;
use micelles::specification::MicelleSpecification;

fn anchor_update(
    external_potential: &Field,
    density: &Field,
    bulk_density: &Vec<i64>,
) -> FieldUpdate {
    let c = density.components;
    let p = density.points;
    let mut out = Field::constant(c, p, 0);
    let mut residual: i64 = 0;
    for i in 0..c {
        let edge = density.get(i, p - 1);
        for k in 0..p {
            let dev = density.get(i, k) - edge;
            let seed = external_potential.get(i, k);
            let bump = if dev > seed { dev } else { seed };
            let mut target = bulk_density[i] + bump;
            if target < 0 {
                target = 0;
            }
            let diff = (target - density.get(i, k)).abs();
            if diff > residual {
                residual = diff;
            }
            out.store(i, k, target);
        }
    }
    FieldUpdate { density: out, residual }
}

fn anchor_proposal(density: &Field, bulk: &BulkState) -> Proposal {
    let mut bd: Vec<i64> = Vec::new();
    let mut z: Vec<i64> = Vec::new();
    for i in 0..density.components {
        bd.push(bulk.partial_density[i]);
        z.push(1_000_000);
    }
    Proposal { bulk_density: bd, z }
}

/// An engine whose excess grand potential vanishes when the far-field
/// surfactant density reaches 0.2: the grand-potential density is the same
/// in every cell and linear in the far-field density.
#[derive(Clone, Copy)]
struct CmcEngine;

impl ConvolutionEngine for CmcEngine {
    fn propose(
        &self,
        _temperature: i64,
        _axis: &Axis,
        _external_potential: &Field,
        density: &Field,
        bulk: &BulkState,
    ) -> Result<Proposal, MicelleError> {
        Ok(anchor_proposal(density, bulk))
    }

    fn update(
        &self,
        _temperature: i64,
        _axis: &Axis,
        external_potential: &Field,
        density: &Field,
        bulk_density: &Vec<i64>,
        _verbose: bool,
    ) -> Result<FieldUpdate, MicelleError> {
        Ok(anchor_update(external_potential, density, bulk_density))
    }

    fn grand_potential_density(
        &self,
        _temperature: i64,
        axis: &Axis,
        density: &Field,
    ) -> Result<Vec<i64>, MicelleError> {
        let edge = density.get(1, density.points - 1);
        Ok(vec![200_000 - edge; axis.point_count])
    }
}

/// An engine whose excess grand potential never moves: the search can only
/// exhaust its budget.
#[derive(Clone, Copy)]
struct StuckEngine;

impl ConvolutionEngine for StuckEngine {
    fn propose(
        &self,
        _temperature: i64,
        _axis: &Axis,
        _external_potential: &Field,
        density: &Field,
        bulk: &BulkState,
    ) -> Result<Proposal, MicelleError> {
        Ok(anchor_proposal(density, bulk))
    }

    fn update(
        &self,
        _temperature: i64,
        _axis: &Axis,
        external_potential: &Field,
        density: &Field,
        bulk_density: &Vec<i64>,
        _verbose: bool,
    ) -> Result<FieldUpdate, MicelleError> {
        Ok(anchor_update(external_potential, density, bulk_density))
    }

    fn grand_potential_density(
        &self,
        _temperature: i64,
        axis: &Axis,
        _density: &Field,
    ) -> Result<Vec<i64>, MicelleError> {
        Ok(vec![1_000_000; axis.point_count])
    }
}

/// A linear two-component model whose response derivatives match the
/// engine's grand potential, so the Newton step lands on the root.
#[derive(Clone, Copy)]
struct CmcEos;

impl BulkEos<CmcEngine> for CmcEos {
    fn build_state(
        &self,
        temperature: i64,
        pressure: i64,
        molefracs: &Vec<i64>,
    ) -> Result<BulkState, MicelleError> {
        Ok(BulkState {
            temperature,
            pressure,
            molefracs: molefracs.clone(),
            partial_density: molefracs.clone(),
            density: 1_000_000,
        })
    }

    fn probe_nvt(
        &self,
        _temperature: i64,
        partial_density: &Vec<i64>,
    ) -> Result<ProbeResult, MicelleError> {
        Ok(ProbeResult {
            energy_density: 0,
            chemical_potentials: vec![0; partial_density.len()],
        })
    }

    fn dp_dn_v(&self, bulk: &BulkState) -> Result<Vec<i64>, MicelleError> {
        Ok(vec![5_000_000; bulk.partial_density.len()])
    }

    fn dmu_dn_v(&self, _bulk: &BulkState) -> Result<Vec<i64>, MicelleError> {
        Ok(vec![0, 0, 0, 5_120_000_000])
    }

    fn plan(&self, _axis: &Axis, _temperature: i64) -> Result<CmcEngine, MicelleError> {
        Ok(CmcEngine)
    }
}

#[derive(Clone, Copy)]
struct StuckEos;

impl BulkEos<StuckEngine> for StuckEos {
    fn build_state(
        &self,
        temperature: i64,
        pressure: i64,
        molefracs: &Vec<i64>,
    ) -> Result<BulkState, MicelleError> {
        Ok(BulkState {
            temperature,
            pressure,
            molefracs: molefracs.clone(),
            partial_density: molefracs.clone(),
            density: 1_000_000,
        })
    }

    fn probe_nvt(
        &self,
        _temperature: i64,
        partial_density: &Vec<i64>,
    ) -> Result<ProbeResult, MicelleError> {
        Ok(ProbeResult {
            energy_density: 0,
            chemical_potentials: vec![0; partial_density.len()],
        })
    }

    fn dp_dn_v(&self, bulk: &BulkState) -> Result<Vec<i64>, MicelleError> {
        Ok(vec![5_000_000; bulk.partial_density.len()])
    }

    fn dmu_dn_v(&self, _bulk: &BulkState) -> Result<Vec<i64>, MicelleError> {
        Ok(vec![0, 0, 0, 5_120_000_000])
    }

    fn plan(&self, _axis: &Axis, _temperature: i64) -> Result<StuckEngine, MicelleError> {
        Ok(StuckEngine)
    }
}

fn surfactant_bulk(x_surfactant: i64) -> BulkState {
    BulkState {
        temperature: 1_000_000,
        pressure: 0,
        molefracs: vec![1_000_000 - x_surfactant, x_surfactant],
        partial_density: vec![1_000_000 - x_surfactant, x_surfactant],
        density: 1_000_000,
    }
}

fn seeded_density(bulk: &BulkState, points: usize, bump: i64) -> Field {
    let mut d = Field::constant(2, points, 0);
    for i in 0..2 {
        for k in 0..points {
            d.store(i, k, bulk.partial_density[i]);
        }
    }
    d.store(1, 0, bulk.partial_density[1] + bump);
    d
}

#[test]
fn critical_micelle_finds_the_vanishing_excess() {
    let bulk = surfactant_bulk(400_000);
    let density = seeded_density(&bulk, 8, 100_000);
    let profile = MicelleProfile::<CmcEos, CmcEngine>::new_spherical(
        CmcEos,
        bulk,
        8,
        8_000_000,
        MicelleInitialization::Density(density),
        MicelleSpecification::ChemicalPotential,
    )
    .unwrap();
    let solved = profile.solve(None).unwrap();
    let options = SolverSettings { max_iter: None, tol: Some(500_000) };
    let found = solved.critical_micelle(None, options).unwrap();
    assert_eq!(found.profile.specification, MicelleSpecification::ChemicalPotential);
    let omega = found.delta_omega.unwrap();
    // converged: |delta_omega| < tol * T with T = 1.0
    assert!(omega.abs() < 500_000);
    // the composition has moved to the root of the excess grand potential
    let x = found.profile.bulk.molefracs[1];
    assert!((x - 200_000).abs() < 5_000, "x = {}", x);
    // the excess surfactant count of the micelle is preserved by the shifts
    assert_eq!(found.delta_n.clone().unwrap()[1], 418_879);
}

#[test]
fn newton_step_lands_on_the_root() {
    // the values of one outer iteration of the converging search
    let delta_n = vec![0, 418_879];
    let dp = vec![5_000_000, 5_000_000];
    let dmu = vec![0, 0, 0, 5_120_000_000];
    let r = micelles::micelle::newton_mole_fraction(
        -428_932_096,
        &delta_n,
        &dp,
        &dmu,
        400_000,
        1_000_000,
    );
    assert_eq!(r, Ok(200_000));
}

#[test]
fn newton_step_zero_slope_is_reduction_error() {
    let delta_n = vec![0, 0];
    let dp = vec![5_000_000, 5_000_000];
    let dmu = vec![0, 0, 0, 0];
    let r = micelles::micelle::newton_mole_fraction(
        -428_932_096,
        &delta_n,
        &dp,
        &dmu,
        400_000,
        1_000_000,
    );
    assert_eq!(r, Err(MicelleError::NumericalReduction));
}

#[test]
fn critical_micelle_zero_budget_names_the_search() {
    let bulk = surfactant_bulk(400_000);
    let density = seeded_density(&bulk, 8, 100_000);
    let profile = MicelleProfile::<StuckEos, StuckEngine>::new_spherical(
        StuckEos,
        bulk,
        8,
        8_000_000,
        MicelleInitialization::Density(density),
        MicelleSpecification::ChemicalPotential,
    )
    .unwrap();
    let solved = profile.solve(None).unwrap();
    let options = SolverSettings { max_iter: Some(0), tol: Some(500_000) };
    let r = solved.critical_micelle(None, options);
    assert_eq!(
        r.map(|m| m.delta_omega),
        Err(MicelleError::NotConverged(Operation::CriticalMicelle))
    );
}

#[test]
fn critical_micelle_returns_a_converged_entry_unchanged() {
    let bulk = surfactant_bulk(400_000);
    let density = seeded_density(&bulk, 8, 100_000);
    let profile = MicelleProfile::<StuckEos, StuckEngine>::new_spherical(
        StuckEos,
        bulk,
        8,
        8_000_000,
        MicelleInitialization::Density(density),
        MicelleSpecification::ChemicalPotential,
    )
    .unwrap();
    let solved = profile.solve(None).unwrap();
    // a tolerance wide enough that the entry profile already satisfies it
    let omega = solved.delta_omega.unwrap();
    let dn = solved.delta_n.clone().unwrap();
    let row: Vec<i64> = (0..8).map(|k| solved.profile.density.get(1, k)).collect();
    let options = SolverSettings { max_iter: None, tol: Some(i64::MAX / 2_000_000) };
    let found = solved.critical_micelle(None, options).unwrap();
    assert_eq!(found.delta_omega, Some(omega));
    assert_eq!(found.delta_n, Some(dn));
    let row_after: Vec<i64> = (0..8).map(|k| found.profile.density.get(1, k)).collect();
    assert_eq!(row, row_after);
    assert_eq!(found.profile.specification, MicelleSpecification::ChemicalPotential);
}

#[test]
fn critical_micelle_from_pathological_start_exhausts_budget() {
    let bulk = surfactant_bulk(400_000);
    let density = seeded_density(&bulk, 8, 100_000);
    let profile = MicelleProfile::<StuckEos, StuckEngine>::new_spherical(
        StuckEos,
        bulk,
        8,
        8_000_000,
        MicelleInitialization::Density(density),
        MicelleSpecification::ChemicalPotential,
    )
    .unwrap();
    let solved = profile.solve(None).unwrap();
    let options = SolverSettings { max_iter: None, tol: Some(500_000) };
    let r = solved.critical_micelle(None, options);
    assert_eq!(
        r.map(|m| m.delta_omega),
        Err(MicelleError::NotConverged(Operation::CriticalMicelle))
    );
}

