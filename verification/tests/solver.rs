use micelles::axis::Axis;
use micelles::bulk::BulkState;
use micelles::capability::{BulkEos, ConvolutionEngine, FieldUpdate, ProbeResult, Proposal};
use micelles::error::{MicelleError, Operation};
use micelles::field::Field;
use micelles::micelle::{MicelleInitialization, MicelleProfile};
use micelles::profile::SolverSettings;
use micelles::specification::MicelleSpecification;

/// A relaxation engine: each update re-anchors every component to the
/// proposed bulk density, keeping whatever deviation from the far field the
/// profile has or the external potential seeds, whichever is larger. A
/// converged profile is a fixed point, so a second solve changes nothing.
#[derive(Clone, Copy)]
struct RelaxEngine;

fn relax_update(
    external_potential: &Field,
    density: &Field,
    bulk_density: &Vec<i64>,
) -> FieldUpdate {
    let c = density.components;
    let p = density.points;
    let mut out = Field::constant(c, p, 0);
    let mut residual: i64 = 0;
    for i in 0..c {
        let edge = density.get(i, p - 1);
        for k in 0..p {
            let dev = density.get(i, k) - edge;
            let seed = external_potential.get(i, k);
            let bump = if dev > seed { dev } else { seed };
            let mut target = bulk_density[i] + bump;
            if target < 0 {
                target = 0;
            }
            let diff = (target - density.get(i, k)).abs();
            if diff > residual {
                residual = diff;
            }
            out.store(i, k, target);
        }
    }
    FieldUpdate { density: out, residual }
}

impl ConvolutionEngine for RelaxEngine {
    fn propose(
        &self,
        _temperature: i64,
        _axis: &Axis,
        _external_potential: &Field,
        density: &Field,
        bulk: &BulkState,
    ) -> Result<Proposal, MicelleError> {
        let mut bd: Vec<i64> = Vec::new();
        let mut z: Vec<i64> = Vec::new();
        for i in 0..density.components {
            bd.push(bulk.partial_density[i]);
            z.push(1_000_000);
        }
        Ok(Proposal { bulk_density: bd, z })
    }

    fn update(
        &self,
        _temperature: i64,
        _axis: &Axis,
        external_potential: &Field,
        density: &Field,
        bulk_density: &Vec<i64>,
        _verbose: bool,
    ) -> Result<FieldUpdate, MicelleError> {
        Ok(relax_update(external_potential, density, bulk_density))
    }

    fn grand_potential_density(
        &self,
        _temperature: i64,
        axis: &Axis,
        density: &Field,
    ) -> Result<Vec<i64>, MicelleError> {
        let edge = density.get(1, density.points - 1);
        Ok(vec![200_000 - edge; axis.point_count])
    }
}

/// A linear two-component model over the relaxation engine.
#[derive(Clone, Copy)]
struct RelaxEos;

impl BulkEos<RelaxEngine> for RelaxEos {
    fn build_state(
        &self,
        temperature: i64,
        pressure: i64,
        molefracs: &Vec<i64>,
    ) -> Result<BulkState, MicelleError> {
        Ok(BulkState {
            temperature,
            pressure,
            molefracs: molefracs.clone(),
            partial_density: molefracs.clone(),
            density: 1_000_000,
        })
    }

    fn probe_nvt(
        &self,
        _temperature: i64,
        partial_density: &Vec<i64>,
    ) -> Result<ProbeResult, MicelleError> {
        Ok(ProbeResult {
            energy_density: 0,
            chemical_potentials: vec![0; partial_density.len()],
        })
    }

    fn dp_dn_v(&self, bulk: &BulkState) -> Result<Vec<i64>, MicelleError> {
        Ok(vec![5_000_000; bulk.partial_density.len()])
    }

    fn dmu_dn_v(&self, _bulk: &BulkState) -> Result<Vec<i64>, MicelleError> {
        Ok(vec![0, 0, 0, 5_120_000_000])
    }

    fn plan(&self, _axis: &Axis, _temperature: i64) -> Result<RelaxEngine, MicelleError> {
        Ok(RelaxEngine)
    }
}

/// An engine whose proposal fails with a collaborator error.
#[derive(Clone, Copy)]
struct FailingEngine;

impl ConvolutionEngine for FailingEngine {
    fn propose(
        &self,
        _temperature: i64,
        _axis: &Axis,
        _external_potential: &Field,
        _density: &Field,
        _bulk: &BulkState,
    ) -> Result<Proposal, MicelleError> {
        Err(MicelleError::Collaborator("weight functions unavailable".to_string()))
    }

    fn update(
        &self,
        _temperature: i64,
        _axis: &Axis,
        _external_potential: &Field,
        density: &Field,
        _bulk_density: &Vec<i64>,
        _verbose: bool,
    ) -> Result<FieldUpdate, MicelleError> {
        Ok(FieldUpdate { density: density.duplicate(), residual: 0 })
    }

    fn grand_potential_density(
        &self,
        _temperature: i64,
        axis: &Axis,
        _density: &Field,
    ) -> Result<Vec<i64>, MicelleError> {
        Ok(vec![0; axis.point_count])
    }
}

#[derive(Clone, Copy)]
struct FailingEos;

impl BulkEos<FailingEngine> for FailingEos {
    fn build_state(
        &self,
        temperature: i64,
        pressure: i64,
        molefracs: &Vec<i64>,
    ) -> Result<BulkState, MicelleError> {
        Ok(BulkState {
            temperature,
            pressure,
            molefracs: molefracs.clone(),
            partial_density: molefracs.clone(),
            density: 1_000_000,
        })
    }

    fn probe_nvt(
        &self,
        _temperature: i64,
        partial_density: &Vec<i64>,
    ) -> Result<ProbeResult, MicelleError> {
        Ok(ProbeResult {
            energy_density: 0,
            chemical_potentials: vec![0; partial_density.len()],
        })
    }

    fn dp_dn_v(&self, bulk: &BulkState) -> Result<Vec<i64>, MicelleError> {
        Ok(vec![0; bulk.partial_density.len()])
    }

    fn dmu_dn_v(&self, bulk: &BulkState) -> Result<Vec<i64>, MicelleError> {
        let n = bulk.partial_density.len();
        Ok(vec![0; n * n])
    }

    fn plan(&self, _axis: &Axis, _temperature: i64) -> Result<FailingEngine, MicelleError> {
        Ok(FailingEngine)
    }
}

fn flat_bulk(x_surfactant: i64) -> BulkState {
    BulkState {
        temperature: 1_000_000,
        pressure: 0,
        molefracs: vec![1_000_000 - x_surfactant, x_surfactant],
        partial_density: vec![1_000_000 - x_surfactant, x_surfactant],
        density: 1_000_000,
    }
}

/// A density field flat at the bulk, with a bump on the surfactant at the
/// innermost cell.
fn bumped_density(bulk: &BulkState, points: usize, bump: i64) -> Field {
    let mut d = Field::constant(2, points, 0);
    for i in 0..2 {
        for k in 0..points {
            d.store(i, k, bulk.partial_density[i]);
        }
    }
    d.store(1, 0, bulk.partial_density[1] + bump);
    d
}

#[test]
fn solve_reports_algebraic_excess_counts() {
    let bulk = flat_bulk(400_000);
    let density = bumped_density(&bulk, 8, 100_000);
    let profile = MicelleProfile::<RelaxEos, RelaxEngine>::new_spherical(
        RelaxEos,
        bulk,
        8,
        8_000_000,
        MicelleInitialization::Density(density),
        MicelleSpecification::ChemicalPotential,
    )
    .unwrap();
    let solved = profile.solve(None).unwrap();
    // delta_n = moles - bulk density * volume: zero for the flat solvent,
    // bump * innermost shell volume = 0.1 * 4_188_790 for the surfactant.
    let dn = solved.delta_n.clone().unwrap();
    assert_eq!(dn, vec![0, 418_879]);
    assert!(solved.delta_omega.is_some());
}

#[test]
fn solve_twice_changes_nothing() {
    let bulk = flat_bulk(400_000);
    let density = bumped_density(&bulk, 8, 100_000);
    let profile = MicelleProfile::<RelaxEos, RelaxEngine>::new_spherical(
        RelaxEos,
        bulk,
        8,
        8_000_000,
        MicelleInitialization::Density(density),
        MicelleSpecification::ChemicalPotential,
    )
    .unwrap();
    let once = profile.solve(None).unwrap();
    let row_once: Vec<i64> = (0..8).map(|k| once.profile.density.get(1, k)).collect();
    let omega_once = once.delta_omega;
    let dn_once = once.delta_n.clone();
    let twice = once.solve(None).unwrap();
    let row_twice: Vec<i64> = (0..8).map(|k| twice.profile.density.get(1, k)).collect();
    assert_eq!(row_once, row_twice);
    assert_eq!(omega_once, twice.delta_omega);
    assert_eq!(dn_once, twice.delta_n);
}

#[test]
fn update_specification_resets_derived_quantities() {
    let bulk = flat_bulk(400_000);
    let density = bumped_density(&bulk, 8, 100_000);
    let profile = MicelleProfile::<RelaxEos, RelaxEngine>::new_spherical(
        RelaxEos,
        bulk,
        8,
        8_000_000,
        MicelleInitialization::Density(density),
        MicelleSpecification::ChemicalPotential,
    )
    .unwrap();
    let solved = profile.solve(None).unwrap();
    assert!(solved.delta_omega.is_some());
    assert!(solved.delta_n.is_some());
    let swapped = solved.update_specification(MicelleSpecification::Size {
        delta_n_surfactant: 50_000,
        pressure: 0,
    });
    assert!(swapped.delta_omega.is_none());
    assert!(swapped.delta_n.is_none());
    // the original keeps its results and its own storage
    assert!(solved.delta_omega.is_some());
    let mut branched = swapped;
    branched.profile.density.store(1, 0, 77);
    assert_ne!(solved.profile.density.get(1, 0), 77);
}

#[test]
fn solve_micelle_clears_potential_and_keeps_peak() {
    let bulk = flat_bulk(100_000);
    let profile = MicelleProfile::<RelaxEos, RelaxEngine>::new_spherical(
        RelaxEos,
        bulk,
        8,
        8_000_000,
        MicelleInitialization::ExternalPotential(500_000, 2_000_000),
        MicelleSpecification::ChemicalPotential,
    )
    .unwrap();
    let solved = profile.solve_micelle(None, None).unwrap();
    // the potential is cleared between the two stages
    for i in 0..2 {
        for k in 0..8 {
            assert_eq!(solved.profile.external_potential.get(i, k), 0);
        }
    }
    // the surfactant stays peaked near the origin and decays to the bulk
    let near = solved.profile.density.get(1, 0);
    let far = solved.profile.density.get(1, 7);
    assert!(near > far);
    assert_eq!(far, 100_000);
    assert!(solved.delta_omega.is_some());
    assert!(solved.delta_n.clone().unwrap()[1] > 0);
}

#[test]
fn exhausted_budget_names_the_inner_solve() {
    let bulk = flat_bulk(400_000);
    let density = bumped_density(&bulk, 8, 100_000);
    let mut profile = MicelleProfile::<RelaxEos, RelaxEngine>::new_spherical(
        RelaxEos,
        bulk,
        8,
        8_000_000,
        MicelleInitialization::Density(density),
        MicelleSpecification::ChemicalPotential,
    )
    .unwrap();
    let settings = SolverSettings { max_iter: Some(0), tol: None };
    let r = profile.solve_inplace(Some(&settings), false);
    assert_eq!(r, Err(MicelleError::NotConverged(Operation::ProfileSolve)));
    assert!(profile.delta_omega.is_none());
}

#[test]
fn cylindrical_profile_solves_like_the_spherical_one() {
    let bulk = flat_bulk(400_000);
    let density = bumped_density(&bulk, 8, 100_000);
    let profile = MicelleProfile::<RelaxEos, RelaxEngine>::new_cylindrical(
        RelaxEos,
        bulk,
        8,
        8_000_000,
        MicelleInitialization::Density(density),
        MicelleSpecification::ChemicalPotential,
    )
    .unwrap();
    assert_eq!(profile.profile.axis.geometry, micelles::axis::Geometry::Cylindrical);
    let solved = profile.solve(None).unwrap();
    // innermost ring volume is pi step^2 = 3_141_592; the surfactant excess
    // is 0.1 of it, up to fixed-point truncation of the per-cell products
    let dn = solved.delta_n.clone().unwrap();
    assert!(dn[0].abs() <= 5, "dn0 = {}", dn[0]);
    assert!((dn[1] - 314_159).abs() <= 10, "dn1 = {}", dn[1]);
}

#[test]
fn collaborator_errors_pass_through_unchanged() {
    let bulk = flat_bulk(400_000);
    let density = bumped_density(&bulk, 8, 100_000);
    let mut profile = MicelleProfile::<FailingEos, FailingEngine>::new_spherical(
        FailingEos,
        bulk,
        8,
        8_000_000,
        MicelleInitialization::Density(density),
        MicelleSpecification::ChemicalPotential,
    )
    .unwrap();
    let r = profile.solve_inplace(None, false);
    assert_eq!(
        r,
        Err(MicelleError::Collaborator("weight functions unavailable".to_string()))
    );
}
