//! The homogeneous bulk state far from the micelle.

use vstd::prelude::*;

verus! {

/// A converged thermodynamic state of the homogeneous mixture, supplied by
/// the equation-of-state capability. It is owned by the profile that
/// references it and replaced wholesale — never mutated field by field —
/// on each outer iteration of the search.
pub struct BulkState {
    /// Temperature, in reduced units.
    pub temperature: i64,
    /// Total pressure, in reduced units.
    pub pressure: i64,
    /// Mole fraction of each component, as a fixed-point fraction.
    pub molefracs: Vec<i64>,
    /// Partial density of each component.
    pub partial_density: Vec<i64>,
    /// Total density of the mixture.
    pub density: i64,
}

impl BulkState {
    /// The state carries one entry per component.
    pub open spec fn wf(self, components: nat) -> bool {
        self.molefracs@.len() == components && self.partial_density@.len() == components
    }

    /// The two states hold the same values everywhere.
    pub open spec fn identical(self, other: BulkState) -> bool {
        &&& self.temperature == other.temperature
        &&& self.pressure == other.pressure
        &&& self.molefracs@ == other.molefracs@
        &&& self.partial_density@ == other.partial_density@
        &&& self.density == other.density
    }

    /// An independent deep copy of the state.
    pub fn duplicate(&self) -> (r: BulkState)
        ensures
            r.identical(*self),
    {
        BulkState {
            temperature: self.temperature,
            pressure: self.pressure,
            molefracs: copy_values(&self.molefracs),
            partial_density: copy_values(&self.partial_density),
            density: self.density,
        }
    }
}

/// An independent copy of a vector of values.
pub fn copy_values(v: &Vec<i64>) -> (r: Vec<i64>)
    ensures
        r@ == v@,
{
    let n: usize = v.len();
    let mut r: Vec<i64> = Vec::new();
    let mut j: usize = 0;
    while j < n
        invariant
            j <= n,
            n == v@.len(),
            r@ == v@.take(j as int),
        decreases n - j,
    {
        let x: i64 = v[j];
        proof {
            assert(v@.take(j as int).push(v@[j as int]) =~= v@.take(j as int + 1));
        }
        r.push(x);
        j = j + 1;
    }
    proof {
        assert(v@.take(n as int) =~= v@);
    }
    r
}

} // verus!
