//! Two-dimensional fields over the radial grid.
//!
//! A [`Field`] holds one value per (component, grid point) pair, in row-major
//! order: the density field and the external potential of a profile are both
//! fields. The interior representation is a flat vector so that every access
//! and every mutation is verified against the same indexing model.

use vstd::prelude::*;

use crate::error::MicelleError;

verus! {

/// A value per (component, grid point) pair, in physical reduced units.
pub struct Field {
    /// Number of components (rows).
    pub components: usize,
    /// Number of grid points (columns).
    pub points: usize,
    /// Row-major storage: the entry of component `i` at point `k` stands at
    /// `i * points + k`.
    pub data: Vec<i64>,
}

/// Row-major indices stay inside the storage.
proof fn lemma_row_major(i: int, k: int, c: int, p: int)
    requires
        0 <= i < c,
        0 <= k < p,
    ensures
        0 <= i * p + k < c * p,
{
    assert(0 <= i * p + k < c * p) by (nonlinear_arith)
        requires
            0 <= i < c,
            0 <= k < p,
    ;
}

/// Row-major indexing is injective over the field's shape.
proof fn lemma_row_major_injective(i1: int, k1: int, i2: int, k2: int, p: int)
    requires
        0 <= k1 < p,
        0 <= k2 < p,
        0 <= i1,
        0 <= i2,
        i1 * p + k1 == i2 * p + k2,
    ensures
        i1 == i2 && k1 == k2,
{
    assert(i1 == i2 && k1 == k2) by (nonlinear_arith)
        requires
            0 <= k1 < p,
            0 <= k2 < p,
            0 <= i1,
            0 <= i2,
            i1 * p + k1 == i2 * p + k2,
    ;
}

impl Field {
    /// The storage matches the declared shape.
    pub open spec fn wf(self) -> bool {
        self.data@.len() == self.components * self.points
    }

    /// The value of component `i` at grid point `k`.
    pub open spec fn at(self, i: int, k: int) -> i64 {
        self.data@[i * self.points + k]
    }

    /// Both fields have the same shape.
    pub open spec fn same_shape(self, other: Field) -> bool {
        self.components == other.components && self.points == other.points
    }

    /// Both fields have the same shape and the same values everywhere.
    pub open spec fn same_values(self, other: Field) -> bool {
        self.same_shape(other) && forall|i: int, k: int|
            0 <= i < self.components && 0 <= k < self.points ==> self.at(i, k) == other.at(i, k)
    }

    /// A field of the given shape holding `value` everywhere.
    pub fn constant(components: usize, points: usize, value: i64) -> (r: Field)
        requires
            components * points <= usize::MAX,
        ensures
            r.wf(),
            r.components == components,
            r.points == points,
            forall|i: int, k: int|
                0 <= i < components && 0 <= k < points ==> r.at(i, k) == value,
    {
        proof {
            assert(components * points <= usize::MAX) by (nonlinear_arith)
                requires
                    components * points <= usize::MAX,
            ;
        }
        let total: usize = components * points;
        let mut data: Vec<i64> = Vec::new();
        let mut j: usize = 0;
        while j < total
            invariant
                j <= total,
                data@.len() == j,
                forall|q: int| 0 <= q < j ==> data@[q] == value,
            decreases total - j,
        {
            data.push(value);
            j = j + 1;
        }
        let r = Field { components, points, data };
        proof {
            assert forall|i: int, k: int|
                0 <= i < components && 0 <= k < points implies r.at(i, k) == value by {
                lemma_row_major(i, k, components as int, points as int);
            }
        }
        r
    }

    /// Reads the value of component `i` at grid point `k`.
    pub fn get(&self, i: usize, k: usize) -> (r: i64)
        requires
            self.wf(),
            i < self.components,
            k < self.points,
        ensures
            r == self.at(i as int, k as int),
    {
        let storage: usize = self.data.len();
        proof {
            assert(self.components * self.points == storage);
            lemma_row_major(i as int, k as int, self.components as int, self.points as int);
        }
        let idx: usize = i * self.points + k;
        self.data[idx]
    }

    /// Writes `value` for component `i` at grid point `k`, leaving every
    /// other entry unchanged.
    pub fn store(&mut self, i: usize, k: usize, value: i64)
        requires
            old(self).wf(),
            i < old(self).components,
            k < old(self).points,
        ensures
            final(self).wf(),
            final(self).same_shape(*old(self)),
            final(self).at(i as int, k as int) == value,
            forall|i2: int, k2: int|
                0 <= i2 < old(self).components && 0 <= k2 < old(self).points && !(i2 == i && k2
                    == k) ==> final(self).at(i2, k2) == old(self).at(i2, k2),
    {
        let storage: usize = self.data.len();
        proof {
            assert(self.components * self.points == storage);
            lemma_row_major(i as int, k as int, self.components as int, self.points as int);
        }
        let idx: usize = i * self.points + k;
        self.data.set(idx, value);
        proof {
            assert forall|i2: int, k2: int|
                0 <= i2 < self.components && 0 <= k2 < self.points && !(i2 == i && k2 == k) implies
                self.at(i2, k2) == old(self).at(i2, k2) by {
                lemma_row_major(i2, k2, self.components as int, self.points as int);
                if i2 * self.points + k2 == i * self.points + k {
                    lemma_row_major_injective(i2, k2, i as int, k as int, self.points as int);
                }
            }
        }
    }

    /// Overwrites every entry with `value`.
    pub fn fill(&mut self, value: i64)
        requires
            old(self).wf(),
        ensures
            final(self).wf(),
            final(self).same_shape(*old(self)),
            forall|i: int, k: int|
                0 <= i < final(self).components && 0 <= k < final(self).points ==> final(self).at(
                    i,
                    k,
                ) == value,
    {
        let total: usize = self.data.len();
        let mut j: usize = 0;
        while j < total
            invariant
                j <= total,
                self.data@.len() == total,
                self.components == old(self).components,
                self.points == old(self).points,
                self.wf(),
                forall|q: int| 0 <= q < j ==> self.data@[q] == value,
            decreases total - j,
        {
            self.data.set(j, value);
            j = j + 1;
        }
        proof {
            assert forall|i: int, k: int|
                0 <= i < self.components && 0 <= k < self.points implies self.at(i, k) == value by {
                lemma_row_major(i, k, self.components as int, self.points as int);
            }
        }
    }

    /// Adds the same `delta` to every grid point of component `i` — the rigid
    /// shift of the outer search. Fails, leaving the field unchanged, when a
    /// shifted value falls outside the representable range.
    pub fn shift_component(&mut self, i: usize, delta: i64) -> (r: Result<(), MicelleError>)
        requires
            old(self).wf(),
            i < old(self).components,
        ensures
            final(self).wf(),
            final(self).same_shape(*old(self)),
            r == Ok::<(), MicelleError>(()) <==> forall|k: int|
                0 <= k < old(self).points ==> crate::fixed::in_i64(
                    old(self).at(i as int, k) + delta,
                ),
            r is Ok ==> forall|k: int|
                0 <= k < old(self).points ==> final(self).at(i as int, k) == old(self).at(
                    i as int,
                    k,
                ) + delta,
            forall|i2: int, k: int|
                0 <= i2 < old(self).components && i2 != i && 0 <= k < old(self).points
                    ==> final(self).at(i2, k) == old(self).at(i2, k),
            r is Err ==> final(self).same_values(*old(self))
                && r == Err::<(), MicelleError>(MicelleError::NumericalReduction),
    {
        let points: usize = self.points;
        let mut k: usize = 0;
        while k < points
            invariant
                k <= points,
                self == old(self),
                self.wf(),
                i < self.components,
                points == self.points,
                forall|q: int| 0 <= q < k ==> crate::fixed::in_i64(self.at(i as int, q) + delta),
            decreases points - k,
        {
            let v = self.get(i, k);
            if v.checked_add(delta).is_none() {
                return Err(MicelleError::NumericalReduction);
            }
            k = k + 1;
        }
        let mut k: usize = 0;
        while k < points
            invariant
                k <= points,
                self.wf(),
                self.same_shape(*old(self)),
                i < self.components,
                points == self.points,
                forall|q: int| 0 <= q < points ==> crate::fixed::in_i64(old(self).at(i as int, q) + delta),
                forall|q: int| 0 <= q < k ==> self.at(i as int, q) == old(self).at(i as int, q) + delta,
                forall|q: int| k <= q < points ==> self.at(i as int, q) == old(self).at(i as int, q),
                forall|i2: int, q: int|
                    0 <= i2 < self.components && i2 != i && 0 <= q < points ==> self.at(i2, q)
                        == old(self).at(i2, q),
            decreases points - k,
        {
            let v = self.get(i, k);
            self.store(i, k, v + delta);
            k = k + 1;
        }
        Ok(())
    }

    /// The two fields hold the same shape and the same storage.
    pub open spec fn identical(self, other: Field) -> bool {
        self.same_shape(other) && self.data@ == other.data@
    }

    /// An independent deep copy: same shape, same values, separate storage.
    pub fn duplicate(&self) -> (r: Field)
        ensures
            r.same_values(*self),
            r.identical(*self),
    {
        let total: usize = self.data.len();
        let mut data: Vec<i64> = Vec::new();
        let mut j: usize = 0;
        while j < total
            invariant
                j <= total,
                total == self.data@.len(),
                data@.len() == j,
                forall|q: int| 0 <= q < j ==> data@[q] == self.data@[q],
            decreases total - j,
        {
            data.push(self.data[j]);
            j = j + 1;
        }
        proof {
            assert(data@ =~= self.data@);
        }
        let r = Field { components: self.components, points: self.points, data };
        proof {
            assert forall|i: int, k: int|
                0 <= i < self.components && 0 <= k < self.points implies r.at(i, k) == self.at(
                i,
                k,
            ) by {
                lemma_row_major(i, k, self.components as int, self.points as int);
            }
        }
        r
    }
}

/// A rigid additive shift of one component preserves the interior shape:
/// the difference between any two grid points of the shifted component is
/// the difference between the same points before the shift.
pub proof fn lemma_rigid_shift_preserves_shape(
    before: Field,
    after: Field,
    i: int,
    delta: int,
    k1: int,
    k2: int,
)
    requires
        before.same_shape(after),
        0 <= i < before.components,
        0 <= k1 < before.points,
        0 <= k2 < before.points,
        after.at(i, k1) == before.at(i, k1) + delta,
        after.at(i, k2) == before.at(i, k2) + delta,
    ensures
        after.at(i, k1) - after.at(i, k2) == before.at(i, k1) - before.at(i, k2),
{
}

} // verus!
