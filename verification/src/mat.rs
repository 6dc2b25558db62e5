//! `Mat`: a dense matrix of fixed-point scalars with compile-time
//! dimensions, together with the saturating fixed-point linear algebra the
//! simulation step needs (dot product, matrix–vector product,
//! component-wise sum and scaling).
//!
//! Dimensions are const generics, so a product of mismatched shapes is a
//! type error, never a runtime fault.

use vstd::prelude::*;

use crate::fx::Fx;
use crate::fx::copy_fx_vec;
use crate::fx::fill;
use crate::fx::fx_add_v;
use crate::fx::fx_mul_v;
use crate::fx::raws;

verus! {

/// Saturating dot product of the first `n` components of `a` and `b`,
/// accumulated left to right starting from zero.
pub open spec fn dot_to(a: Seq<int>, b: Seq<int>, n: int) -> int
    decreases n,
{
    if n <= 0 {
        0
    } else {
        fx_add_v(dot_to(a, b, n - 1), fx_mul_v(a[n - 1], b[n - 1]))
    }
}

/// Saturating dot product of two equal-length sequences.
pub open spec fn dot_v(a: Seq<int>, b: Seq<int>) -> int {
    dot_to(a, b, a.len() as int)
}

/// Matrix–vector product under saturating fixed-point arithmetic: one dot
/// product per row.
pub open spec fn mat_vec_v(m: Seq<Seq<int>>, v: Seq<int>) -> Seq<int> {
    Seq::new(m.len(), |i: int| dot_v(m[i], v))
}

/// Component-wise saturating sum of two equal-length sequences.
pub open spec fn add_seq(a: Seq<int>, b: Seq<int>) -> Seq<int> {
    Seq::new(a.len(), |i: int| fx_add_v(a[i], b[i]))
}

/// Every component multiplied by the scalar `k`, saturating.
pub open spec fn scale_seq(a: Seq<int>, k: int) -> Seq<int> {
    Seq::new(a.len(), |i: int| fx_mul_v(a[i], k))
}

/// A matrix view has exactly `r` rows of `c` entries each.
pub open spec fn mat_wf(m: Seq<Seq<int>>, r: int, c: int) -> bool {
    m.len() == r && (forall|i: int| 0 <= i < r ==> m[i].len() == c)
}

/// A dense `R` by `C` matrix of fixed-point scalars, stored by rows.
#[derive(Clone, Debug)]
pub struct Mat<const R: usize, const C: usize> {
    rows: Vec<Vec<Fx>>,
}

impl<const R: usize, const C: usize> View for Mat<R, C> {
    type V = Seq<Seq<int>>;

    closed spec fn view(&self) -> Seq<Seq<int>> {
        Seq::new(self.rows@.len(), |i: int| raws(self.rows@[i]@))
    }
}

impl<const R: usize, const C: usize> Mat<R, C> {
    /// The matrix has exactly `R` rows of `C` entries each.
    pub open spec fn wf(self) -> bool {
        mat_wf(self@, R as int, C as int)
    }

    /// The all-zero matrix.
    pub fn zeros() -> (r: Mat<R, C>)
        ensures
            r.wf(),
            forall|i: int, j: int| 0 <= i < R && 0 <= j < C ==> r@[i][j] == 0,
    {
        let mut rows: Vec<Vec<Fx>> = Vec::new();
        let mut i: usize = 0;
        while i < R
            invariant
                i <= R,
                rows@.len() == i,
                forall|k: int| 0 <= k < i ==> rows@[k]@.len() == C,
                forall|k: int, j: int| 0 <= k < i && 0 <= j < C ==> rows@[k]@[j]@ == 0,
            decreases R - i,
        {
            rows.push(fill(C, Fx::zero()));
            i += 1;
        }
        Mat { rows }
    }

    /// A matrix whose entries are the given rows.
    pub fn from_rows(rows: Vec<Vec<Fx>>) -> (r: Mat<R, C>)
        requires
            rows@.len() == R,
            forall|i: int| 0 <= i < R ==> rows@[i]@.len() == C,
        ensures
            r.wf(),
            forall|i: int| 0 <= i < R ==> r@[i] == raws(rows@[i]@),
            forall|i: int, j: int| 0 <= i < R && 0 <= j < C ==> r@[i][j] == rows@[i]@[j]@,
    {
        Mat { rows }
    }

    /// The entry in row `i`, column `j`.
    pub fn get(&self, i: usize, j: usize) -> (r: Fx)
        requires
            self.wf(),
            i < R,
            j < C,
        ensures
            r@ == self@[i as int][j as int],
    {
        proof {
            assert(self@[i as int].len() == C);
            assert(raws(self.rows@[i as int]@).len() == self.rows@[i as int]@.len());
        }
        self.rows[i][j]
    }

    /// An independent copy.
    pub fn duplicate(&self) -> (r: Mat<R, C>)
        requires
            self.wf(),
        ensures
            r.wf(),
            r@ == self@,
    {
        let mut rows: Vec<Vec<Fx>> = Vec::new();
        let mut i: usize = 0;
        while i < R
            invariant
                i <= R,
                self.wf(),
                self.rows@.len() == R,
                rows@.len() == i,
                forall|k: int| 0 <= k < i ==> rows@[k]@ == self.rows@[k]@,
            decreases R - i,
        {
            rows.push(copy_fx_vec(&self.rows[i]));
            i += 1;
        }
        let r = Mat { rows };
        proof {
            assert(r@ =~~= self@);
        }
        r
    }

    /// The matrix–vector product `self · v` under saturating fixed-point
    /// arithmetic.
    pub fn mul_vec(&self, v: &Vec<Fx>) -> (r: Vec<Fx>)
        requires
            self.wf(),
            v@.len() == C,
        ensures
            r@.len() == R,
            raws(r@) == mat_vec_v(self@, raws(v@)),
    {
        let mut r: Vec<Fx> = Vec::new();
        let mut i: usize = 0;
        while i < R
            invariant
                i <= R,
                self.wf(),
                self.rows@.len() == R,
                v@.len() == C,
                r@.len() == i,
                forall|k: int| 0 <= k < i ==> r@[k]@ == dot_v(raws(self.rows@[k]@), raws(v@)),
            decreases R - i,
        {
            proof {
                assert(self@[i as int].len() == C);
                assert(raws(self.rows@[i as int]@).len() == self.rows@[i as int]@.len());
            }
            let d = dot(&self.rows[i], v);
            r.push(d);
            i += 1;
        }
        proof {
            assert forall|k: int| 0 <= k < R implies raws(r@)[k] == mat_vec_v(self@, raws(v@))[k] by {
                assert(raws(r@)[k] == r@[k]@);
                assert(self@[k] == raws(self.rows@[k]@));
            }
            assert(raws(r@) =~= mat_vec_v(self@, raws(v@)));
        }
        r
    }
}

impl<const N: usize> Mat<N, N> {
    /// The identity matrix: one whole unit on the diagonal, zero elsewhere.
    pub fn identity() -> (r: Mat<N, N>)
        ensures
            r.wf(),
            forall|i: int, j: int|
                0 <= i < N && 0 <= j < N ==> r@[i][j] == if i == j {
                    crate::fx::FX_SCALE as int
                } else {
                    0
                },
    {
        let mut rows: Vec<Vec<Fx>> = Vec::new();
        let mut i: usize = 0;
        while i < N
            invariant
                i <= N,
                rows@.len() == i,
                forall|k: int| 0 <= k < i ==> rows@[k]@.len() == N,
                forall|k: int, j: int|
                    0 <= k < i && 0 <= j < N ==> rows@[k]@[j]@ == if k == j {
                        crate::fx::FX_SCALE as int
                    } else {
                        0
                    },
            decreases N - i,
        {
            let mut row: Vec<Fx> = fill(N, Fx::zero());
            row.set(i, Fx::one());
            rows.push(row);
            i += 1;
        }
        Mat { rows }
    }
}

/// Saturating dot product of two equal-length vectors, accumulated left to
/// right from zero.
pub(crate) fn dot(a: &Vec<Fx>, b: &Vec<Fx>) -> (r: Fx)
    requires
        a@.len() == b@.len(),
    ensures
        r@ == dot_v(raws(a@), raws(b@)),
{
    let mut acc: Fx = Fx::zero();
    let mut k: usize = 0;
    while k < a.len()
        invariant
            k <= a@.len(),
            a@.len() == b@.len(),
            acc@ == dot_to(raws(a@), raws(b@), k as int),
        decreases a@.len() - k,
    {
        proof {
            assert(raws(a@)[k as int] == a@[k as int]@);
            assert(raws(b@)[k as int] == b@[k as int]@);
        }
        acc = acc.add(a[k].mul(b[k]));
        k += 1;
    }
    acc
}

/// Component-wise saturating sum of two equal-length vectors.
pub(crate) fn add_vecs(a: &Vec<Fx>, b: &Vec<Fx>) -> (r: Vec<Fx>)
    requires
        a@.len() == b@.len(),
    ensures
        r@.len() == a@.len(),
        raws(r@) == add_seq(raws(a@), raws(b@)),
{
    let mut r: Vec<Fx> = Vec::new();
    let mut i: usize = 0;
    while i < a.len()
        invariant
            i <= a@.len(),
            a@.len() == b@.len(),
            r@.len() == i,
            forall|k: int| 0 <= k < i ==> r@[k]@ == fx_add_v(a@[k]@, b@[k]@),
        decreases a@.len() - i,
    {
        r.push(a[i].add(b[i]));
        i += 1;
    }
    proof {
        assert(raws(r@) =~= add_seq(raws(a@), raws(b@)));
    }
    r
}

/// Every component multiplied by the scalar `k`, saturating.
pub(crate) fn scale_vec(a: &Vec<Fx>, k: Fx) -> (r: Vec<Fx>)
    ensures
        r@.len() == a@.len(),
        raws(r@) == scale_seq(raws(a@), k@),
{
    let mut r: Vec<Fx> = Vec::new();
    let mut i: usize = 0;
    while i < a.len()
        invariant
            i <= a@.len(),
            r@.len() == i,
            forall|j: int| 0 <= j < i ==> r@[j]@ == fx_mul_v(a@[j]@, k@),
        decreases a@.len() - i,
    {
        r.push(a[i].mul(k));
        i += 1;
    }
    proof {
        assert(raws(r@) =~= scale_seq(raws(a@), k@));
    }
    r
}

} // verus!
