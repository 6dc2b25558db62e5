//! `SysVec`: a fixed-length vector of fixed-point scalars paired with
//! per-component lower and upper bounds, enforced by clamping.
//!
//! The length is a const generic, so a vector can only ever be combined
//! with matrices of the matching dimension. Values may transiently leave
//! the bounds between `set_val` and the next `clamp`; every path of the
//! simulation's update protocol clamps before it reads or publishes.

use vstd::prelude::*;

use crate::fx::Fx;
use crate::fx::copy_fx_vec;
use crate::fx::fill;
use crate::fx::fx_clamp_v;
use crate::fx::raws;

verus! {

/// Mathematical content of a [`SysVec`]: the raw fixed-point values of the
/// vector and of its two bounds.
#[verifier::ext_equal]
pub ghost struct SysVecView {
    pub val: Seq<int>,
    pub lb: Seq<int>,
    pub ub: Seq<int>,
}

/// Per-component clamp of `v` to `[lo, hi]`.
pub open spec fn clamp_seq(v: Seq<int>, lo: Seq<int>, hi: Seq<int>) -> Seq<int> {
    Seq::new(v.len(), |i: int| fx_clamp_v(v[i], lo[i], hi[i]))
}

/// A vector view after its value has been clamped to its own bounds.
pub open spec fn clamp_view(s: SysVecView) -> SysVecView {
    SysVecView { val: clamp_seq(s.val, s.lb, s.ub), lb: s.lb, ub: s.ub }
}

/// A vector view whose three component sequences all have length `n`.
pub open spec fn vec_wf(s: SysVecView, n: int) -> bool {
    s.val.len() == n && s.lb.len() == n && s.ub.len() == n
}

/// A fixed-length vector of scalars with per-component bounds.
///
/// Fresh vectors carry the sentinel bounds [`Fx::min_value`] and
/// [`Fx::max_value`], making "unbounded" the default.
#[derive(Clone, Debug)]
pub struct SysVec<const N: usize> {
    val: Vec<Fx>,
    lb: Vec<Fx>,
    ub: Vec<Fx>,
}

impl<const N: usize> View for SysVec<N> {
    type V = SysVecView;

    closed spec fn view(&self) -> SysVecView {
        SysVecView { val: raws(self.val@), lb: raws(self.lb@), ub: raws(self.ub@) }
    }
}

impl<const N: usize> SysVec<N> {
    /// All three component sequences have the declared length.
    pub open spec fn wf(self) -> bool {
        vec_wf(self@, N as int)
    }

    /// A zero vector with the sentinel (effectively unbounded) bounds.
    pub fn new() -> (r: SysVec<N>)
        ensures
            r.wf(),
            forall|i: int| 0 <= i < N ==> r@.val[i] == 0,
            forall|i: int| 0 <= i < N ==> r@.lb[i] == i64::MIN as int,
            forall|i: int| 0 <= i < N ==> r@.ub[i] == i64::MAX as int,
    {
        SysVec {
            val: fill(N, Fx::zero()),
            lb: fill(N, Fx::min_value()),
            ub: fill(N, Fx::max_value()),
        }
    }

    /// Every component set to `val`, with the sentinel bounds.
    pub fn from_val(val: Fx) -> (r: SysVec<N>)
        ensures
            r.wf(),
            forall|i: int| 0 <= i < N ==> r@.val[i] == val@,
            forall|i: int| 0 <= i < N ==> r@.lb[i] == i64::MIN as int,
            forall|i: int| 0 <= i < N ==> r@.ub[i] == i64::MAX as int,
    {
        SysVec { val: fill(N, val), lb: fill(N, Fx::min_value()), ub: fill(N, Fx::max_value()) }
    }

    /// Every component of value, lower bound and upper bound set to the
    /// given scalars (a broadcast; no per-component variation here).
    pub fn from_scalars(val: Fx, lb: Fx, ub: Fx) -> (r: SysVec<N>)
        ensures
            r.wf(),
            forall|i: int| 0 <= i < N ==> r@.val[i] == val@,
            forall|i: int| 0 <= i < N ==> r@.lb[i] == lb@,
            forall|i: int| 0 <= i < N ==> r@.ub[i] == ub@,
    {
        SysVec { val: fill(N, val), lb: fill(N, lb), ub: fill(N, ub) }
    }

    /// Replace the value vector; the bounds are untouched and no clamp is
    /// applied, so the new value may lie outside them until the next clamp.
    pub fn set_val(&mut self, val: Vec<Fx>)
        requires
            old(self).wf(),
            val@.len() == N,
        ensures
            final(self).wf(),
            final(self)@.val == raws(val@),
            final(self)@.lb == old(self)@.lb,
            final(self)@.ub == old(self)@.ub,
    {
        self.val = val;
    }

    /// Replace the lower-bound vector; no clamp is applied.
    pub fn set_lb(&mut self, lb: Vec<Fx>)
        requires
            old(self).wf(),
            lb@.len() == N,
        ensures
            final(self).wf(),
            final(self)@.lb == raws(lb@),
            final(self)@.val == old(self)@.val,
            final(self)@.ub == old(self)@.ub,
    {
        self.lb = lb;
    }

    /// Replace the upper-bound vector; no clamp is applied.
    pub fn set_ub(&mut self, ub: Vec<Fx>)
        requires
            old(self).wf(),
            ub@.len() == N,
        ensures
            final(self).wf(),
            final(self)@.ub == raws(ub@),
            final(self)@.val == old(self)@.val,
            final(self)@.lb == old(self)@.lb,
    {
        self.ub = ub;
    }

    /// A copy of the value vector.
    pub fn get_val(&self) -> (r: Vec<Fx>)
        ensures
            raws(r@) == self@.val,
            r@.len() == self@.val.len(),
    {
        copy_fx_vec(&self.val)
    }

    /// A copy of the lower-bound vector.
    pub fn get_lb(&self) -> (r: Vec<Fx>)
        ensures
            raws(r@) == self@.lb,
            r@.len() == self@.lb.len(),
    {
        copy_fx_vec(&self.lb)
    }

    /// A copy of the upper-bound vector.
    pub fn get_ub(&self) -> (r: Vec<Fx>)
        ensures
            raws(r@) == self@.ub,
            r@.len() == self@.ub.len(),
    {
        copy_fx_vec(&self.ub)
    }

    /// Clamp every component to its bounds, in place and independently.
    ///
    /// Wherever `lb[i] <= ub[i]`, the result satisfies
    /// `lb[i] <= val[i] <= ub[i]`. Inverted bounds (`lb[i] > ub[i]`) are a
    /// caller misconfiguration: the component deterministically becomes
    /// `ub[i]`, because the upper cap is applied last (see [`fx_clamp_v`]).
    pub fn clamp(&mut self)
        requires
            old(self).wf(),
        ensures
            final(self).wf(),
            final(self)@ == clamp_view(old(self)@),
            forall|i: int|
                0 <= i < N && old(self)@.lb[i] <= old(self)@.ub[i] ==> old(self)@.lb[i]
                    <= final(self)@.val[i] <= old(self)@.ub[i],
    {
        let ghost v0 = self@;
        let mut i: usize = 0;
        while i < N
            invariant
                i <= N,
                self.val@.len() == N,
                self.lb@.len() == N,
                self.ub@.len() == N,
                self@.lb == v0.lb,
                self@.ub == v0.ub,
                v0.val.len() == N,
                forall|j: int|
                    0 <= j < i ==> self.val@[j]@ == fx_clamp_v(v0.val[j], v0.lb[j], v0.ub[j]),
                forall|j: int| i <= j < N ==> self.val@[j]@ == v0.val[j],
            decreases N - i,
        {
            proof {
                assert(self@.lb[i as int] == v0.lb[i as int]);
                assert(self@.ub[i as int] == v0.ub[i as int]);
                assert(self.lb@[i as int]@ == v0.lb[i as int]);
                assert(self.ub@[i as int]@ == v0.ub[i as int]);
            }
            let c = self.val[i].clamped(self.lb[i], self.ub[i]);
            self.val.set(i, c);
            i += 1;
        }
        proof {
            assert(self@.val =~= clamp_seq(v0.val, v0.lb, v0.ub));
            assert(self@ =~= clamp_view(v0));
        }
    }

    /// Assign a new value vector, then clamp it to the bounds. This is the
    /// sole mutation path the simulation step uses for state and output.
    pub fn update(&mut self, val: Vec<Fx>)
        requires
            old(self).wf(),
            val@.len() == N,
        ensures
            final(self).wf(),
            final(self)@ == clamp_view(
                SysVecView { val: raws(val@), lb: old(self)@.lb, ub: old(self)@.ub },
            ),
    {
        self.val = val;
        self.clamp();
    }
}

impl<const N: usize> Default for SysVec<N> {
    /// Same as [`SysVec::new`].
    fn default() -> (r: SysVec<N>)
        ensures
            r.wf(),
            forall|i: int| 0 <= i < N ==> r@.val[i] == 0,
            forall|i: int| 0 <= i < N ==> r@.lb[i] == i64::MIN as int,
            forall|i: int| 0 <= i < N ==> r@.ub[i] == i64::MAX as int,
    {
        SysVec::new()
    }
}

/// Law: clamping is idempotent. Clamping a vector that has already been
/// clamped to the same bounds changes nothing, so one `clamp` call and two
/// in succession leave the same value.
pub proof fn lemma_clamp_idempotent(s: SysVecView)
    ensures
        clamp_view(clamp_view(s)) == clamp_view(s),
{
    assert(clamp_seq(clamp_seq(s.val, s.lb, s.ub), s.lb, s.ub) =~= clamp_seq(s.val, s.lb, s.ub));
    assert(clamp_view(clamp_view(s)) =~= clamp_view(s));
}

} // verus!
