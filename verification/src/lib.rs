//! A verified discrete-time simulation step for linear, time-invariant
//! systems in state-space form: `x' = A x + B u`, `y = C x + D u`,
//! advanced by one explicit forward-Euler step per `update` call, with the
//! input, state and output vectors clamped to configurable per-component
//! bounds.
//!
//! All arithmetic is saturating fixed-point over [`Fx`] scalars, so every
//! operation is total and deterministic; the contract of
//! [`StateSpace::update`] pins the whole step down as the mathematical
//! function [`ss_step`] on the model's view.

use vstd::prelude::*;

mod fx;
mod mat;
mod sys_vec;

pub use fx::Fx;
pub use fx::FX_SCALE;
pub use fx::fx_add_v;
pub use fx::fx_clamp_v;
pub use fx::fx_div_trunc;
pub use fx::fx_mul_v;
pub use fx::fx_sat;
pub use fx::raws;
pub use mat::Mat;
pub use mat::mat_wf;
pub use mat::add_seq;
pub use mat::dot_to;
pub use mat::dot_v;
pub use mat::mat_vec_v;
pub use mat::scale_seq;
pub use sys_vec::SysVec;
pub use sys_vec::SysVecView;
pub use sys_vec::vec_wf;
pub use sys_vec::clamp_seq;
pub use sys_vec::clamp_view;
pub use sys_vec::lemma_clamp_idempotent;

use crate::mat::add_vecs;
use crate::mat::scale_vec;

verus! {

/// Mathematical content of a [`StateSpace`] model: the four system
/// matrices, the three bounded vectors and the time step, all as raw
/// fixed-point values.
#[verifier::ext_equal]
pub ghost struct SsView {
    pub a: Seq<Seq<int>>,
    pub b: Seq<Seq<int>>,
    pub c: Seq<Seq<int>>,
    pub d: Seq<Seq<int>>,
    pub u: SysVecView,
    pub x: SysVecView,
    pub y: SysVecView,
    pub dt: int,
}

/// One forward-Euler step on a model view.
///
/// The input and state are first clamped to their bounds; the derivative
/// `A·x0 + B·u0` and the output `C·x0 + D·u0` both use those pre-step
/// snapshots (the output deliberately reflects "now" while the state
/// reflects "next"). The new state `x0 + x'·dt` and the output are each
/// assigned through the clamping path; the input keeps its clamped value.
pub open spec fn ss_step(s: SsView) -> SsView {
    let u0 = clamp_seq(s.u.val, s.u.lb, s.u.ub);
    let x0 = clamp_seq(s.x.val, s.x.lb, s.x.ub);
    let x_dot = add_seq(mat_vec_v(s.a, x0), mat_vec_v(s.b, u0));
    let x1 = add_seq(x0, scale_seq(x_dot, s.dt));
    let y_now = add_seq(mat_vec_v(s.c, x0), mat_vec_v(s.d, u0));
    SsView {
        a: s.a,
        b: s.b,
        c: s.c,
        d: s.d,
        u: SysVecView { val: u0, lb: s.u.lb, ub: s.u.ub },
        x: SysVecView { val: clamp_seq(x1, s.x.lb, s.x.ub), lb: s.x.lb, ub: s.x.ub },
        y: SysVecView { val: clamp_seq(y_now, s.y.lb, s.y.ub), lb: s.y.lb, ub: s.y.ub },
        dt: s.dt,
    }
}

/// A linear, time-invariant system in state-space form with `NU` inputs,
/// `NX` states and `NY` outputs.
///
/// The matrix and vector dimensions are const generics, so a shape
/// mismatch cannot be constructed. The time step `dt` is a public field,
/// preset to one whole unit.
#[derive(Clone, Debug)]
pub struct StateSpace<const NU: usize, const NX: usize, const NY: usize> {
    a: Mat<NX, NX>,
    b: Mat<NX, NU>,
    c: Mat<NY, NX>,
    d: Mat<NY, NU>,
    u: SysVec<NU>,
    x: SysVec<NX>,
    y: SysVec<NY>,
    pub dt: Fx,
}

impl<const NU: usize, const NX: usize, const NY: usize> View for StateSpace<NU, NX, NY> {
    type V = SsView;

    closed spec fn view(&self) -> SsView {
        SsView {
            a: self.a@,
            b: self.b@,
            c: self.c@,
            d: self.d@,
            u: self.u@,
            x: self.x@,
            y: self.y@,
            dt: self.dt@,
        }
    }
}

impl<const NU: usize, const NX: usize, const NY: usize> StateSpace<NU, NX, NY> {
    /// Every matrix and vector has its declared dimensions.
    pub open spec fn wf(self) -> bool {
        &&& mat_wf(self@.a, NX as int, NX as int)
        &&& mat_wf(self@.b, NX as int, NU as int)
        &&& mat_wf(self@.c, NY as int, NX as int)
        &&& mat_wf(self@.d, NY as int, NU as int)
        &&& vec_wf(self@.u, NU as int)
        &&& vec_wf(self@.x, NX as int)
        &&& vec_wf(self@.y, NY as int)
    }

    /// A model with all-zero matrices, zero vectors under the sentinel
    /// bounds, and `dt` equal to one whole unit.
    pub fn new() -> (r: StateSpace<NU, NX, NY>)
        ensures
            r.wf(),
            forall|i: int, j: int| 0 <= i < NX && 0 <= j < NX ==> r@.a[i][j] == 0,
            forall|i: int, j: int| 0 <= i < NX && 0 <= j < NU ==> r@.b[i][j] == 0,
            forall|i: int, j: int| 0 <= i < NY && 0 <= j < NX ==> r@.c[i][j] == 0,
            forall|i: int, j: int| 0 <= i < NY && 0 <= j < NU ==> r@.d[i][j] == 0,
            forall|i: int| 0 <= i < NU ==> r@.u.val[i] == 0,
            forall|i: int| 0 <= i < NX ==> r@.x.val[i] == 0,
            forall|i: int| 0 <= i < NY ==> r@.y.val[i] == 0,
            forall|i: int|
                0 <= i < NU ==> r@.u.lb[i] == i64::MIN as int && r@.u.ub[i] == i64::MAX as int,
            forall|i: int|
                0 <= i < NX ==> r@.x.lb[i] == i64::MIN as int && r@.x.ub[i] == i64::MAX as int,
            forall|i: int|
                0 <= i < NY ==> r@.y.lb[i] == i64::MIN as int && r@.y.ub[i] == i64::MAX as int,
            r@.dt == FX_SCALE as int,
    {
        StateSpace {
            a: Mat::zeros(),
            b: Mat::zeros(),
            c: Mat::zeros(),
            d: Mat::zeros(),
            u: SysVec::new(),
            x: SysVec::new(),
            y: SysVec::new(),
            dt: Fx::one(),
        }
    }

    /// Replace the state matrix `A`.
    pub fn set_a(&mut self, mat: Mat<NX, NX>)
        requires
            old(self).wf(),
            mat.wf(),
        ensures
            final(self).wf(),
            final(self)@ == (SsView { a: mat@, ..old(self)@ }),
    {
        self.a = mat;
    }

    /// Replace the input matrix `B`.
    pub fn set_b(&mut self, mat: Mat<NX, NU>)
        requires
            old(self).wf(),
            mat.wf(),
        ensures
            final(self).wf(),
            final(self)@ == (SsView { b: mat@, ..old(self)@ }),
    {
        self.b = mat;
    }

    /// Replace the output matrix `C`.
    pub fn set_c(&mut self, mat: Mat<NY, NX>)
        requires
            old(self).wf(),
            mat.wf(),
        ensures
            final(self).wf(),
            final(self)@ == (SsView { c: mat@, ..old(self)@ }),
    {
        self.c = mat;
    }

    /// Replace the feedthrough matrix `D`.
    pub fn set_d(&mut self, mat: Mat<NY, NU>)
        requires
            old(self).wf(),
            mat.wf(),
        ensures
            final(self).wf(),
            final(self)@ == (SsView { d: mat@, ..old(self)@ }),
    {
        self.d = mat;
    }

    /// Replace the input vector `u`, bounds included; no clamp is applied
    /// until the next `update`.
    pub fn set_u(&mut self, vec: SysVec<NU>)
        requires
            old(self).wf(),
            vec.wf(),
        ensures
            final(self).wf(),
            final(self)@ == (SsView { u: vec@, ..old(self)@ }),
    {
        self.u = vec;
    }

    /// Replace the state vector `x`, bounds included; no clamp is applied
    /// until the next `update`.
    pub fn set_x(&mut self, vec: SysVec<NX>)
        requires
            old(self).wf(),
            vec.wf(),
        ensures
            final(self).wf(),
            final(self)@ == (SsView { x: vec@, ..old(self)@ }),
    {
        self.x = vec;
    }

    /// Replace the output vector `y`, bounds included.
    pub fn set_y(&mut self, vec: SysVec<NY>)
        requires
            old(self).wf(),
            vec.wf(),
        ensures
            final(self).wf(),
            final(self)@ == (SsView { y: vec@, ..old(self)@ }),
    {
        self.y = vec;
    }

    /// Replace the time step.
    pub fn set_dt(&mut self, dt: Fx)
        requires
            old(self).wf(),
        ensures
            final(self).wf(),
            final(self)@ == (SsView { dt: dt@, ..old(self)@ }),
    {
        self.dt = dt;
    }

    /// A copy of the state matrix `A`.
    pub fn get_a(&self) -> (r: Mat<NX, NX>)
        requires
            self.wf(),
        ensures
            r.wf(),
            r@ == self@.a,
    {
        self.a.duplicate()
    }

    /// A copy of the input matrix `B`.
    pub fn get_b(&self) -> (r: Mat<NX, NU>)
        requires
            self.wf(),
        ensures
            r.wf(),
            r@ == self@.b,
    {
        self.b.duplicate()
    }

    /// A copy of the output matrix `C`.
    pub fn get_c(&self) -> (r: Mat<NY, NX>)
        requires
            self.wf(),
        ensures
            r.wf(),
            r@ == self@.c,
    {
        self.c.duplicate()
    }

    /// A copy of the feedthrough matrix `D`.
    pub fn get_d(&self) -> (r: Mat<NY, NU>)
        requires
            self.wf(),
        ensures
            r.wf(),
            r@ == self@.d,
    {
        self.d.duplicate()
    }

    /// A copy of the input values.
    pub fn get_u(&self) -> (r: Vec<Fx>)
        ensures
            raws(r@) == self@.u.val,
            r@.len() == self@.u.val.len(),
    {
        self.u.get_val()
    }

    /// A copy of the state values.
    pub fn get_x(&self) -> (r: Vec<Fx>)
        ensures
            raws(r@) == self@.x.val,
            r@.len() == self@.x.val.len(),
    {
        self.x.get_val()
    }

    /// A copy of the output values.
    pub fn get_y(&self) -> (r: Vec<Fx>)
        ensures
            raws(r@) == self@.y.val,
            r@.len() == self@.y.val.len(),
    {
        self.y.get_val()
    }

    /// One forward-Euler integration step; the entire effect is
    /// [`ss_step`] on the model's view.
    ///
    /// Input and state are clamped first, the derivative and the output
    /// are computed from those snapshots, and the new state and output are
    /// stored through the assign-then-clamp path. `u` keeps its clamped
    /// value: inputs persist until the caller sets new ones.
    pub fn update(&mut self)
        requires
            old(self).wf(),
        ensures
            final(self).wf(),
            final(self)@ == ss_step(old(self)@),
    {
        let ghost s0 = self@;
        self.u.clamp();
        self.x.clamp();
        let u0 = self.u.get_val();
        let x0 = self.x.get_val();
        let ax = self.a.mul_vec(&x0);
        let bu = self.b.mul_vec(&u0);
        let x_dot = add_vecs(&ax, &bu);
        let sdt = scale_vec(&x_dot, self.dt);
        let x1 = add_vecs(&x0, &sdt);
        self.x.update(x1);
        let cx = self.c.mul_vec(&x0);
        let du = self.d.mul_vec(&u0);
        let y_now = add_vecs(&cx, &du);
        self.y.update(y_now);
        proof {
            assert(self@ =~~= ss_step(s0));
        }
    }
}

impl<const NU: usize, const NX: usize, const NY: usize> Default for StateSpace<NU, NX, NY> {
    /// Same as [`StateSpace::new`].
    fn default() -> (r: StateSpace<NU, NX, NY>)
        ensures
            r.wf(),
            forall|i: int, j: int| 0 <= i < NX && 0 <= j < NX ==> r@.a[i][j] == 0,
            forall|i: int, j: int| 0 <= i < NX && 0 <= j < NU ==> r@.b[i][j] == 0,
            forall|i: int, j: int| 0 <= i < NY && 0 <= j < NX ==> r@.c[i][j] == 0,
            forall|i: int, j: int| 0 <= i < NY && 0 <= j < NU ==> r@.d[i][j] == 0,
            forall|i: int| 0 <= i < NU ==> r@.u.val[i] == 0,
            forall|i: int| 0 <= i < NX ==> r@.x.val[i] == 0,
            forall|i: int| 0 <= i < NY ==> r@.y.val[i] == 0,
            r@.dt == FX_SCALE as int,
    {
        StateSpace::new()
    }
}

/// The configuration with the input vector replaced, as a `set_u` call
/// leaves it.
pub open spec fn with_input(s: SsView, u: SysVecView) -> SsView {
    SsView { u: u, ..s }
}

/// The model view after setting each input of `us` in turn and stepping
/// once after each.
pub open spec fn run_inputs(s: SsView, us: Seq<SysVecView>) -> SsView
    decreases us.len(),
{
    if us.len() == 0 {
        s
    } else {
        run_inputs(ss_step(with_input(s, us[0])), us.drop_first())
    }
}

/// Law: the simulation is deterministic. Two models with identical
/// configurations, fed the identical sequence of inputs and stepped the
/// same number of times, pass through identical states and outputs.
pub proof fn lemma_run_deterministic(s1: SsView, s2: SsView, us: Seq<SysVecView>)
    requires
        s1 == s2,
    ensures
        run_inputs(s1, us) == run_inputs(s2, us),
    decreases us.len(),
{
}

} // verus!
