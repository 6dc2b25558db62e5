//! Fixed-point scalar arithmetic for the state-space engine.
//!
//! Every numeric quantity in this crate (matrix entries, vector components,
//! the time step) is an [`Fx`]: a signed 64-bit count of millionths of a
//! unit. All operations saturate at the representable extremes instead of
//! wrapping or failing, so the simulation step is total and never panics.

use vstd::prelude::*;

verus! {

/// Number of raw quanta per unit: `Fx` stores six decimal digits of fraction.
pub const FX_SCALE: i64 = 1_000_000;

/// A fixed-point scalar; `raw` counts millionths of a unit.
///
/// The largest and smallest representable values, [`Fx::max_value`] and
/// [`Fx::min_value`], double as the crate's "effectively unbounded" sentinel
/// bounds: a caller who wants a tighter limit must set one explicitly.
#[derive(Clone, Copy, Debug, PartialEq, Eq, Structural)]
pub struct Fx {
    raw: i64,
}

impl View for Fx {
    type V = int;

    closed spec fn view(&self) -> int {
        self.raw as int
    }
}

/// Raw values of a sequence of scalars.
pub open spec fn raws(s: Seq<Fx>) -> Seq<int> {
    Seq::new(s.len(), |i: int| s[i]@)
}

/// Magnitude of a mathematical integer.
pub open spec fn abs_i(x: int) -> int {
    if x < 0 {
        -x
    } else {
        x
    }
}

/// Saturation to the raw range of `Fx`.
pub open spec fn fx_sat(x: int) -> int {
    if x > i64::MAX as int {
        i64::MAX as int
    } else if x < i64::MIN as int {
        i64::MIN as int
    } else {
        x
    }
}

/// Quotient of `p` by `d` rounded toward zero (`d > 0`).
pub open spec fn fx_div_trunc(p: int, d: int) -> int {
    if p >= 0 {
        p / d
    } else {
        -((-p) / d)
    }
}

/// Value of the saturating fixed-point sum.
pub open spec fn fx_add_v(a: int, b: int) -> int {
    fx_sat(a + b)
}

/// Value of the saturating fixed-point product: the exact product of two
/// raw values carries twice the scale, so it is divided back down by
/// `FX_SCALE`, rounding toward zero.
pub open spec fn fx_mul_v(a: int, b: int) -> int {
    fx_sat(fx_div_trunc(a * b, FX_SCALE as int))
}

/// Value clamped to `[lo, hi]`: raised to `lo` first, then capped at `hi`.
/// When `lo > hi` the cap is applied last, so the result is `hi` —
/// a deterministic, documented outcome for inverted bounds, not an error.
pub open spec fn fx_clamp_v(v: int, lo: int, hi: int) -> int {
    let raised = if v < lo {
        lo
    } else {
        v
    };
    if raised > hi {
        hi
    } else {
        raised
    }
}

proof fn lemma_abs_mul(a: int, b: int)
    ensures
        abs_i(a * b) == abs_i(a) * abs_i(b),
        (a * b < 0) <==> (((a < 0) != (b < 0)) && a != 0 && b != 0),
{
    assert(abs_i(a * b) == abs_i(a) * abs_i(b) && ((a * b < 0) <==> (((a < 0) != (b < 0)) && a
        != 0 && b != 0))) by (nonlinear_arith);
}

proof fn lemma_mul_bound(a: int, b: int, x: int, y: int)
    requires
        0 <= a <= x,
        0 <= b <= y,
    ensures
        a * b <= x * y,
{
    assert(a * b <= x * y) by (nonlinear_arith)
        requires
            0 <= a <= x,
            0 <= b <= y,
    ;
}

/// A vector of `n` copies of `x`.
pub(crate) fn fill(n: usize, x: Fx) -> (v: Vec<Fx>)
    ensures
        v@.len() == n,
        forall|i: int| 0 <= i < n ==> v@[i] == x,
{
    let mut v: Vec<Fx> = Vec::new();
    let mut i: usize = 0;
    while i < n
        invariant
            i <= n,
            v@.len() == i,
            forall|j: int| 0 <= j < i ==> v@[j] == x,
        decreases n - i,
    {
        v.push(x);
        i += 1;
    }
    v
}

/// An independent copy of a vector of scalars.
pub(crate) fn copy_fx_vec(v: &Vec<Fx>) -> (r: Vec<Fx>)
    ensures
        r@ == v@,
{
    let mut r: Vec<Fx> = Vec::new();
    let mut i: usize = 0;
    while i < v.len()
        invariant
            i <= v@.len(),
            r@ == v@.subrange(0, i as int),
        decreases v@.len() - i,
    {
        r.push(v[i]);
        i += 1;
    }
    proof {
        assert(r@ =~= v@);
    }
    r
}

/// Magnitude of an `i64`, widened so that `i64::MIN` is representable.
fn abs_mag(a: i64) -> (r: u128)
    ensures
        r as int == abs_i(a as int),
{
    if a < 0 {
        (-(a as i128)) as u128
    } else {
        a as u128
    }
}

impl Fx {
    /// The additive identity.
    pub fn zero() -> (r: Fx)
        ensures
            r@ == 0,
    {
        Fx { raw: 0 }
    }

    /// The multiplicative identity (one whole unit).
    pub fn one() -> (r: Fx)
        ensures
            r@ == FX_SCALE as int,
    {
        Fx { raw: FX_SCALE }
    }

    /// The smallest representable scalar; also the default lower bound.
    pub fn min_value() -> (r: Fx)
        ensures
            r@ == i64::MIN as int,
    {
        Fx { raw: i64::MIN }
    }

    /// The largest representable scalar; also the default upper bound.
    pub fn max_value() -> (r: Fx)
        ensures
            r@ == i64::MAX as int,
    {
        Fx { raw: i64::MAX }
    }

    /// Build a scalar directly from its raw count of millionths.
    pub fn from_raw(raw: i64) -> (r: Fx)
        ensures
            r@ == raw as int,
    {
        Fx { raw }
    }

    /// The raw count of millionths.
    pub fn raw(self) -> (r: i64)
        ensures
            r as int == self@,
    {
        self.raw
    }

    /// Build a scalar from a whole number of units, saturating when the
    /// scaled value does not fit.
    pub fn from_int(n: i64) -> (r: Fx)
        ensures
            r@ == fx_sat(n * (FX_SCALE as int)),
    {
        let wide: i128 = (n as i128) * 1_000_000i128;
        if wide > i64::MAX as i128 {
            Fx { raw: i64::MAX }
        } else if wide < i64::MIN as i128 {
            Fx { raw: i64::MIN }
        } else {
            Fx { raw: wide as i64 }
        }
    }

    /// Saturating addition.
    pub fn add(self, other: Fx) -> (r: Fx)
        ensures
            r@ == fx_add_v(self@, other@),
    {
        let wide: i128 = (self.raw as i128) + (other.raw as i128);
        if wide > i64::MAX as i128 {
            Fx { raw: i64::MAX }
        } else if wide < i64::MIN as i128 {
            Fx { raw: i64::MIN }
        } else {
            Fx { raw: wide as i64 }
        }
    }

    /// Saturating fixed-point multiplication.
    pub fn mul(self, other: Fx) -> (r: Fx)
        ensures
            r@ == fx_mul_v(self@, other@),
    {
        let negative: bool = (self.raw < 0) != (other.raw < 0);
        let am: u128 = abs_mag(self.raw);
        let bm: u128 = abs_mag(other.raw);
        proof {
            lemma_abs_mul(self.raw as int, other.raw as int);
            lemma_mul_bound(am as int, bm as int, abs_i(i64::MIN as int), abs_i(i64::MIN as int));
        }
        let pm: u128 = am * bm;
        let qm: u128 = pm / 1_000_000u128;
        if negative {
            if qm >= 9_223_372_036_854_775_808u128 {
                Fx { raw: i64::MIN }
            } else {
                Fx { raw: -(qm as i64) }
            }
        } else {
            if qm > i64::MAX as u128 {
                Fx { raw: i64::MAX }
            } else {
                Fx { raw: qm as i64 }
            }
        }
    }

    /// Whether `self` is at most `other`.
    pub fn le(self, other: Fx) -> (r: bool)
        ensures
            r == (self@ <= other@),
    {
        self.raw <= other.raw
    }

    /// This scalar clamped to `[lo, hi]`; see [`fx_clamp_v`] for the rule,
    /// including the deterministic outcome when the bounds are inverted.
    pub fn clamped(self, lo: Fx, hi: Fx) -> (r: Fx)
        ensures
            r@ == fx_clamp_v(self@, lo@, hi@),
    {
        let raised: i64 = if self.raw < lo.raw {
            lo.raw
        } else {
            self.raw
        };
        if raised > hi.raw {
            Fx { raw: hi.raw }
        } else {
            Fx { raw: raised }
        }
    }
}

} // verus!
