use vstd::prelude::*;

mod ops;

pub use ops::NumOps;
pub use ops::RealOps;

verus! {

/// A wrapper type for numerics that holds additional information about the
/// maximum possible deviation from the correct value: a nominal `value`
/// together with a non-negative `width`, standing for the closed interval
/// [value - width, value + width] presumed to contain the true mathematical
/// result. Makes it possible to equality test without an ad-hoc epsilon.
#[derive(Debug, Copy, Clone)]
pub struct S<T> {
    value: T,
    width: T,
}

impl<T: NumOps> S<T> {
    /// Ghost nominal value.
    pub closed spec fn val(self) -> T {
        self.value
    }

    /// Ghost half-span of the interval.
    pub closed spec fn wid(self) -> T {
        self.width
    }

    /// Well-formedness: the width is never negative.
    pub open spec fn wf(self) -> bool {
        T::zero_rep().le(self.wid())
    }

    /// Ghost lower endpoint of the interval.
    pub open spec fn low(self) -> T {
        self.val().minus(self.wid())
    }

    /// Ghost upper endpoint of the interval.
    pub open spec fn high(self) -> T {
        self.val().plus(self.wid())
    }

    /// The interval holds the scalar `x`.
    pub open spec fn contains(self, x: T) -> bool {
        self.low().le(x) && x.le(self.high())
    }

    /// The two intervals intersect: the nominal values differ by no more
    /// than the combined widths, endpoints touching included.
    pub open spec fn overlaps(self, other: Self) -> bool {
        self.val().minus(other.val()).mag().le(self.wid().plus(other.wid()))
    }

    /// Ghost exact bounded value: the given scalar with zero width.
    pub closed spec fn exact_rep(num: T) -> S<T> {
        S { value: num, width: T::zero_rep() }
    }

    /// Ghost measured bounded value: the given scalar with one ULP of
    /// width, the representation error inherent in storing it.
    pub closed spec fn measured_rep(num: T) -> S<T> {
        S { value: num, width: num.ulp() }
    }

    /// Ghost sum: values add, widths add.
    pub closed spec fn sum(self, other: Self) -> S<T> {
        S { value: self.value.plus(other.value), width: self.width.plus(other.width) }
    }

    /// Ghost difference: values subtract, widths still add, since
    /// subtraction does not reduce uncertainty.
    pub closed spec fn difference(self, other: Self) -> S<T> {
        S { value: self.value.minus(other.value), width: self.width.plus(other.width) }
    }

    /// Ghost product, with the first-order propagated width
    /// |w1 * v2| + |w2 * v1|; the second-order term w1 * w2 is ignored.
    pub closed spec fn product(self, other: Self) -> S<T> {
        S {
            value: self.value.times(other.value),
            width: self.width.times(other.value).mag().plus(other.width.times(self.value).mag()),
        }
    }

    /// Ghost quotient, with the width w1 * w2.
    pub closed spec fn quotient(self, other: Self) -> S<T> {
        S { value: self.value.quot(other.value), width: self.width.times(other.width) }
    }

    /// Ghost reconstruction from two bounds: the value is the midpoint, the
    /// width the larger of the two half-spans, so that both bounds stay
    /// inside the interval even under rounding asymmetry of the midpoint.
    pub closed spec fn from_bounds_rep(bottom: T, top: T) -> S<T> {
        let mid = bottom.plus(top).quot(T::one_rep().plus(T::one_rep()));
        let low_span = mid.minus(bottom);
        let high_span = top.minus(mid);
        S {
            value: mid,
            width: if low_span.le(high_span) {
                high_span
            } else {
                low_span
            },
        }
    }

    /// The nominal value.
    pub fn value(&self) -> (r: T)
        ensures
            r == self.val(),
    {
        self.value
    }

    /// The half-span of the interval.
    pub fn width(&self) -> (r: T)
        ensures
            r == self.wid(),
    {
        self.width
    }

    /// A zero value carrying the given width.
    pub fn wide_zero(width: T) -> (r: Self)
        requires
            T::zero_rep().le(width),
        ensures
            r.val() == T::zero_rep(),
            r.wid() == width,
            r.wf(),
    {
        S { value: T::zero(), width }
    }

    /// A zero value with zero width.
    pub fn thin_zero() -> (r: Self)
        ensures
            r == Self::exact_rep(T::zero_rep()),
            r.wf(),
    {
        proof {
            T::le_refl(T::zero_rep());
        }
        S { value: T::zero(), width: T::zero() }
    }

    /// An exact value: zero width.
    pub fn exact(num: T) -> (r: Self)
        ensures
            r == Self::exact_rep(num),
            r.wf(),
    {
        proof {
            T::le_refl(T::zero_rep());
        }
        S { value: num, width: T::zero() }
    }

    /// A measured value: the width is one ULP of the scalar, a realistic,
    /// scale-appropriate tolerance for a raw reading.
    pub fn s(num: T) -> (r: Self)
        ensures
            r == Self::measured_rep(num),
            r.wf(),
    {
        proof {
            T::ulp_nonneg(num);
        }
        S { value: num, width: num.epsilon() }
    }

    /// True iff the two intervals intersect: the substitute for
    /// tolerance-based equality.
    pub fn could_eq(&self, other: &Self) -> (r: bool)
        ensures
            r == self.overlaps(*other),
    {
        self.value.sub(other.value).abs().lte(self.width.add(other.width))
    }

    /// Addition; the result width is the exact sum of the input widths, the
    /// triangle-inequality bound.
    pub fn add(self, other: Self) -> (r: Self)
        ensures
            r == self.sum(other),
    {
        S { value: self.value.add(other.value), width: self.width.add(other.width) }
    }

    /// Subtraction; widths still add, since subtraction does not reduce
    /// uncertainty.
    pub fn sub(self, other: Self) -> (r: Self)
        ensures
            r == self.difference(other),
    {
        S { value: self.value.sub(other.value), width: self.width.add(other.width) }
    }

    /// Multiplication, with first-order (linearized) error propagation:
    /// the width is |w1 * v2| + |w2 * v1|. The second-order term w1 * w2 is
    /// deliberately ignored, which is valid when widths are small relative
    /// to the magnitudes.
    pub fn mul(self, other: Self) -> (r: Self)
        ensures
            r == self.product(other),
    {
        S {
            value: self.value.mul(other.value),
            width: self.width.mul(other.value).abs().add(other.width.mul(self.value).abs()),
        }
    }

    /// Division. The result width is the product of the two input widths.
    /// That formula is dimensionally implausible — a quotient-rule bound
    /// would scale by the operands' magnitudes instead — but it is the
    /// established behavior of this operation, pinned by a regression test;
    /// replacing it is a semantic decision, not a tightening.
    pub fn div(self, other: Self) -> (r: Self)
        ensures
            r == self.quotient(other),
    {
        S { value: self.value.div(other.value), width: self.width.mul(other.width) }
    }

    /// A bounded value whose interval covers both given bounds: the value
    /// is their midpoint, the width the larger of the two half-spans,
    /// guarding against rounding asymmetry between the midpoint and either
    /// endpoint.
    pub fn from_bounds(bottom: T, top: T) -> (r: Self)
        ensures
            r == Self::from_bounds_rep(bottom, top),
    {
        let mid = bottom.add(top).div(T::one().add(T::one()));
        let low_span = mid.sub(bottom);
        let high_span = top.sub(mid);
        let width = if low_span.lte(high_span) {
            high_span
        } else {
            low_span
        };
        S { value: mid, width }
    }

    /// Linear interpolation `self * (1 - t) + other * t`, computed entirely
    /// through the bounded operators, so the result's uncertainty is the
    /// natural composition of the multiply and add rules.
    pub fn lerp(self, other: Self, t: Self) -> (r: Self)
        ensures
            r == self.product(Self::exact_rep(T::one_rep()).difference(t)).sum(other.product(t)),
    {
        self.mul(Self::exact(T::one()).sub(t)).add(other.mul(t))
    }
}

impl<T: NumOps + RealOps> S<T> {
    /// Ghost absolute value: the nominal value is replaced by its
    /// magnitude, the width kept, and the result folded against the exact
    /// zero via the interval maximum, which clamps an interval that
    /// straddles zero at a lower bound of zero instead of naively negating.
    pub closed spec fn abs_rep(self) -> S<T> {
        S { value: self.val().mag(), width: self.wid() }.larger(Self::exact_rep(T::zero_rep()))
    }

    /// Absolute value of the bounded value.
    pub fn abs(self) -> (r: Self)
        ensures
            r == self.abs_rep(),
    {
        let folded = S { value: self.value.abs(), width: self.width };
        folded.max(Self::thin_zero())
    }
}

impl<T: NumOps + RealOps> RealOps for S<T> {
    /// Ghost sine: the width grows by one ULP at the input's magnitude for
    /// the evaluation error; the input width passes through unscaled, a
    /// first-order bound resting on the derivative of sine staying within
    /// magnitude one.
    closed spec fn sine(self) -> Self {
        S { value: self.value.sine(), width: self.width.plus(self.value.ulp()) }
    }

    /// Ghost cosine, with the same width rule as sine.
    closed spec fn cosine(self) -> Self {
        S { value: self.value.cosine(), width: self.width.plus(self.value.ulp()) }
    }

    /// Ghost pi: the scalar constant taken as a measured value.
    closed spec fn pi_rep() -> Self {
        Self::measured_rep(T::pi_rep())
    }

    /// Ghost e: the scalar constant taken as a measured value.
    closed spec fn e_rep() -> Self {
        Self::measured_rep(T::e_rep())
    }

    /// Ghost interval maximum: the scalar maximum of the two lower bounds
    /// paired with the scalar maximum of the two upper bounds, the sound
    /// bound for the maximum over the product of the two input intervals.
    closed spec fn larger(self, other: Self) -> Self {
        Self::from_bounds_rep(self.low().larger(other.low()), self.high().larger(other.high()))
    }

    /// Ghost interval minimum, built as the interval maximum is.
    closed spec fn smaller(self, other: Self) -> Self {
        Self::from_bounds_rep(self.low().smaller(other.low()), self.high().smaller(other.high()))
    }

    fn sin(self) -> (r: Self)
        ensures
            r == self.sine(),
    {
        S { value: self.value.sin(), width: self.width.add(self.value.epsilon()) }
    }

    fn cos(self) -> (r: Self)
        ensures
            r == self.cosine(),
    {
        S { value: self.value.cos(), width: self.width.add(self.value.epsilon()) }
    }

    fn pi() -> (r: Self)
        ensures
            r == Self::pi_rep(),
    {
        Self::s(T::pi())
    }

    fn e() -> (r: Self)
        ensures
            r == Self::e_rep(),
    {
        Self::s(T::e())
    }

    fn max(self, other: Self) -> (r: Self)
        ensures
            r == self.larger(other),
    {
        let bottom = self.value.sub(self.width).max(other.value.sub(other.width));
        let top = self.value.add(self.width).max(other.value.add(other.width));
        Self::from_bounds(bottom, top)
    }

    fn min(self, other: Self) -> (r: Self)
        ensures
            r == self.smaller(other),
    {
        let bottom = self.value.sub(self.width).min(other.value.sub(other.width));
        let top = self.value.add(self.width).min(other.value.add(other.width));
        Self::from_bounds(bottom, top)
    }
}

/// Overlap equality is reflexive: every well-formed bounded value could
/// equal itself.
pub proof fn lemma_overlaps_reflexive<T: NumOps>(a: S<T>)
    requires
        a.wf(),
    ensures
        a.overlaps(a),
{
    T::minus_self(a.val());
    T::le_refl(T::zero_rep());
    T::mag_of_nonneg(T::zero_rep());
    ops::lemma_plus_nonneg(a.wid(), a.wid());
}

/// Overlap equality is symmetric: either bounded value could equal the
/// other, or neither could.
pub proof fn lemma_overlaps_symmetric<T: NumOps>(a: S<T>, b: S<T>)
    ensures
        a.overlaps(b) == b.overlaps(a),
{
    T::mag_minus_comm(a.val(), b.val());
    T::plus_comm(a.wid(), b.wid());
}

/// Reconstructing a bounded value from ordered bounds is well-formed and
/// yields an interval that holds both bounds, whichever half-span the
/// midpoint computation leaves larger.
pub proof fn lemma_from_bounds_contains<T: NumOps>(bottom: T, top: T)
    requires
        bottom.le(top),
    ensures
        S::<T>::from_bounds_rep(bottom, top).wf(),
        S::<T>::from_bounds_rep(bottom, top).contains(bottom),
        S::<T>::from_bounds_rep(bottom, top).contains(top),
{
    let r = S::<T>::from_bounds_rep(bottom, top);
    let mid = r.val();
    let w = r.wid();
    let low_span = mid.minus(bottom);
    let high_span = top.minus(mid);
    // The width is the larger of the two half-spans, so it dominates both.
    if low_span.le(high_span) {
        T::le_refl(high_span);
    } else {
        T::le_total(low_span, high_span);
        T::le_refl(low_span);
    }
    assert(low_span.le(w) && high_span.le(w));
    // mid - w lies at or below mid - (mid - bottom) == bottom.
    T::minus_le_antitone(low_span, w, mid);
    T::minus_minus_cancel(mid, bottom);
    // mid + w lies at or above mid + (top - mid) == top.
    ops::lemma_plus_le_mono_right(high_span, w, mid);
    T::plus_minus_cancel(mid, top);
    // Both bounds land inside [mid - w, mid + w].
    T::le_trans(bottom, top, mid.plus(w));
    T::le_trans(mid.minus(w), bottom, top);
    // The width is non-negative: the midpoint cannot fall below bottom and
    // above top at once.
    T::le_total(bottom, mid);
    if bottom.le(mid) {
        ops::lemma_minus_nonneg(bottom, mid);
        T::le_trans(T::zero_rep(), low_span, w);
    } else {
        T::le_trans(mid, bottom, top);
        ops::lemma_minus_nonneg(mid, top);
        T::le_trans(T::zero_rep(), high_span, w);
    }
}

/// Addition preserves width non-negativity.
pub proof fn lemma_sum_wf<T: NumOps>(a: S<T>, b: S<T>)
    requires
        a.wf(),
        b.wf(),
    ensures
        a.sum(b).wf(),
{
    ops::lemma_plus_nonneg(a.wid(), b.wid());
}

/// Subtraction preserves width non-negativity.
pub proof fn lemma_difference_wf<T: NumOps>(a: S<T>, b: S<T>)
    requires
        a.wf(),
        b.wf(),
    ensures
        a.difference(b).wf(),
{
    ops::lemma_plus_nonneg(a.wid(), b.wid());
}

/// Multiplication preserves width non-negativity: a sum of two absolute
/// values is never negative.
pub proof fn lemma_product_wf<T: NumOps>(a: S<T>, b: S<T>)
    ensures
        a.product(b).wf(),
{
    T::mag_nonneg(a.wid().times(b.val()));
    T::mag_nonneg(b.wid().times(a.val()));
    ops::lemma_plus_nonneg(a.wid().times(b.val()).mag(), b.wid().times(a.val()).mag());
}

/// Division preserves width non-negativity: even the product-of-widths
/// formula keeps a non-negative width when both inputs have one.
pub proof fn lemma_quotient_wf<T: NumOps>(a: S<T>, b: S<T>)
    requires
        a.wf(),
        b.wf(),
    ensures
        a.quotient(b).wf(),
{
    T::times_nonneg(a.wid(), b.wid());
}

/// The sum of two exact values is exact: its width is zero.
pub proof fn lemma_exact_sum_exact<T: NumOps>(x: T, y: T)
    ensures
        S::<T>::exact_rep(x).sum(S::<T>::exact_rep(y)).wid() == T::zero_rep(),
{
    T::plus_zero(T::zero_rep());
}

/// The width of a sum of well-formed values is zero only when both input
/// widths are zero; otherwise it is their exact sum.
pub proof fn lemma_sum_zero_width<T: NumOps>(a: S<T>, b: S<T>)
    requires
        a.wf(),
        b.wf(),
        a.sum(b).wid() == T::zero_rep(),
    ensures
        a.wid() == T::zero_rep(),
        b.wid() == T::zero_rep(),
{
    // Each width sits between zero and the (zero) total, so each is zero.
    ops::lemma_plus_le_mono_right(T::zero_rep(), b.wid(), a.wid());
    T::plus_zero(a.wid());
    T::le_antisym(a.wid(), T::zero_rep());
    T::plus_le_mono(T::zero_rep(), a.wid(), b.wid());
    T::plus_comm(T::zero_rep(), b.wid());
    T::plus_zero(b.wid());
    T::le_antisym(b.wid(), T::zero_rep());
}

/// A measured value at a strictly positive reading carries a strictly
/// positive width, and that width is non-decreasing as the reading grows.
pub proof fn lemma_measured_width<T: NumOps>(x: T, y: T)
    requires
        T::zero_rep().le(x),
        x != T::zero_rep(),
        x.le(y),
    ensures
        T::zero_rep().le(S::<T>::measured_rep(x).wid()),
        S::<T>::measured_rep(x).wid() != T::zero_rep(),
        S::<T>::measured_rep(x).wid().le(S::<T>::measured_rep(y).wid()),
{
    T::ulp_positive(x);
    T::ulp_monotone(x, y);
}

} // verus!
