use vstd::prelude::*;

verus! {

/// The baseline capability contract a scalar representation must satisfy to
/// stand inside a bounded value: the additive and multiplicative identities,
/// absolute value, a maximum-magnitude sentinel, a self-scaled epsilon, the
/// four arithmetic operations and the ordering.
///
/// Each executable operation is pinned to a ghost counterpart, and the proof
/// obligations state the algebra of an exact ordered scalar that the bounded
/// value's propagation rules rest on. A native floating representation
/// satisfies these laws only up to rounding at each step; the conservative
/// width propagation of the bounded value type is what absorbs that slack.
pub trait NumOps: Sized + Copy {
    /// Ghost ordering of the representation.
    spec fn le(self, other: Self) -> bool;

    /// Ghost addition.
    spec fn plus(self, other: Self) -> Self;

    /// Ghost subtraction.
    spec fn minus(self, other: Self) -> Self;

    /// Ghost multiplication.
    spec fn times(self, other: Self) -> Self;

    /// Ghost division.
    spec fn quot(self, other: Self) -> Self;

    /// Ghost absolute value.
    spec fn mag(self) -> Self;

    /// Ghost self-scaled epsilon: the distance from a value to the next
    /// representable value at its own magnitude.
    spec fn ulp(self) -> Self;

    /// Ghost additive identity.
    spec fn zero_rep() -> Self;

    /// Ghost multiplicative identity.
    spec fn one_rep() -> Self;

    /// Ghost maximum-magnitude sentinel.
    spec fn max_rep() -> Self;

    /// The additive identity.
    fn zero() -> (r: Self)
        ensures
            r == Self::zero_rep(),
    ;

    /// The multiplicative identity.
    fn one() -> (r: Self)
        ensures
            r == Self::one_rep(),
    ;

    /// Absolute value.
    fn abs(self) -> (r: Self)
        ensures
            r == self.mag(),
    ;

    /// One unit in the last place at this value's own magnitude. Precision
    /// is not uniform across scale, so this is a function of the value, not
    /// a global constant.
    fn epsilon(self) -> (r: Self)
        ensures
            r == self.ulp(),
    ;

    /// The maximum-magnitude sentinel.
    fn max_val() -> (r: Self)
        ensures
            r == Self::max_rep(),
    ;

    /// The ordering test.
    fn lte(self, other: Self) -> (r: bool)
        ensures
            r == self.le(other),
    ;

    /// Addition.
    fn add(self, other: Self) -> (r: Self)
        ensures
            r == self.plus(other),
    ;

    /// Subtraction.
    fn sub(self, other: Self) -> (r: Self)
        ensures
            r == self.minus(other),
    ;

    /// Multiplication.
    fn mul(self, other: Self) -> (r: Self)
        ensures
            r == self.times(other),
    ;

    /// Division.
    fn div(self, other: Self) -> (r: Self)
        ensures
            r == self.quot(other),
    ;

    /// The ordering is reflexive.
    proof fn le_refl(x: Self)
        ensures
            x.le(x),
    ;

    /// The ordering is transitive.
    proof fn le_trans(x: Self, y: Self, z: Self)
        requires
            x.le(y),
            y.le(z),
        ensures
            x.le(z),
    ;

    /// The ordering is antisymmetric.
    proof fn le_antisym(x: Self, y: Self)
        requires
            x.le(y),
            y.le(x),
        ensures
            x == y,
    ;

    /// The ordering is total.
    proof fn le_total(x: Self, y: Self)
        ensures
            x.le(y) || y.le(x),
    ;

    /// Addition is commutative.
    proof fn plus_comm(x: Self, y: Self)
        ensures
            x.plus(y) == y.plus(x),
    ;

    /// Zero is the additive identity.
    proof fn plus_zero(x: Self)
        ensures
            x.plus(Self::zero_rep()) == x,
    ;

    /// Addition preserves the ordering.
    proof fn plus_le_mono(x: Self, y: Self, z: Self)
        requires
            x.le(y),
        ensures
            x.plus(z).le(y.plus(z)),
    ;

    /// A value minus itself is zero.
    proof fn minus_self(x: Self)
        ensures
            x.minus(x) == Self::zero_rep(),
    ;

    /// Subtraction of a fixed value preserves the ordering.
    proof fn minus_le_mono(x: Self, y: Self, z: Self)
        requires
            x.le(y),
        ensures
            x.minus(z).le(y.minus(z)),
    ;

    /// Subtraction from a fixed value reverses the ordering.
    proof fn minus_le_antitone(x: Self, y: Self, z: Self)
        requires
            x.le(y),
        ensures
            z.minus(y).le(z.minus(x)),
    ;

    /// Adding a difference back restores the minuend.
    proof fn plus_minus_cancel(x: Self, y: Self)
        ensures
            x.plus(y.minus(x)) == y,
    ;

    /// Subtracting a difference restores the subtrahend.
    proof fn minus_minus_cancel(x: Self, y: Self)
        ensures
            x.minus(x.minus(y)) == y,
    ;

    /// Absolute values are non-negative.
    proof fn mag_nonneg(x: Self)
        ensures
            Self::zero_rep().le(x.mag()),
    ;

    /// A non-negative value is its own absolute value.
    proof fn mag_of_nonneg(x: Self)
        requires
            Self::zero_rep().le(x),
        ensures
            x.mag() == x,
    ;

    /// A difference and its reverse share one absolute value.
    proof fn mag_minus_comm(x: Self, y: Self)
        ensures
            x.minus(y).mag() == y.minus(x).mag(),
    ;

    /// A product of non-negative values is non-negative.
    proof fn times_nonneg(x: Self, y: Self)
        requires
            Self::zero_rep().le(x),
            Self::zero_rep().le(y),
        ensures
            Self::zero_rep().le(x.times(y)),
    ;

    /// The self-scaled epsilon is never negative.
    proof fn ulp_nonneg(x: Self)
        ensures
            Self::zero_rep().le(x.ulp()),
    ;

    /// At a strictly positive value the self-scaled epsilon is strictly
    /// positive: there is always a gap to the next representable value.
    proof fn ulp_positive(x: Self)
        requires
            Self::zero_rep().le(x),
            x != Self::zero_rep(),
        ensures
            Self::zero_rep().le(x.ulp()),
            x.ulp() != Self::zero_rep(),
    ;

    /// Over the non-negative values the self-scaled epsilon is
    /// non-decreasing: precision coarsens as magnitude grows.
    proof fn ulp_monotone(x: Self, y: Self)
        requires
            Self::zero_rep().le(x),
            x.le(y),
        ensures
            x.ulp().le(y.ulp()),
    ;
}

/// The extended capability contract for representations of real numbers:
/// sine, cosine, the constants pi and e, and min/max. Kept apart from the
/// baseline contract since not every representation needs transcendental
/// operations. The bounded value type itself satisfies this contract, with
/// min/max taken over whole intervals rather than raw scalars.
pub trait RealOps: Sized + Copy {
    /// Ghost sine.
    spec fn sine(self) -> Self;

    /// Ghost cosine.
    spec fn cosine(self) -> Self;

    /// Ghost value of the constant pi.
    spec fn pi_rep() -> Self;

    /// Ghost value of the constant e.
    spec fn e_rep() -> Self;

    /// Ghost maximum of two values.
    spec fn larger(self, other: Self) -> Self;

    /// Ghost minimum of two values.
    spec fn smaller(self, other: Self) -> Self;

    /// Sine.
    fn sin(self) -> (r: Self)
        ensures
            r == self.sine(),
    ;

    /// Cosine.
    fn cos(self) -> (r: Self)
        ensures
            r == self.cosine(),
    ;

    /// The constant pi.
    fn pi() -> (r: Self)
        ensures
            r == Self::pi_rep(),
    ;

    /// The constant e.
    fn e() -> (r: Self)
        ensures
            r == Self::e_rep(),
    ;

    /// The maximum of two values.
    fn max(self, other: Self) -> (r: Self)
        ensures
            r == self.larger(other),
    ;

    /// The minimum of two values.
    fn min(self, other: Self) -> (r: Self)
        ensures
            r == self.smaller(other),
    ;
}

/// The sum of two non-negative values is non-negative.
pub proof fn lemma_plus_nonneg<T: NumOps>(a: T, b: T)
    requires
        T::zero_rep().le(a),
        T::zero_rep().le(b),
    ensures
        T::zero_rep().le(a.plus(b)),
{
    T::plus_le_mono(T::zero_rep(), a, b);
    T::plus_comm(T::zero_rep(), b);
    T::plus_zero(b);
    T::le_trans(T::zero_rep(), b, a.plus(b));
}

/// A difference taken in increasing order is non-negative.
pub proof fn lemma_minus_nonneg<T: NumOps>(a: T, b: T)
    requires
        a.le(b),
    ensures
        T::zero_rep().le(b.minus(a)),
{
    T::minus_le_mono(a, b, a);
    T::minus_self(a);
}

/// Addition on the left preserves the ordering.
pub proof fn lemma_plus_le_mono_right<T: NumOps>(a: T, b: T, c: T)
    requires
        a.le(b),
    ensures
        c.plus(a).le(c.plus(b)),
{
    T::plus_le_mono(a, b, c);
    T::plus_comm(a, c);
    T::plus_comm(b, c);
}

} // verus!
