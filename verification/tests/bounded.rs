use scientific::NumOps;
use scientific::RealOps;
use scientific::S;

/// A double-precision scalar for exercising the library. The capability
/// impls mirror the intended native floating implementation: epsilon is one
/// ULP at the value's own magnitude, obtained by incrementing the bit
/// pattern, and the maximum-magnitude sentinel keeps its established bit
/// pattern.
#[derive(Clone, Copy, PartialEq, Debug)]
pub struct D(pub f64);

fn next_after(val: f64) -> f64 {
    f64::from_bits(val.to_bits() + 1)
}

impl NumOps for D {
    // The trait's ghost members exist only for verification; outside the
    // verifier they remain as trait items, so these stand-ins satisfy the
    // compiler and are never called at runtime.
    fn le(self, _other: Self) -> bool {
        false
    }
    fn plus(self, _other: Self) -> Self {
        self
    }
    fn minus(self, _other: Self) -> Self {
        self
    }
    fn times(self, _other: Self) -> Self {
        self
    }
    fn quot(self, _other: Self) -> Self {
        self
    }
    fn mag(self) -> Self {
        self
    }
    fn ulp(self) -> Self {
        self
    }
    fn zero_rep() -> Self {
        D(0.0)
    }
    fn one_rep() -> Self {
        D(1.0)
    }
    fn max_rep() -> Self {
        D(0.0)
    }
    fn le_refl(_x: Self) {}
    fn le_trans(_x: Self, _y: Self, _z: Self) {}
    fn le_antisym(_x: Self, _y: Self) {}
    fn le_total(_x: Self, _y: Self) {}
    fn plus_comm(_x: Self, _y: Self) {}
    fn plus_zero(_x: Self) {}
    fn plus_le_mono(_x: Self, _y: Self, _z: Self) {}
    fn minus_self(_x: Self) {}
    fn minus_le_mono(_x: Self, _y: Self, _z: Self) {}
    fn minus_le_antitone(_x: Self, _y: Self, _z: Self) {}
    fn plus_minus_cancel(_x: Self, _y: Self) {}
    fn minus_minus_cancel(_x: Self, _y: Self) {}
    fn mag_nonneg(_x: Self) {}
    fn mag_of_nonneg(_x: Self) {}
    fn mag_minus_comm(_x: Self, _y: Self) {}
    fn times_nonneg(_x: Self, _y: Self) {}
    fn ulp_nonneg(_x: Self) {}
    fn ulp_positive(_x: Self) {}
    fn ulp_monotone(_x: Self, _y: Self) {}

    fn zero() -> Self {
        D(0.0)
    }
    fn one() -> Self {
        D(1.0)
    }
    fn abs(self) -> Self {
        D(self.0.abs())
    }
    fn epsilon(self) -> Self {
        D((next_after(self.0) - self.0).abs())
    }
    fn max_val() -> Self {
        D(f64::from_bits(0x7FFF000000000000))
    }
    fn lte(self, other: Self) -> bool {
        self.0 <= other.0
    }
    fn add(self, other: Self) -> Self {
        D(self.0 + other.0)
    }
    fn sub(self, other: Self) -> Self {
        D(self.0 - other.0)
    }
    fn mul(self, other: Self) -> Self {
        D(self.0 * other.0)
    }
    fn div(self, other: Self) -> Self {
        D(self.0 / other.0)
    }
}

impl RealOps for D {
    // Stand-ins for the ghost members, as above.
    fn sine(self) -> Self {
        self
    }
    fn cosine(self) -> Self {
        self
    }
    fn pi_rep() -> Self {
        D(0.0)
    }
    fn e_rep() -> Self {
        D(0.0)
    }
    fn larger(self, _other: Self) -> Self {
        self
    }
    fn smaller(self, _other: Self) -> Self {
        self
    }

    fn sin(self) -> Self {
        D(self.0.sin())
    }
    fn cos(self) -> Self {
        D(self.0.cos())
    }
    fn pi() -> Self {
        D(std::f64::consts::PI)
    }
    fn e() -> Self {
        D(std::f64::consts::E)
    }
    fn max(self, other: Self) -> Self {
        D(self.0.max(other.0))
    }
    fn min(self, other: Self) -> Self {
        D(self.0.min(other.0))
    }
}

/// A bounded value with the given nominal value and width.
fn mk(value: f64, width: f64) -> S<D> {
    S::exact(D(value)).add(S::wide_zero(D(width)))
}

#[test]
fn measured_width_positive_and_monotone() {
    assert!(S::s(D(0.2)).width().0 > 0.0);
    assert!(S::s(D(1.0e-300)).width().0 > 0.0);
    // One ULP at 1.0 is exactly the machine epsilon.
    assert_eq!(S::s(D(1.0)).width(), D(f64::EPSILON));
    // Precision coarsens as magnitude grows.
    assert!(S::s(D(1.0)).width().0 <= S::s(D(1.0e3)).width().0);
    assert!(S::s(D(1.0e3)).width().0 <= S::s(D(1.0e12)).width().0);
}

#[test]
fn could_eq_is_reflexive() {
    let a = S::s(D(0.3));
    assert!(a.could_eq(&a));
    let b = S::exact(D(-7.5));
    assert!(b.could_eq(&b));
    let c = S::<D>::thin_zero();
    assert!(c.could_eq(&c));
}

#[test]
fn could_eq_is_symmetric() {
    let a = mk(1.0, 0.5);
    let b = mk(1.6, 0.2);
    let c = mk(3.0, 0.1);
    assert_eq!(a.could_eq(&b), b.could_eq(&a));
    assert!(a.could_eq(&b));
    assert_eq!(a.could_eq(&c), c.could_eq(&a));
    assert!(!a.could_eq(&c));
}

#[test]
fn touching_intervals_could_eq() {
    // [0, 1] and [1, 2] touch at 1: the non-strict test counts them equal.
    let a = mk(0.5, 0.5);
    let b = mk(1.5, 0.5);
    assert!(a.could_eq(&b));
    let c = mk(2.75, 0.5);
    assert!(!b.could_eq(&c));
}

#[test]
fn from_bounds_contains_both_bounds() {
    let r = S::from_bounds(D(1.0), D(2.0));
    assert_eq!(r.value(), D(1.5));
    assert_eq!(r.width(), D(0.5));
    let v = r.value().0;
    let w = r.width().0;
    assert!(v - w <= 1.0 && 1.0 <= v + w);
    assert!(v - w <= 2.0 && 2.0 <= v + w);

    // An asymmetric pair whose midpoint rounds.
    let r2 = S::from_bounds(D(0.1), D(0.3));
    let v2 = r2.value().0;
    let w2 = r2.width().0;
    assert!(w2 >= 0.0);
    assert!(v2 - w2 <= 0.1 && 0.1 <= v2 + w2);
    assert!(v2 - w2 <= 0.3 && 0.3 <= v2 + w2);
}

#[test]
fn from_bounds_of_equal_bounds_is_thin() {
    let r = S::from_bounds(D(4.0), D(4.0));
    assert_eq!(r.value(), D(4.0));
    assert_eq!(r.width(), D(0.0));
}

#[test]
fn widths_stay_nonnegative() {
    let a = mk(-2.0, 0.25);
    let b = mk(3.0, 0.5);
    assert!(a.add(b).width().0 >= 0.0);
    assert!(a.sub(b).width().0 >= 0.0);
    assert!(a.mul(b).width().0 >= 0.0);
    assert!(a.div(b).width().0 >= 0.0);
    assert!(a.abs().width().0 >= 0.0);
    assert!(a.lerp(b, mk(0.5, 0.01)).width().0 >= 0.0);
}

#[test]
fn measured_sum_could_eq_measured_half() {
    // The core value proposition: measured decimal readings summed in the
    // representation compare as could-be-equal to the measured total.
    let v1 = S::s(D(0.2));
    let v2 = S::s(D(0.3));
    let v3 = S::s(D(0.5));
    assert!(v1.add(v2).could_eq(&v3));
    // A pair whose sum really is not bit-identical to the expected total.
    assert!(0.1_f64 + 0.2_f64 != 0.3_f64);
    assert!(S::s(D(0.1)).add(S::s(D(0.2))).could_eq(&S::s(D(0.3))));
}

#[test]
fn exact_sum_width_is_exact() {
    // Two exact operands give a zero-width sum.
    let z = S::exact(D(2.5)).add(S::exact(D(-1.25)));
    assert_eq!(z.width(), D(0.0));
    // Otherwise the width is exactly the sum of the input widths.
    let a = S::s(D(0.2));
    let r = a.add(S::exact(D(1.0)));
    assert_eq!(r.width(), a.width());
    let both = S::s(D(0.2)).add(S::s(D(0.3)));
    assert_eq!(both.width().0, S::s(D(0.2)).width().0 + S::s(D(0.3)).width().0);
}

#[test]
fn abs_clamps_interval_straddling_zero() {
    // [-5, 5] folds to an interval whose lower bound is clamped at zero
    // and whose upper bound still covers 5.
    let a = S::wide_zero(D(5.0));
    let r = a.abs();
    let v = r.value().0;
    let w = r.width().0;
    assert_eq!(v - w, 0.0);
    assert!(v + w >= 5.0);
}

#[test]
fn div_width_is_product_of_widths() {
    // Regression: the quotient's width equals the product of the two input
    // widths, not a formula involving the operands' magnitudes.
    let a = mk(6.0, 0.5);
    let b = mk(3.0, 0.25);
    let q = a.div(b);
    assert_eq!(q.value(), D(2.0));
    assert_eq!(q.width(), D(0.125));
}

#[test]
fn lerp_of_exact_values_is_exact() {
    let r = S::exact(D(0.0)).lerp(S::exact(D(10.0)), S::exact(D(0.25)));
    assert_eq!(r.value(), D(2.5));
    assert_eq!(r.width(), D(0.0));
}

#[test]
fn pi_and_e_are_measured_constants() {
    let p = S::<D>::pi();
    assert_eq!(p.value(), D(std::f64::consts::PI));
    assert!(p.width().0 > 0.0);
    assert_eq!(p.width(), D(std::f64::consts::PI).epsilon());
    let e = S::<D>::e();
    assert_eq!(e.value(), D(std::f64::consts::E));
    assert_eq!(e.width(), D(std::f64::consts::E).epsilon());
}

#[test]
fn sin_cos_add_one_ulp_of_width() {
    let x = S::exact(D(0.5));
    let s = x.sin();
    assert_eq!(s.value(), D(0.5_f64.sin()));
    assert_eq!(s.width(), D(0.5).epsilon());
    let c = x.cos();
    assert_eq!(c.value(), D(0.5_f64.cos()));
    assert_eq!(c.width(), D(0.5).epsilon());
}

#[test]
fn interval_max_and_min_combine_bounds() {
    // max([0, 2], [1, 3]) = [1, 3]; min of the same pair = [0, 2].
    let a = S::from_bounds(D(0.0), D(2.0));
    let b = S::from_bounds(D(1.0), D(3.0));
    let hi = a.max(b);
    assert_eq!(hi.value(), D(2.0));
    assert_eq!(hi.width(), D(1.0));
    let lo = a.min(b);
    assert_eq!(lo.value(), D(1.0));
    assert_eq!(lo.width(), D(1.0));
}

#[test]
fn zero_constructors() {
    let wide = S::wide_zero(D(0.75));
    assert_eq!(wide.value(), D(0.0));
    assert_eq!(wide.width(), D(0.75));
    let thin = S::<D>::thin_zero();
    assert_eq!(thin.value(), D(0.0));
    assert_eq!(thin.width(), D(0.0));
    let ex = S::exact(D(9.5));
    assert_eq!(ex.value(), D(9.5));
    assert_eq!(ex.width(), D(0.0));
}
