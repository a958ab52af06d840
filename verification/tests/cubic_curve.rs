use curves::CubicCurve;
use curves::InnerProductSpace;
use curves::Scalar;
use curves::VectorSpace;

/// An f32-backed scalar for exercising the kernel.
#[derive(Clone, Copy, Debug, PartialEq)]
struct R32(f32);

impl Scalar for R32 {
    fn add(self, other: Self) -> Self {
        R32(self.0 + other.0)
    }
    fn sub(self, other: Self) -> Self {
        R32(self.0 - other.0)
    }
    fn mul(self, other: Self) -> Self {
        R32(self.0 * other.0)
    }
    fn div(self, other: Self) -> Self {
        R32(self.0 / other.0)
    }
    fn neg(self) -> Self {
        R32(-self.0)
    }
    fn abs(self) -> Self {
        R32(self.0.abs())
    }
    fn sqrt(self) -> Self {
        R32(self.0.sqrt())
    }
    fn cbrt(self) -> Self {
        R32(self.0.cbrt())
    }
    fn ln(self) -> Self {
        R32(self.0.ln())
    }
    fn acos(self) -> Self {
        R32(self.0.acos())
    }
    fn cos(self) -> Self {
        R32(self.0.cos())
    }
    fn pi() -> Self {
        R32(std::f32::consts::PI)
    }
    fn from_i32(value: i32) -> Self {
        R32(value as f32)
    }
    fn is_eq(self, other: Self) -> bool {
        self.0 == other.0
    }
    fn is_lt(self, other: Self) -> bool {
        self.0 < other.0
    }
    fn is_le(self, other: Self) -> bool {
        self.0 <= other.0
    }
    fn is_gt(self, other: Self) -> bool {
        self.0 > other.0
    }
    fn is_ge(self, other: Self) -> bool {
        self.0 >= other.0
    }
}

impl VectorSpace for R32 {
    type Scalar = R32;

    fn add(self, other: Self) -> Self {
        R32(self.0 + other.0)
    }
    fn sub(self, other: Self) -> Self {
        R32(self.0 - other.0)
    }
    fn neg(self) -> Self {
        R32(-self.0)
    }
    fn scale(self, s: Self) -> Self {
        R32(self.0 * s.0)
    }
    fn div(self, s: Self) -> Self {
        R32(self.0 / s.0)
    }
    fn zero() -> Self {
        R32(0.0)
    }
}

impl InnerProductSpace for R32 {
    fn inner_product(self, other: Self) -> Self {
        R32(self.0 * other.0)
    }
}

fn ulps_eq(a: f32, b: f32) -> bool {
    if (a - b).abs() <= f32::EPSILON {
        return true;
    }
    if (a < 0.0) != (b < 0.0) {
        return false;
    }
    let ia = a.to_bits() as i64;
    let ib = b.to_bits() as i64;
    (ia - ib).abs() <= 4
}

fn assert_ulps(a: R32, b: f32) {
    assert!(ulps_eq(a.0, b), "{} is not close to {}", a.0, b);
}

fn r(v: f32) -> R32 {
    R32(v)
}

#[test]
fn cubic_curve_evaluate() {
    let curve = CubicCurve::new(r(1.0), r(1.0), r(1.0), r(1.0));
    assert_ulps(curve.evaluate_third_derivative(), 6.0);

    assert_ulps(curve.evaluate(r(0.0)), 1.0);
    assert_ulps(curve.evaluate_first_derivative(r(0.0)), 1.0);
    assert_ulps(curve.evaluate_second_derivative(r(0.0)), 2.0);

    assert_ulps(curve.evaluate(r(0.5)), 1.875);
    assert_ulps(curve.evaluate_first_derivative(r(0.5)), 2.75);
    assert_ulps(curve.evaluate_second_derivative(r(0.5)), 5.0);

    assert_ulps(curve.evaluate(r(1.0)), 4.0);
    assert_ulps(curve.evaluate_first_derivative(r(1.0)), 6.0);
    assert_ulps(curve.evaluate_second_derivative(r(1.0)), 8.0);
}

#[test]
fn cubic_curve_bezier() {
    let test_cases = [
        (1f32, 1f32, 1f32, 1f32),
        (2f32, 0f32, 0f32, 1f32),
        (-1f32, 1f32, 0.5f32, -0.25f32),
        (5f32, 4f32, 3f32, 2f32),
        (6f32, -7f32, -9f32, -1000f32),
    ];
    for test_case in &test_cases {
        let curve = CubicCurve::from_bezier(
            r(test_case.0),
            r(test_case.1),
            r(test_case.2),
            r(test_case.3),
        );
        let bezier = curve.to_bezier();
        assert_ulps(bezier.0, test_case.0);
        assert_ulps(bezier.1, test_case.1);
        assert_ulps(bezier.2, test_case.2);
        assert_ulps(bezier.3, test_case.3);
    }
}

#[test]
fn cubic_curve_subdivide() {
    let curve = CubicCurve::new(r(1.0), r(1.0), r(1.0), r(1.0));
    let (left, right) = curve.subdivide(r(0.25));

    assert_ulps(left.x0(), 1.0);
    assert_ulps(left.x1(), 0.25);
    assert_ulps(left.x2(), 0.0625);
    assert_ulps(left.x3(), 0.015625);

    assert_ulps(right.x0(), 1.328125);
    assert_ulps(right.x1(), 1.265625);
    assert_ulps(right.x2(), 0.984375);
    assert_ulps(right.x3(), 0.421875);
}

#[test]
fn error_minimizing_quadratic_approximation() {
    let curve = CubicCurve::new(r(1.0), r(1.0), r(1.0), r(1.0));
    let quadratic = curve.error_minimizing_quadratic_approximation();

    assert_ulps(curve.evaluate(r(0.5)), quadratic.evaluate(r(0.5)).0);
    let left_zero = 0.25f32 * (2f32 - 3f32.sqrt());
    assert_ulps(curve.evaluate(r(left_zero)), quadratic.evaluate(r(left_zero)).0);
    let right_zero = 0.25f32 * (2f32 + 3f32.sqrt());
    assert_ulps(curve.evaluate(r(right_zero)), quadratic.evaluate(r(right_zero)).0);

    assert_ulps(r((curve.evaluate(r(0.0)).0 - quadratic.evaluate(r(0.0)).0).abs()), 0.03125);
    assert_ulps(r((curve.evaluate(r(0.25)).0 - quadratic.evaluate(r(0.25)).0).abs()), 0.03125);
    assert_ulps(r((curve.evaluate(r(0.75)).0 - quadratic.evaluate(r(0.75)).0).abs()), 0.03125);
    assert_ulps(r((curve.evaluate(r(1.0)).0 - quadratic.evaluate(r(1.0)).0).abs()), 0.03125);
}

#[test]
fn continuity_preseving_quadratic_approximation() {
    let curve = CubicCurve::new(r(1.0), r(1.0), r(1.0), r(1.0));
    let quadratic = curve.continuity_preseving_quadratic_approximation();

    assert_ulps(curve.evaluate(r(0.0)), quadratic.evaluate(r(0.0)).0);
    assert_ulps(curve.evaluate(r(0.5)), quadratic.evaluate(r(0.5)).0);
    assert_ulps(curve.evaluate(r(1.0)), quadratic.evaluate(r(1.0)).0);

    let max_error = 1f32 / 12f32 / 3f32.sqrt();
    let left_max = 0.5f32 - 1f32 / 2f32 / 3f32.sqrt();
    let right_max = 0.5f32 + 1f32 / 2f32 / 3f32.sqrt();
    assert_ulps(
        r((curve.evaluate(r(left_max)).0 - quadratic.evaluate(r(left_max)).0).abs()),
        max_error,
    );
    assert_ulps(
        r((curve.evaluate(r(right_max)).0 - quadratic.evaluate(r(right_max)).0).abs()),
        max_error,
    );
}

#[test]
fn cubic_subdivision_matches_curve() {
    let curve = CubicCurve::new(r(1.0), r(-2.0), r(0.5), r(3.0));
    let u = r(0.4);
    let (left, right) = curve.subdivide(u);
    for i in 0..=10 {
        let s = r(i as f32 / 10.0);
        let l = left.evaluate(s);
        let o = curve.evaluate(r(u.0 * s.0));
        assert!((l.0 - o.0).abs() < 1e-5, "{} differs from {}", l.0, o.0);
        let rv = right.evaluate(s);
        let o2 = curve.evaluate(r(u.0 + (1.0 - u.0) * s.0));
        assert!((rv.0 - o2.0).abs() < 1e-5, "{} differs from {}", rv.0, o2.0);
    }
}
