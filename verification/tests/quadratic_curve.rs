use curves::InnerProductSpace;
use curves::QuadraticCurve;
use curves::Scalar;
use curves::Vector2;
use curves::VectorSpace;

/// An f32-backed scalar for exercising the kernel.
#[derive(Clone, Copy, Debug, PartialEq)]
struct R32(f32);

impl Scalar for R32 {
    fn add(self, other: Self) -> Self {
        R32(self.0 + other.0)
    }
    fn sub(self, other: Self) -> Self {
        R32(self.0 - other.0)
    }
    fn mul(self, other: Self) -> Self {
        R32(self.0 * other.0)
    }
    fn div(self, other: Self) -> Self {
        R32(self.0 / other.0)
    }
    fn neg(self) -> Self {
        R32(-self.0)
    }
    fn abs(self) -> Self {
        R32(self.0.abs())
    }
    fn sqrt(self) -> Self {
        R32(self.0.sqrt())
    }
    fn cbrt(self) -> Self {
        R32(self.0.cbrt())
    }
    fn ln(self) -> Self {
        R32(self.0.ln())
    }
    fn acos(self) -> Self {
        R32(self.0.acos())
    }
    fn cos(self) -> Self {
        R32(self.0.cos())
    }
    fn pi() -> Self {
        R32(std::f32::consts::PI)
    }
    fn from_i32(value: i32) -> Self {
        R32(value as f32)
    }
    fn is_eq(self, other: Self) -> bool {
        self.0 == other.0
    }
    fn is_lt(self, other: Self) -> bool {
        self.0 < other.0
    }
    fn is_le(self, other: Self) -> bool {
        self.0 <= other.0
    }
    fn is_gt(self, other: Self) -> bool {
        self.0 > other.0
    }
    fn is_ge(self, other: Self) -> bool {
        self.0 >= other.0
    }
}

impl VectorSpace for R32 {
    type Scalar = R32;

    fn add(self, other: Self) -> Self {
        R32(self.0 + other.0)
    }
    fn sub(self, other: Self) -> Self {
        R32(self.0 - other.0)
    }
    fn neg(self) -> Self {
        R32(-self.0)
    }
    fn scale(self, s: Self) -> Self {
        R32(self.0 * s.0)
    }
    fn div(self, s: Self) -> Self {
        R32(self.0 / s.0)
    }
    fn zero() -> Self {
        R32(0.0)
    }
}

impl InnerProductSpace for R32 {
    fn inner_product(self, other: Self) -> Self {
        R32(self.0 * other.0)
    }
}

fn ulps_eq(a: f32, b: f32) -> bool {
    if (a - b).abs() <= f32::EPSILON {
        return true;
    }
    if (a < 0.0) != (b < 0.0) {
        return false;
    }
    let ia = a.to_bits() as i64;
    let ib = b.to_bits() as i64;
    (ia - ib).abs() <= 4
}

fn assert_ulps(a: R32, b: f32) {
    assert!(ulps_eq(a.0, b), "{} is not close to {}", a.0, b);
}

fn r(v: f32) -> R32 {
    R32(v)
}

fn v2(x: f32, y: f32) -> Vector2<R32> {
    Vector2::new(R32(x), R32(y))
}

#[test]
fn quadratic_curve_evaluate() {
    let curve = QuadraticCurve::new(r(1.0), r(1.0), r(1.0));

    assert_ulps(curve.evaluate_second_derivative(), 2.0);

    assert_ulps(curve.evaluate(r(0.0)), 1.0);
    assert_ulps(curve.evaluate_first_derivative(r(0.0)), 1.0);

    assert_ulps(curve.evaluate(r(0.5)), 1.75);
    assert_ulps(curve.evaluate_first_derivative(r(0.5)), 2.0);

    assert_ulps(curve.evaluate(r(1.0)), 3.0);
    assert_ulps(curve.evaluate_first_derivative(r(1.0)), 3.0);
}

#[test]
fn quadratic_curve_bezier() {
    let test_cases = [
        (1f32, 1f32, 1f32),
        (2f32, 0f32, 1f32),
        (-1f32, 1f32, 0.5f32),
        (1f32, -1f32, -5f32),
        (6f32, -7f32, -9f32),
    ];
    for test_case in &test_cases {
        let curve = QuadraticCurve::from_bezier(r(test_case.0), r(test_case.1), r(test_case.2));
        let bezier = curve.to_bezier();
        assert_ulps(bezier.0, test_case.0);
        assert_ulps(bezier.1, test_case.1);
        assert_ulps(bezier.2, test_case.2);
    }
}

#[test]
fn quadratic_curve_subdivide() {
    let curve = QuadraticCurve::new(r(1.0), r(1.0), r(1.0));
    let (left, right) = curve.subdivide(r(0.25));

    assert_ulps(left.x0(), 1.0);
    assert_ulps(left.x1(), 0.25);
    assert_ulps(left.x2(), 0.0625);

    assert_ulps(right.x0(), 1.3125);
    assert_ulps(right.x1(), 1.125);
    assert_ulps(right.x2(), 0.5625);
}

#[test]
fn length() {
    let curve = QuadraticCurve::new(r(0.0), r(1.0), r(0.0));
    assert_ulps(curve.length(r(1.0)), 1.0);

    let curve = QuadraticCurve::from_bezier(r(0.0), r(2.0), r(1.0));
    assert_ulps(curve.length(r(1.0)), 5.0 / 3.0);

    let curve = QuadraticCurve::new(r(0.0), r(0.0), r(0.0));
    assert_ulps(curve.length(r(1.0)), 0.0);

    let curve = QuadraticCurve::new(v2(0.0, 0.0), v2(1.0, 0.0), v2(0.0, 1.0));
    assert_ulps(curve.length(r(1.0)), 1.4789429);
}

fn check_curve_parameterization<T: InnerProductSpace<Scalar = R32>>(curve: QuadraticCurve<T>) {
    const SAMPLES: i32 = 100;
    for i in 0..SAMPLES {
        let parameter = r(i as f32 / SAMPLES as f32);
        let length = curve.length(parameter);
        if curve.x2().inner_product(curve.x2()) == r(0.0)
            && curve.x1().inner_product(curve.x1()) == r(0.0)
        {
            assert_eq!(curve.parameterize(length, r(0.001), 9), None);
        } else {
            let recovered = curve.parameterize(length, r(0.001), 9).unwrap();
            let error = (curve.length(recovered).0 - length.0).abs();
            assert!(error <= 0.001, "length error {} is over the tolerance", error);
        }
    }
}

#[test]
fn parameterize() {
    let curve = QuadraticCurve::new(r(0.0), r(1.0), r(0.0));
    check_curve_parameterization(curve);

    let curve = QuadraticCurve::from_bezier(r(0.0), r(2.0), r(1.0));
    check_curve_parameterization(curve);

    let curve = QuadraticCurve::new(v2(0.0, 0.0), v2(1.0, 0.0), v2(0.0, 1.0));
    check_curve_parameterization(curve);

    let curve = QuadraticCurve::new(r(0.0), r(1.0), r(0.0));
    assert_eq!(curve.parameterize(r(2.0), r(0.001), 9), Some(r(1.0)));
    assert_eq!(curve.parameterize(r(-1.0), r(0.001), 9), Some(r(0.0)));

    let test_cases = [
        (1f32, 1f32, 1f32),
        (2f32, 0f32, 1f32),
        (-1f32, 1f32, 0.5f32),
        (1f32, -1f32, -5f32),
        (6f32, -7f32, -9f32),
    ];
    for test_case in &test_cases {
        let curve = QuadraticCurve::from_bezier(r(test_case.0), r(test_case.1), r(test_case.2));
        check_curve_parameterization(curve);
    }
}

#[test]
fn nearest_point() {
    let curve = QuadraticCurve::from_bezier(v2(0.0, 0.0), v2(0.5, 1.0), v2(1.0, 0.0));
    assert_ulps(curve.nearest_point(v2(0.5, 1.0)), 0.5);
    assert_ulps(curve.nearest_point(v2(-0.5, -0.5)), 0.0);
    assert_ulps(curve.nearest_point(v2(0.6, -0.5)), 1.0);
    assert_ulps(curve.nearest_point(v2(0.1, 0.3)), 0.15418649);

    let curve = QuadraticCurve::new(r(0.0), r(0.0), r(0.0));
    assert_ulps(curve.nearest_point(r(1.0)), 0.0);
    assert_ulps(curve.nearest_point(r(0.0)), 0.0);
    assert_ulps(curve.nearest_point(r(-1.0)), 0.0);

    let curve = QuadraticCurve::new(v2(1.0, 1.0), v2(1.0, 1.0), v2(0.0, 0.0));
    assert_ulps(curve.nearest_point(v2(0.0, 0.0)), 0.0);
    assert_ulps(curve.nearest_point(v2(2.5, 2.0)), 1.0);
    assert_ulps(curve.nearest_point(v2(1.0, 2.0)), 0.5);
}

#[test]
fn degenerate_quadratic() {
    let curve = QuadraticCurve::new(r(0.0), r(0.0), r(0.0));
    for i in 0..=10 {
        let u = r(i as f32 / 10.0);
        assert_eq!(curve.length(u), r(0.0));
        assert_eq!(curve.parameterize(u, r(0.001), 9), None);
    }
    assert_eq!(curve.nearest_point(r(3.0)), r(0.0));
}

#[test]
fn quadratic_subdivision_matches_curve() {
    let curve = QuadraticCurve::from_bezier(v2(0.0, 0.0), v2(0.5, 1.0), v2(1.0, 0.0));
    let u = r(0.3);
    let (left, right) = curve.subdivide(u);
    for i in 0..=10 {
        let s = r(i as f32 / 10.0);
        let l = left.evaluate(s);
        let o = curve.evaluate(r(u.0 * s.0));
        assert!((l.x.0 - o.x.0).abs() < 1e-6 && (l.y.0 - o.y.0).abs() < 1e-6);
        let rr = right.evaluate(s);
        let o2 = curve.evaluate(r(u.0 + (1.0 - u.0) * s.0));
        assert!((rr.x.0 - o2.x.0).abs() < 1e-6 && (rr.y.0 - o2.y.0).abs() < 1e-6);
    }
}

#[test]
fn quadratic_linear_approximations() {
    let curve = QuadraticCurve::new(r(1.0), r(2.0), r(4.0));

    let keeps_ends = curve.continuity_preserving_linear_approximation();
    assert_ulps(keeps_ends.evaluate(r(0.0)), curve.evaluate(r(0.0)).0);
    assert_ulps(keeps_ends.evaluate(r(1.0)), curve.evaluate(r(1.0)).0);

    let minimizes = curve.error_minimizing_linear_approximation();
    assert_ulps(minimizes.x0(), 1.0 - 4.0 / 8.0);
    assert_ulps(minimizes.x1(), 6.0);
}

#[test]
fn quadratic_to_cubic_agrees() {
    let curve = QuadraticCurve::new(r(1.0), r(-2.0), r(3.0));
    let cubic = curve.to_cubic();
    for i in 0..=8 {
        let t = r(i as f32 / 8.0);
        assert_ulps(cubic.evaluate(t), curve.evaluate(t).0);
    }
}
