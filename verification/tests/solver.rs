use curves::InnerProductSpace;
use curves::LinearCurve;
use curves::Scalar;
use curves::VectorSpace;
use curves::solve_cubic;
use curves::solve_linear;
use curves::solve_quadratic;

/// An f32-backed scalar for exercising the kernel.
#[derive(Clone, Copy, Debug, PartialEq)]
struct R32(f32);

impl Scalar for R32 {
    fn add(self, other: Self) -> Self {
        R32(self.0 + other.0)
    }
    fn sub(self, other: Self) -> Self {
        R32(self.0 - other.0)
    }
    fn mul(self, other: Self) -> Self {
        R32(self.0 * other.0)
    }
    fn div(self, other: Self) -> Self {
        R32(self.0 / other.0)
    }
    fn neg(self) -> Self {
        R32(-self.0)
    }
    fn abs(self) -> Self {
        R32(self.0.abs())
    }
    fn sqrt(self) -> Self {
        R32(self.0.sqrt())
    }
    fn cbrt(self) -> Self {
        R32(self.0.cbrt())
    }
    fn ln(self) -> Self {
        R32(self.0.ln())
    }
    fn acos(self) -> Self {
        R32(self.0.acos())
    }
    fn cos(self) -> Self {
        R32(self.0.cos())
    }
    fn pi() -> Self {
        R32(std::f32::consts::PI)
    }
    fn from_i32(value: i32) -> Self {
        R32(value as f32)
    }
    fn is_eq(self, other: Self) -> bool {
        self.0 == other.0
    }
    fn is_lt(self, other: Self) -> bool {
        self.0 < other.0
    }
    fn is_le(self, other: Self) -> bool {
        self.0 <= other.0
    }
    fn is_gt(self, other: Self) -> bool {
        self.0 > other.0
    }
    fn is_ge(self, other: Self) -> bool {
        self.0 >= other.0
    }
}

impl VectorSpace for R32 {
    type Scalar = R32;

    fn add(self, other: Self) -> Self {
        R32(self.0 + other.0)
    }
    fn sub(self, other: Self) -> Self {
        R32(self.0 - other.0)
    }
    fn neg(self) -> Self {
        R32(-self.0)
    }
    fn scale(self, s: Self) -> Self {
        R32(self.0 * s.0)
    }
    fn div(self, s: Self) -> Self {
        R32(self.0 / s.0)
    }
    fn zero() -> Self {
        R32(0.0)
    }
}

impl InnerProductSpace for R32 {
    fn inner_product(self, other: Self) -> Self {
        R32(self.0 * other.0)
    }
}

fn r(v: f32) -> R32 {
    R32(v)
}

fn residual_cubic(a: f32, b: f32, c: f32, d: f32, x: f32) -> f32 {
    a * x * x * x + b * x * x + c * x + d
}

#[test]
fn linear_roots() {
    let roots = solve_linear(r(2.0), r(4.0));
    assert_eq!(roots.as_slice(), &[r(-2.0)]);

    let roots = solve_linear(r(0.0), r(4.0));
    assert!(roots.as_slice().is_empty());
}

#[test]
fn quadratic_roots() {
    let roots = solve_quadratic(r(1.0), r(-3.0), r(2.0));
    assert_eq!(roots.as_slice(), &[r(2.0), r(1.0)]);

    // degree degradation, exactly once
    let roots = solve_quadratic(r(0.0), r(2.0), r(4.0));
    assert_eq!(roots.as_slice(), &[r(-2.0)]);

    let roots = solve_quadratic(r(0.0), r(0.0), r(4.0));
    assert!(roots.as_slice().is_empty());
}

#[test]
fn cubic_root_regimes() {
    // one real root: x³ + x = 0 has positive discriminant
    let roots = solve_cubic(r(1.0), r(0.0), r(1.0), r(0.0));
    assert_eq!(roots.as_slice().len(), 1);
    for root in roots.as_slice() {
        assert!(residual_cubic(1.0, 0.0, 1.0, 0.0, root.0).abs() < 1e-5);
    }

    // the boundary: x³ - 3x + 2 = (x - 1)²·(x + 2) has a vanishing
    // discriminant and exactly two reported roots
    let roots = solve_cubic(r(1.0), r(0.0), r(-3.0), r(2.0));
    assert_eq!(roots.as_slice().len(), 2);
    assert_eq!(roots.as_slice(), &[r(-2.0), r(1.0)]);

    // three distinct real roots: x³ - x = x·(x - 1)·(x + 1)
    let roots = solve_cubic(r(1.0), r(0.0), r(-1.0), r(0.0));
    assert_eq!(roots.as_slice().len(), 3);
    for root in roots.as_slice() {
        assert!(residual_cubic(1.0, 0.0, -1.0, 0.0, root.0).abs() < 1e-5);
    }

    // degree degradation
    let roots = solve_cubic(r(0.0), r(1.0), r(-3.0), r(2.0));
    assert_eq!(roots.as_slice(), &[r(2.0), r(1.0)]);
}

#[test]
fn linear_curve_basics() {
    let curve = LinearCurve::new(r(1.0), r(2.0));
    assert_eq!(curve.x0(), r(1.0));
    assert_eq!(curve.x1(), r(2.0));
    assert_eq!(curve.evaluate(r(0.5)), r(2.0));
    assert_eq!(curve.evaluate_derivative(), r(2.0));

    let curve = LinearCurve::from_bezier(r(3.0), r(7.0));
    let bezier = curve.to_bezier();
    assert_eq!(bezier, (r(3.0), r(7.0)));

    let quadratic = curve.to_quadratic();
    assert_eq!(quadratic.evaluate(r(0.25)), curve.evaluate(r(0.25)));
}

#[test]
fn linear_curve_subdivide_splits_proportionally() {
    let curve = LinearCurve::new(r(1.0), r(4.0));
    let (left, right) = curve.subdivide(r(0.25));

    assert_eq!(left.x0(), r(1.0));
    assert_eq!(left.x1(), r(1.0));
    assert_eq!(right.x0(), r(2.0));
    assert_eq!(right.x1(), r(3.0));

    // the right half at local parameter s matches the original at
    // 0.25 + 0.75·s
    assert_eq!(right.evaluate(r(1.0)), curve.evaluate(r(1.0)));
    assert_eq!(right.evaluate(r(0.5)), curve.evaluate(r(0.625)));
}

#[test]
fn linear_curve_lengths() {
    let curve = LinearCurve::new(r(5.0), r(-3.0));
    assert_eq!(curve.speed(), r(3.0));
    assert_eq!(curve.length(r(0.5)), r(1.5));
    assert_eq!(curve.parameterize(r(1.5)), Some(r(0.5)));
    assert_eq!(curve.nearest_point(r(6.5)), r(-4.5));

    let degenerate = LinearCurve::new(r(5.0), r(0.0));
    assert_eq!(degenerate.parameterize(r(1.0)), None);
    assert_eq!(degenerate.parameterize(r(0.0)), None);
}
