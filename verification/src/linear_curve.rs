use vstd::prelude::*;

use crate::InnerProductSpace;
use crate::QuadraticCurve;
use crate::Scalar;
use crate::VectorSpace;
use crate::scalar_laws;
use crate::vector_laws;

verus! {

/// A degree-1 polynomial curve in monomial basis: `evaluate(t) = x0 + x1·t`.
/// The curve's domain convention is `t ∈ [0,1]`, though the polynomial is
/// defined for all `t`. Closed-form throughout; no iteration is needed at
/// this degree.
pub struct LinearCurve<T: InnerProductSpace> {
    pub x0: T,
    pub x1: T,
}

impl<T: InnerProductSpace> LinearCurve<T> {
    /// The point of the polynomial at `t`, as a specification-level formula.
    pub open spec fn spec_evaluate(self, t: T::Scalar) -> T {
        self.x0.spec_add(self.x1.spec_scale(t))
    }

    /// The speed `|x1|` under the inner product.
    pub open spec fn spec_speed(self) -> T::Scalar {
        self.x1.spec_inner_product(self.x1).spec_sqrt()
    }

    pub fn new(x0: T, x1: T) -> (r: LinearCurve<T>)
        ensures
            r.x0 == x0,
            r.x1 == x1,
    {
        LinearCurve { x0, x1 }
    }

    pub fn x0(&self) -> (r: T)
        ensures
            r == self.x0,
    {
        self.x0
    }

    pub fn x1(&self) -> (r: T)
        ensures
            r == self.x1,
    {
        self.x1
    }

    pub fn evaluate(&self, t: T::Scalar) -> (r: T)
        ensures
            r == self.spec_evaluate(t),
    {
        self.x0.add(self.x1.scale(t))
    }

    /// The derivative of a degree-1 curve is the constant `x1`.
    pub fn evaluate_derivative(&self) -> (r: T)
        ensures
            r == self.x1,
    {
        self.x1
    }

    /// The curve whose Bezier control points for `t ∈ [0,1]` are `b0, b1`.
    pub fn from_bezier(b0: T, b1: T) -> (r: LinearCurve<T>)
        ensures
            r.x0 == b0,
            r.x1 == b1.spec_sub(b0),
    {
        LinearCurve { x0: b0, x1: b1.sub(b0) }
    }

    /// The Bezier control points of this curve for `t ∈ [0,1]`.
    pub fn to_bezier(&self) -> (r: (T, T))
        ensures
            r.0 == self.x0,
            r.1 == self.x0.spec_add(self.x1),
    {
        (self.x0, self.x0.add(self.x1))
    }

    /// Splits the curve at `u` into the reparameterized restrictions to
    /// `[0,u]` and `[u,1]`.
    pub fn subdivide(&self, u: T::Scalar) -> (r: (LinearCurve<T>, LinearCurve<T>))
        ensures
            r.0.x0 == self.x0,
            r.0.x1 == self.x1.spec_scale(u),
            r.1.x0 == self.x0.spec_add(self.x1.spec_scale(u)),
            r.1.x1 == self.x1.spec_scale(
                <T::Scalar as Scalar>::spec_from_int(1).spec_sub(u),
            ),
    {
        let x1u = self.x1.scale(u);
        let w = <T::Scalar as Scalar>::from_i32(1).sub(u);

        (
            LinearCurve::new(self.x0, x1u),
            LinearCurve::new(self.x0.add(x1u), self.x1.scale(w)),
        )
    }

    /// The same curve one degree up, with a vanishing quadratic coefficient.
    pub fn to_quadratic(&self) -> (r: QuadraticCurve<T>)
        ensures
            r.x0 == self.x0,
            r.x1 == self.x1,
            r.x2 == T::spec_zero(),
    {
        QuadraticCurve::new(self.x0, self.x1, T::zero())
    }

    pub fn speed(&self) -> (r: T::Scalar)
        ensures
            r == self.spec_speed(),
    {
        self.x1.inner_product(self.x1).sqrt()
    }

    /// The arc length of the curve from 0 to `u`: `u·speed`.
    pub fn length(&self, u: T::Scalar) -> (r: T::Scalar)
        ensures
            r == u.spec_mul(self.spec_speed()),
    {
        u.mul(self.speed())
    }

    /// The parameter at which the arc length from 0 reaches `v`. A degenerate
    /// (point) curve has zero speed everywhere and no valid arc-length
    /// inverse; there and only there the result is `None`.
    pub fn parameterize(&self, v: T::Scalar) -> (r: Option<T::Scalar>)
        ensures
            self.spec_speed().spec_eq(<T::Scalar as Scalar>::spec_from_int(0)) <==> r is None,
            r is Some ==> r->0 == v.spec_div(self.spec_speed()),
    {
        let speed = self.speed();
        if speed.is_eq(<T::Scalar as Scalar>::from_i32(0)) {
            None
        } else {
            Some(v.div(self.speed()))
        }
    }

    /// The unclamped projection parameter `⟨x1, q - x0⟩`; callers wanting a
    /// point on the segment are responsible for clamping to `[0,1]`.
    pub fn nearest_point(&self, q: T) -> (r: T::Scalar)
        ensures
            r == self.x1.spec_inner_product(q.spec_sub(self.x0)),
    {
        self.x1.inner_product(q.sub(self.x0))
    }

    /// Bezier round-trip: converting control points to a curve and back
    /// reproduces them, for any scalar satisfying the field laws.
    pub proof fn lemma_bezier_round_trip(b0: T, b1: T)
        requires
            scalar_laws::<T::Scalar>(),
            vector_laws::<T>(),
        ensures
            ({
                let c = LinearCurve { x0: b0, x1: b1.spec_sub(b0) };
                c.x0 == b0 && c.x0.spec_add(c.x1) == b1
            }),
    {
        crate::lemma_sub_def(b1, b0);
        crate::lemma_add_comm(b1, b0.spec_neg());
        crate::lemma_add_assoc(b0, b0.spec_neg(), b1);
        crate::lemma_add_neg(b0);
        crate::lemma_add_zero(b1);
    }

    /// Subdivision consistency: the left sub-curve at local parameter `s`
    /// equals the original at `u·s`, and the right sub-curve at `s` equals
    /// the original at `u + (1-u)·s`.
    pub proof fn lemma_subdivide_consistent(self, u: T::Scalar, s: T::Scalar)
        requires
            scalar_laws::<T::Scalar>(),
            vector_laws::<T>(),
        ensures
            ({
                let left = LinearCurve { x0: self.x0, x1: self.x1.spec_scale(u) };
                left.spec_evaluate(s) == self.spec_evaluate(u.spec_mul(s))
            }),
            ({
                let w = <T::Scalar as Scalar>::spec_from_int(1).spec_sub(u);
                let right = LinearCurve {
                    x0: self.x0.spec_add(self.x1.spec_scale(u)),
                    x1: self.x1.spec_scale(w),
                };
                right.spec_evaluate(s) == self.spec_evaluate(u.spec_add(w.spec_mul(s)))
            }),
    {
        let w = <T::Scalar as Scalar>::spec_from_int(1).spec_sub(u);
        let ws = w.spec_mul(s);
        crate::lemma_scale_compose(self.x1, u, s);
        crate::lemma_scale_compose(self.x1, w, s);
        crate::lemma_scale_distrib_s(self.x1, u, ws);
        crate::lemma_add_assoc(self.x0, self.x1.spec_scale(u), self.x1.spec_scale(ws));
    }
}

} // verus!

