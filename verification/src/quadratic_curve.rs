use vstd::prelude::*;

use crate::CubicCurve;
use crate::InnerProductSpace;
use crate::LinearCurve;
use crate::Scalar;
use crate::VectorSpace;
use crate::inner_product_laws;
use crate::roots::solve_cubic;
use crate::roots::spec_solve_cubic;
use crate::scalar_analysis_laws;
use crate::scalar_laws;
use crate::vector_laws;

verus! {

/// A degree-2 polynomial curve in monomial basis:
/// `evaluate(t) = x0 + x1·t + x2·t²`. The curve's domain convention is
/// `t ∈ [0,1]`. This degree carries the kernel's numerically hard routines:
/// the closed-form arc-length integral, its hybrid Newton–bisection
/// inversion, and nearest-point projection through the cubic root solver.
pub struct QuadraticCurve<T: InnerProductSpace> {
    pub x0: T,
    pub x1: T,
    pub x2: T,
}

/// The instantaneous speed at `u` for squared-speed coefficients
/// `(c, b, a)`: the squared speed is itself a quadratic in `u`, so the speed
/// is `√(c + u·(b + a·u))`.
pub open spec fn spec_speed_from<S: Scalar>(u: S, c: S, b: S, a: S) -> S {
    c.spec_add(u.spec_mul(b.spec_add(a.spec_mul(u)))).spec_sqrt()
}

/// The closed-form arc length from 0 to `u` for squared-speed coefficients
/// `(c, b, a)`: `u·√c` when the quadratic term vanishes, and the standard
/// antiderivative of the square root of a quadratic otherwise, with the
/// logarithmic term skipped when its coefficient `k` is exactly zero (the
/// general formula is mathematically valid there too, but risks cancellation
/// and a logarithm of a ratio that should be exactly 1).
pub open spec fn spec_length_from<S: Scalar>(u: S, c: S, b: S, a: S) -> S {
    let s0 = c.spec_sqrt();
    if a.spec_abs().spec_eq(S::spec_from_int(0)) {
        u.spec_mul(s0)
    } else {
        let z = a.spec_sqrt();
        let n = S::spec_from_int(1).spec_div(S::spec_from_int(2).spec_mul(z));
        let p0 = b.spec_mul(n);
        let p1 = u.spec_mul(z).spec_add(p0);
        let k = c.spec_sub(p0.spec_mul(p0));
        let s1 = p1.spec_mul(p1).spec_add(k).spec_sqrt();
        if k.spec_abs().spec_eq(S::spec_from_int(0)) {
            n.spec_mul(p1.spec_mul(s1).spec_sub(p0.spec_mul(s0)))
        } else {
            n.spec_mul(
                p1.spec_mul(s1).spec_sub(p0.spec_mul(s0)).spec_add(
                    k.spec_mul(p1.spec_add(s1).spec_div(p0.spec_add(s0)).spec_ln()),
                ),
            )
        }
    }
}

/// One run of the bracketed hybrid Newton–bisection refinement for the
/// arc-length inverse, stated as a recurrence: the bracket `[l, r]` keeps
/// `f(l) ≤ 0 ≤ f(r)` for `f(u) = length(u) - v`; each step tries the Newton
/// update `x - f(x)/speed(x)` and falls back to the false-position estimate
/// when the update leaves the bracket; it stops when `|f(x)|` drops under the
/// tolerance or the fuel runs out, either way handing back the best estimate.
pub open spec fn spec_refine<S: Scalar>(
    c: S,
    b: S,
    a: S,
    v: S,
    tolerance: S,
    l: S,
    fl: S,
    r: S,
    fr: S,
    x: S,
    fuel: nat,
) -> S
    decreases fuel,
{
    if fuel == 0 {
        x
    } else {
        let fx = spec_length_from(x, c, b, a).spec_sub(v);
        if fx.spec_abs().spec_lt(tolerance) {
            x
        } else {
            let bracket = if S::spec_from_int(0).spec_lt(fx) {
                (l, fl, x, fx)
            } else {
                (x, fx, r, fr)
            };
            let (l2, fl2, r2, fr2) = bracket;
            let xn = x.spec_sub(fx.spec_div(spec_speed_from(x, c, b, a)));
            let x2 = if xn.spec_lt(l2) || r2.spec_lt(xn) {
                l2.spec_sub(r2.spec_sub(l2).spec_mul(fl2).spec_div(fr2.spec_sub(fl2)))
            } else {
                xn
            };
            spec_refine(c, b, a, v, tolerance, l2, fl2, r2, fr2, x2, (fuel - 1) as nat)
        }
    }
}

/// Whether `t` compares inside the curve domain `[0,1]`.
pub open spec fn spec_in_unit_range<S: Scalar>(t: S) -> bool {
    (S::spec_from_int(0).spec_lt(t) || t.spec_eq(S::spec_from_int(0))) && (t.spec_lt(
        S::spec_from_int(1),
    ) || t.spec_eq(S::spec_from_int(1)))
}

/// The distance from the query point to the curve point at `t`, through the
/// quartic squared-distance coefficients `(e, d, c, b, a)`:
/// `√(e + t·(d + t·(c + t·(b + a·t))))`.
pub open spec fn spec_distance<S: Scalar>(t: S, e: S, d: S, c: S, b: S, a: S) -> S {
    e.spec_add(
        t.spec_mul(d.spec_add(t.spec_mul(c.spec_add(t.spec_mul(b.spec_add(a.spec_mul(t))))))),
    ).spec_sqrt()
}

/// The scan of the nearest-point candidates: starting from the better
/// endpoint, each candidate parameter inside `[0,1]` whose distance compares
/// strictly under the best seen so far replaces it; ties keep the earlier
/// candidate.
pub open spec fn spec_select<S: Scalar>(
    candidates: Seq<S>,
    e: S,
    d: S,
    c: S,
    b: S,
    a: S,
    best_value: S,
    best_distance: S,
) -> S
    decreases candidates.len(),
{
    if candidates.len() == 0 {
        best_value
    } else {
        let t = candidates[0];
        if spec_in_unit_range(t) && spec_distance(t, e, d, c, b, a).spec_lt(best_distance) {
            spec_select(
                candidates.skip(1),
                e,
                d,
                c,
                b,
                a,
                t,
                spec_distance(t, e, d, c, b, a),
            )
        } else {
            spec_select(candidates.skip(1), e, d, c, b, a, best_value, best_distance)
        }
    }
}

impl<T: InnerProductSpace> QuadraticCurve<T> {
    /// The point of the polynomial at `t`, as a specification-level formula.
    pub open spec fn spec_evaluate(self, t: T::Scalar) -> T {
        self.x0.spec_add(self.x1.spec_add(self.x2.spec_scale(t)).spec_scale(t))
    }

    /// The first derivative `x1 + 2·x2·t`.
    pub open spec fn spec_first_derivative(self, t: T::Scalar) -> T {
        self.x1.spec_add(
            self.x2.spec_scale(t).spec_scale(<T::Scalar as Scalar>::spec_from_int(2)),
        )
    }

    /// The squared-speed coefficients `(c, b, a)`:
    /// `(⟨x1,x1⟩, 4·⟨x1,x2⟩, 4·⟨x2,x2⟩)`.
    pub open spec fn spec_speed_coefficients(self) -> (T::Scalar, T::Scalar, T::Scalar) {
        (
            self.x1.spec_inner_product(self.x1),
            self.x1.spec_inner_product(self.x2).spec_mul(<T::Scalar as Scalar>::spec_from_int(4)),
            self.x2.spec_inner_product(self.x2).spec_mul(<T::Scalar as Scalar>::spec_from_int(4)),
        )
    }

    /// The arc length of the curve from 0 to `u`.
    pub open spec fn spec_length(self, u: T::Scalar) -> T::Scalar {
        let (c, b, a) = self.spec_speed_coefficients();
        spec_length_from(u, c, b, a)
    }

    /// The quartic squared-distance coefficients `(e, d, c, b, a)` for the
    /// query point `q`.
    pub open spec fn spec_distance_coefficients(self, q: T) -> (
        T::Scalar,
        T::Scalar,
        T::Scalar,
        T::Scalar,
        T::Scalar,
    ) {
        let two = <T::Scalar as Scalar>::spec_from_int(2);
        let a = self.x2.spec_inner_product(self.x2);
        let b = self.x1.spec_inner_product(self.x2).spec_mul(two);
        let c = self.x0.spec_sub(q).spec_inner_product(self.x2).spec_mul(two).spec_add(
            self.x1.spec_inner_product(self.x1),
        );
        let d = self.x0.spec_sub(q).spec_inner_product(self.x1).spec_mul(two);
        let e = self.x0.spec_sub(q).spec_inner_product(self.x0.spec_sub(q));
        (e, d, c, b, a)
    }

    /// The parameter that [`QuadraticCurve::nearest_point`] returns for `q`.
    pub open spec fn spec_nearest_point(self, q: T) -> T::Scalar {
        let (e, d, c, b, a) = self.spec_distance_coefficients(q);
        let zero = <T::Scalar as Scalar>::spec_from_int(0);
        let one = <T::Scalar as Scalar>::spec_from_int(1);
        let left_distance = spec_distance(zero, e, d, c, b, a);
        let right_distance = spec_distance(one, e, d, c, b, a);
        let best = if left_distance.spec_lt(right_distance) || left_distance.spec_eq(
            right_distance,
        ) {
            (zero, left_distance)
        } else {
            (one, right_distance)
        };
        let four = <T::Scalar as Scalar>::spec_from_int(4);
        let three = <T::Scalar as Scalar>::spec_from_int(3);
        let two = <T::Scalar as Scalar>::spec_from_int(2);
        let candidates = spec_solve_cubic(
            four.spec_mul(a),
            three.spec_mul(b),
            two.spec_mul(c),
            d,
        );
        spec_select(candidates, e, d, c, b, a, best.0, best.1)
    }

    pub fn new(x0: T, x1: T, x2: T) -> (r: QuadraticCurve<T>)
        ensures
            r.x0 == x0,
            r.x1 == x1,
            r.x2 == x2,
    {
        QuadraticCurve { x0, x1, x2 }
    }

    pub fn x0(&self) -> (r: T)
        ensures
            r == self.x0,
    {
        self.x0
    }

    pub fn x1(&self) -> (r: T)
        ensures
            r == self.x1,
    {
        self.x1
    }

    pub fn x2(&self) -> (r: T)
        ensures
            r == self.x2,
    {
        self.x2
    }

    pub fn evaluate(&self, t: T::Scalar) -> (r: T)
        ensures
            r == self.spec_evaluate(t),
    {
        self.x0.add(self.x1.add(self.x2.scale(t)).scale(t))
    }

    pub fn evaluate_first_derivative(&self, t: T::Scalar) -> (r: T)
        ensures
            r == self.spec_first_derivative(t),
    {
        self.x1.add(self.x2.scale(t).scale(<T::Scalar as Scalar>::from_i32(2)))
    }

    /// The second derivative of a degree-2 curve is the constant `2·x2`.
    pub fn evaluate_second_derivative(&self) -> (r: T)
        ensures
            r == self.x2.spec_scale(<T::Scalar as Scalar>::spec_from_int(2)),
    {
        self.x2.scale(<T::Scalar as Scalar>::from_i32(2))
    }

    /// The curve whose Bezier control points for `t ∈ [0,1]` are
    /// `b0, b1, b2`.
    pub fn from_bezier(b0: T, b1: T, b2: T) -> (r: QuadraticCurve<T>)
        ensures
            r.x0 == b0,
            r.x1 == b0.spec_scale(<T::Scalar as Scalar>::spec_from_int(-2)).spec_add(
                b1.spec_scale(<T::Scalar as Scalar>::spec_from_int(2)),
            ),
            r.x2 == b0.spec_add(
                b1.spec_scale(<T::Scalar as Scalar>::spec_from_int(-2)),
            ).spec_add(b2),
    {
        QuadraticCurve {
            x0: b0,
            x1: b0.scale(<T::Scalar as Scalar>::from_i32(-2)).add(
                b1.scale(<T::Scalar as Scalar>::from_i32(2)),
            ),
            x2: b0.add(b1.scale(<T::Scalar as Scalar>::from_i32(-2))).add(b2),
        }
    }

    /// The Bezier control points of this curve for `t ∈ [0,1]`.
    pub fn to_bezier(&self) -> (r: (T, T, T))
        ensures
            r.0 == self.x0,
            r.1 == self.x0.spec_add(self.x1.spec_div(<T::Scalar as Scalar>::spec_from_int(2))),
            r.2 == self.x0.spec_add(self.x1).spec_add(self.x2),
    {
        (
            self.x0,
            self.x0.add(self.x1.div(<T::Scalar as Scalar>::from_i32(2))),
            self.x0.add(self.x1).add(self.x2),
        )
    }

    /// Splits the curve at `u` into two reparameterized quadratics whose
    /// monomial coefficients come from the original coefficients scaled by
    /// powers of `u` and its complement `w = 1 - u`.
    pub fn subdivide(&self, u: T::Scalar) -> (r: (QuadraticCurve<T>, QuadraticCurve<T>))
        ensures
            ({
                let w = <T::Scalar as Scalar>::spec_from_int(1).spec_sub(u);
                let x1u = self.x1.spec_scale(u);
                let x2u = self.x2.spec_scale(u);
                let x2u2 = x2u.spec_scale(u);
                &&& r.0.x0 == self.x0
                &&& r.0.x1 == x1u
                &&& r.0.x2 == x2u2
                &&& r.1.x0 == self.x0.spec_add(x1u).spec_add(x2u2)
                &&& r.1.x1 == self.x1.spec_add(
                    x2u.spec_scale(<T::Scalar as Scalar>::spec_from_int(2)),
                ).spec_scale(w)
                &&& r.1.x2 == self.x2.spec_scale(w).spec_scale(w)
            }),
    {
        let x1u = self.x1.scale(u);
        let x2u = self.x2.scale(u);
        let x2u2 = x2u.scale(u);
        let w = <T::Scalar as Scalar>::from_i32(1).sub(u);

        (
            QuadraticCurve::new(self.x0, x1u, x2u2),
            QuadraticCurve::new(
                self.x0.add(x1u).add(x2u2),
                self.x1.add(x2u.scale(<T::Scalar as Scalar>::from_i32(2))).scale(w),
                self.x2.scale(w).scale(w),
            ),
        )
    }

    /// The same curve one degree up, with a vanishing cubic coefficient.
    pub fn to_cubic(&self) -> (r: CubicCurve<T>)
        ensures
            r.x0 == self.x0,
            r.x1 == self.x1,
            r.x2 == self.x2,
            r.x3 == T::spec_zero(),
    {
        CubicCurve::new(self.x0, self.x1, self.x2, T::zero())
    }

    fn speed_coefficients(&self) -> (r: (T::Scalar, T::Scalar, T::Scalar))
        ensures
            r == self.spec_speed_coefficients(),
    {
        let a = self.x2.inner_product(self.x2).mul(<T::Scalar as Scalar>::from_i32(4));
        let b = self.x1.inner_product(self.x2).mul(<T::Scalar as Scalar>::from_i32(4));
        let c = self.x1.inner_product(self.x1);
        (c, b, a)
    }

    fn speed_from_coefficients(
        &self,
        u: T::Scalar,
        coefficients: (T::Scalar, T::Scalar, T::Scalar),
    ) -> (r: T::Scalar)
        ensures
            r == spec_speed_from(u, coefficients.0, coefficients.1, coefficients.2),
    {
        let (c, b, a) = coefficients;
        c.add(u.mul(b.add(a.mul(u)))).sqrt()
    }

    /// The instantaneous speed at `u`: the square root of the squared-speed
    /// quadratic.
    pub fn speed(&self, u: T::Scalar) -> (r: T::Scalar)
        ensures
            ({
                let (c, b, a) = self.spec_speed_coefficients();
                r == spec_speed_from(u, c, b, a)
            }),
    {
        self.speed_from_coefficients(u, self.speed_coefficients())
    }

    fn length_from_coefficients(
        &self,
        u: T::Scalar,
        coefficients: (T::Scalar, T::Scalar, T::Scalar),
    ) -> (r: T::Scalar)
        ensures
            r == spec_length_from(u, coefficients.0, coefficients.1, coefficients.2),
    {
        let (c, b, a) = coefficients;
        let s0 = c.sqrt();
        if a.abs().is_eq(<T::Scalar as Scalar>::from_i32(0)) {
            u.mul(s0)
        } else {
            let z = a.sqrt();
            let n = <T::Scalar as Scalar>::from_i32(1).div(
                <T::Scalar as Scalar>::from_i32(2).mul(z),
            );
            let p0 = b.mul(n);
            let p1 = u.mul(z).add(p0);
            let k = c.sub(p0.mul(p0));
            let s1 = p1.mul(p1).add(k).sqrt();
            if k.abs().is_eq(<T::Scalar as Scalar>::from_i32(0)) {
                n.mul(p1.mul(s1).sub(p0.mul(s0)))
            } else {
                n.mul(p1.mul(s1).sub(p0.mul(s0)).add(k.mul(p1.add(s1).div(p0.add(s0)).ln())))
            }
        }
    }

    /// The arc length of the curve from 0 to `u`, in closed form.
    pub fn length(&self, u: T::Scalar) -> (r: T::Scalar)
        ensures
            r == self.spec_length(u),
    {
        self.length_from_coefficients(u, self.speed_coefficients())
    }

    /// Inverts [`QuadraticCurve::length`]: the parameter `u ∈ [0,1]` at which
    /// the arc length from 0 reaches `v`. A degenerate curve — all three
    /// squared-speed coefficients compare equal to zero — has no meaningful
    /// inverse, and there and only there the result is `None`. A target
    /// before the start of the curve clamps to 0, one past its total length
    /// clamps to 1; otherwise a bracketed hybrid Newton–bisection refinement
    /// ([`spec_refine`]) runs for at most `max_iters` steps and the best
    /// estimate comes back even when the tolerance was not reached — a
    /// deliberate best-effort contract, with no failure mode.
    #[verifier::loop_isolation(false)]
    pub fn parameterize(&self, v: T::Scalar, tolerance: T::Scalar, max_iters: usize) -> (r: Option<
        T::Scalar,
    >)
        ensures
            ({
                let (c, b, a) = self.spec_speed_coefficients();
                let zero = <T::Scalar as Scalar>::spec_from_int(0);
                let one = <T::Scalar as Scalar>::spec_from_int(1);
                let degenerate = c.spec_eq(zero) && b.spec_eq(zero) && a.spec_eq(zero);
                let fl = v.spec_neg();
                let fr = spec_length_from(one, c, b, a).spec_sub(v);
                let x = zero.spec_sub(
                    one.spec_sub(zero).spec_mul(fl).spec_div(fr.spec_sub(fl)),
                );
                &&& (r is None <==> degenerate)
                &&& !degenerate ==> r->0 == (if zero.spec_lt(fl) {
                    zero
                } else if fr.spec_lt(zero) {
                    one
                } else {
                    spec_refine(c, b, a, v, tolerance, zero, fl, one, fr, x, max_iters as nat)
                })
            }),
    {
        let coefficients = self.speed_coefficients();
        let zero = <T::Scalar as Scalar>::from_i32(0);
        let one = <T::Scalar as Scalar>::from_i32(1);

        if coefficients.0.is_eq(zero) && coefficients.1.is_eq(zero) && coefficients.2.is_eq(zero) {
            None
        } else {
            let mut l = zero;
            let mut fl = v.neg();
            let mut r = one;
            let mut fr = self.length_from_coefficients(r, coefficients).sub(v);
            let mut x = l.sub(r.sub(l).mul(fl).div(fr.sub(fl)));

            if fl.is_gt(zero) {
                Some(zero)
            } else if fr.is_lt(zero) {
                Some(one)
            } else {
                let (c, b, a) = coefficients;
                let ghost target = spec_refine(
                    c,
                    b,
                    a,
                    v,
                    tolerance,
                    l,
                    fl,
                    r,
                    fr,
                    x,
                    max_iters as nat,
                );
                let mut i: usize = 0;
                let mut done = false;
                while i < max_iters && !done
                    invariant
                        i <= max_iters,
                        done ==> x == target,
                        !done ==> spec_refine(
                            c,
                            b,
                            a,
                            v,
                            tolerance,
                            l,
                            fl,
                            r,
                            fr,
                            x,
                            (max_iters - i) as nat,
                        ) == target,
                    decreases max_iters - i + (if done { 0int } else { 1int }),
                {
                    let ghost fuel = (max_iters - i) as nat;
                    let ghost (l0, fl0, r0, fr0, x0) = (l, fl, r, fr, x);
                    let fx = self.length_from_coefficients(x, coefficients).sub(v);
                    if fx.abs().is_lt(tolerance) {
                        done = true;
                        proof {
                            assert(spec_refine(c, b, a, v, tolerance, l0, fl0, r0, fr0, x0, fuel)
                                == x0);
                        }
                    } else {
                        if fx.is_gt(zero) {
                            // the root is to the left
                            r = x;
                            fr = fx;
                        } else {
                            // the root is to the right
                            l = x;
                            fl = fx;
                        }

                        // approximate the next location of x with Newton's
                        // method, falling back to the false-position estimate
                        // when the step leaves the bracket
                        let xn = x.sub(fx.div(self.speed_from_coefficients(x, coefficients)));
                        if xn.is_lt(l) || xn.is_gt(r) {
                            x = l.sub(r.sub(l).mul(fl).div(fr.sub(fl)));
                        } else {
                            x = xn;
                        }
                        i = i + 1;
                        proof {
                            assert(spec_refine(c, b, a, v, tolerance, l0, fl0, r0, fr0, x0, fuel)
                                == spec_refine(c, b, a, v, tolerance, l, fl, r, fr, x, (fuel
                                - 1) as nat));
                        }
                    }
                }
                proof {
                    if !done {
                        assert(spec_refine(c, b, a, v, tolerance, l, fl, r, fr, x, 0) == x);
                    }
                }
                Some(x)
            }
        }
    }

    /// The parameter in `[0,1]` whose curve point compares nearest to `q`
    /// under the inner product. Squared distance is a quartic in `t`; its
    /// minimum sits at an endpoint or at a real root of the derivative cubic
    /// inside `[0,1]`, and the scan keeps whichever candidate compares
    /// strictly nearer, endpoints first (left before right), then the roots
    /// in the solver's order.
    #[verifier::loop_isolation(false)]
    pub fn nearest_point(&self, q: T) -> (r: T::Scalar)
        ensures
            r == self.spec_nearest_point(q),
    {
        let zero = <T::Scalar as Scalar>::from_i32(0);
        let one = <T::Scalar as Scalar>::from_i32(1);
        let two = <T::Scalar as Scalar>::from_i32(2);

        let a = self.x2.inner_product(self.x2);
        let b = self.x1.inner_product(self.x2).mul(two);
        let c = self.x0.sub(q).inner_product(self.x2).mul(two).add(
            self.x1.inner_product(self.x1),
        );
        let d = self.x0.sub(q).inner_product(self.x1).mul(two);
        let e = self.x0.sub(q).inner_product(self.x0.sub(q));

        let left_value = zero;
        let left_distance = self.distance_at(left_value, e, d, c, b, a);
        let right_value = one;
        let right_distance = self.distance_at(right_value, e, d, c, b, a);

        let mut best_value = left_value;
        let mut best_distance = left_distance;
        if !left_distance.is_le(right_distance) {
            best_value = right_value;
            best_distance = right_distance;
        }

        let roots = solve_cubic(
            <T::Scalar as Scalar>::from_i32(4).mul(a),
            <T::Scalar as Scalar>::from_i32(3).mul(b),
            two.mul(c),
            d,
        );
        let slice = roots.as_slice();
        let ghost candidates = slice@;
        let ghost target = spec_select(candidates, e, d, c, b, a, best_value, best_distance);
        proof {
            assert(candidates.skip(0) =~= candidates);
        }

        let mut i: usize = 0;
        while i < slice.len()
            invariant
                i <= slice.len(),
                candidates == slice@,
                spec_select(
                    candidates.skip(i as int),
                    e,
                    d,
                    c,
                    b,
                    a,
                    best_value,
                    best_distance,
                ) == target,
            decreases slice.len() - i,
        {
            let ghost rest = candidates.skip(i as int);
            let ghost (bv0, bd0) = (best_value, best_distance);
            proof {
                assert(rest[0] == candidates[i as int]);
                assert(rest.skip(1) =~= candidates.skip(i as int + 1));
            }
            let root = slice[i];
            if root.is_ge(zero) && root.is_le(one) {
                let root_distance = self.distance_at(root, e, d, c, b, a);
                if root_distance.is_lt(best_distance) {
                    best_value = root;
                    best_distance = root_distance;
                }
            }
            i = i + 1;
            proof {
                assert(spec_select(rest, e, d, c, b, a, bv0, bd0) == spec_select(
                    candidates.skip(i as int),
                    e,
                    d,
                    c,
                    b,
                    a,
                    best_value,
                    best_distance,
                ));
            }
        }

        best_value
    }

    fn distance_at(
        &self,
        t: T::Scalar,
        e: T::Scalar,
        d: T::Scalar,
        c: T::Scalar,
        b: T::Scalar,
        a: T::Scalar,
    ) -> (r: T::Scalar)
        ensures
            r == spec_distance(t, e, d, c, b, a),
    {
        e.add(t.mul(d.add(t.mul(c.add(t.mul(b.add(a.mul(t)))))))).sqrt()
    }

    /// The linear curve that minimizes the worst-case deviation from this
    /// quadratic over `[0,1]`: both endpoints shift slightly to halve the
    /// peak error of the continuity-preserving approximation.
    pub fn error_minimizing_linear_approximation(&self) -> (r: LinearCurve<T>)
        ensures
            r.x0 == self.x0.spec_sub(self.x2.spec_div(<T::Scalar as Scalar>::spec_from_int(8))),
            r.x1 == self.x1.spec_add(self.x2),
    {
        LinearCurve::new(
            self.x0.sub(self.x2.div(<T::Scalar as Scalar>::from_i32(8))),
            self.x1.add(self.x2),
        )
    }

    /// The linear curve that interpolates this quadratic's endpoints exactly,
    /// accepting a higher interior error.
    pub fn continuity_preserving_linear_approximation(&self) -> (r: LinearCurve<T>)
        ensures
            r.x0 == self.x0,
            r.x1 == self.x1.spec_add(self.x2),
    {
        LinearCurve::new(self.x0, self.x1.add(self.x2))
    }

    /// Bezier round-trip: converting control points to a curve and back
    /// reproduces them, for any scalar satisfying the field laws.
    pub proof fn lemma_bezier_round_trip(b0: T, b1: T, b2: T)
        requires
            scalar_laws::<T::Scalar>(),
            vector_laws::<T>(),
        ensures
            ({
                let m2 = <T::Scalar as Scalar>::spec_from_int(-2);
                let two = <T::Scalar as Scalar>::spec_from_int(2);
                let c = QuadraticCurve {
                    x0: b0,
                    x1: b0.spec_scale(m2).spec_add(b1.spec_scale(two)),
                    x2: b0.spec_add(b1.spec_scale(m2)).spec_add(b2),
                };
                &&& c.x0 == b0
                &&& c.x0.spec_add(c.x1.spec_div(two)) == b1
                &&& c.x0.spec_add(c.x1).spec_add(c.x2) == b2
            }),
    {
        let m2 = <T::Scalar as Scalar>::spec_from_int(-2);
        let m1 = <T::Scalar as Scalar>::spec_from_int(-1);
        let one = <T::Scalar as Scalar>::spec_from_int(1);
        let two = <T::Scalar as Scalar>::spec_from_int(2);
        let p = b0.spec_scale(m2);
        let q = b1.spec_scale(two);
        let x1 = p.spec_add(q);
        let half = one.spec_div(two);

        // the middle control point comes back: b0 + x1/2 == b1
        crate::lemma_s_from_injective::<T::Scalar>(2, 0);
        crate::lemma_div_as_scale(x1, two);
        crate::lemma_scale_distrib_v(p, q, half);
        crate::lemma_scale_compose(b0, m2, half);
        crate::lemma_scale_compose(b1, two, half);
        crate::lemma_s_div_mul::<T::Scalar>(one, two);
        crate::lemma_s_mul_comm(two, half);
        crate::lemma_s_from_neg::<T::Scalar>(2);
        crate::lemma_s_neg_mul(two, half);
        crate::lemma_s_from_neg::<T::Scalar>(1);
        crate::lemma_scale_units(b0);
        crate::lemma_scale_units(b1);
        crate::lemma_add_assoc(b0, b0.spec_neg(), b1);
        crate::lemma_add_neg(b0);
        crate::lemma_add_zero(b1);
        assert(b0.spec_add(x1.spec_div(two)) == b1);

        // the last control point comes back: (b0 + x1) + x2 == b2
        let r = b1.spec_scale(m2);
        crate::lemma_scale_collect(b0, 1, -2);
        crate::lemma_add_assoc(b0, p, q);
        crate::lemma_add_swap_middle(b0.spec_scale(m1), q, b0.spec_add(r), b2);
        crate::lemma_add_assoc(b0.spec_scale(m1), b0, r);
        crate::lemma_scale_collect(b0, -1, 1);
        crate::lemma_add_zero(r);
        crate::lemma_scale_collect(b1, -2, 2);
        crate::lemma_add_assoc(r, q, b2);
        crate::lemma_add_zero(b2);
        assert(b0.spec_add(x1).spec_add(b0.spec_add(r).spec_add(b2)) == b2);
    }

    /// Subdivision consistency: the left sub-curve at local parameter `s`
    /// equals the original at `u·s`, and the right sub-curve at `s` equals
    /// the original at `u + (1-u)·s`.
    pub proof fn lemma_subdivide_consistent(self, u: T::Scalar, s: T::Scalar)
        requires
            scalar_laws::<T::Scalar>(),
            vector_laws::<T>(),
        ensures
            ({
                let left = QuadraticCurve {
                    x0: self.x0,
                    x1: self.x1.spec_scale(u),
                    x2: self.x2.spec_scale(u).spec_scale(u),
                };
                left.spec_evaluate(s) == self.spec_evaluate(u.spec_mul(s))
            }),
            ({
                let two = <T::Scalar as Scalar>::spec_from_int(2);
                let w = <T::Scalar as Scalar>::spec_from_int(1).spec_sub(u);
                let x1u = self.x1.spec_scale(u);
                let x2u = self.x2.spec_scale(u);
                let right = QuadraticCurve {
                    x0: self.x0.spec_add(x1u).spec_add(x2u.spec_scale(u)),
                    x1: self.x1.spec_add(x2u.spec_scale(two)).spec_scale(w),
                    x2: self.x2.spec_scale(w).spec_scale(w),
                };
                right.spec_evaluate(s) == self.spec_evaluate(u.spec_add(w.spec_mul(s)))
            }),
    {
        let one = <T::Scalar as Scalar>::spec_from_int(1);
        let two = <T::Scalar as Scalar>::spec_from_int(2);
        let w = one.spec_sub(u);
        let x0 = self.x0;
        let x1 = self.x1;
        let x2 = self.x2;
        let us = u.spec_mul(s);
        let uu = u.spec_mul(u);
        let ss = s.spec_mul(s);

        // the left identity: both sides expand to x0 + (x1·(u·s) + x2·(u·u·(s·s)))
        crate::lemma_scale_distrib_v(
            x1.spec_scale(u),
            x2.spec_scale(u).spec_scale(u).spec_scale(s),
            s,
        );
        crate::lemma_scale_compose(x1, u, s);
        crate::lemma_scale_compose(x2, u, u);
        crate::lemma_scale_compose(x2.spec_scale(uu), s, s);
        crate::lemma_scale_compose(x2, uu, ss);
        crate::lemma_scale_distrib_v(x1, x2.spec_scale(us), us);
        crate::lemma_scale_compose(x2, us, us);
        assert(us.spec_mul(us) == uu.spec_mul(ss)) by {
            crate::lemma_s_mul_assoc(u, s, us);
            crate::lemma_s_mul_assoc(s, u, s);
            crate::lemma_s_mul_comm(s, u);
            crate::lemma_s_mul_assoc(u, s, s);
            crate::lemma_s_mul_assoc(u, u, ss);
        }

        // the right identity: both sides expand to
        // (x0 + x1·u + x2·(u·u)) + (x1·(w·s) + x2·(2·(u·(w·s))) + x2·((w·s)·(w·s)))
        let ws = w.spec_mul(s);
        let t = u.spec_add(ws);
        let h = u.spec_mul(ws);
        let c2 = two.spec_mul(h);
        let c3 = ws.spec_mul(ws);
        let va = x0;
        let vb = x1.spec_scale(u);
        let vc = x2.spec_scale(uu);
        let vd = x1.spec_scale(ws);
        let ve = x2.spec_scale(c2);
        let vf = x2.spec_scale(c3);

        // the original curve at t
        crate::lemma_scale_distrib_v(x1, x2.spec_scale(t), t);
        crate::lemma_scale_distrib_s(x1, u, ws);
        crate::lemma_scale_compose(x2, t, t);
        assert(t.spec_mul(t) == uu.spec_add(c2).spec_add(c3)) by {
            crate::lemma_s_distrib(t, u, ws);
            crate::lemma_s_mul_comm(t, u);
            crate::lemma_s_distrib(u, u, ws);
            crate::lemma_s_mul_comm(t, ws);
            crate::lemma_s_distrib(ws, u, ws);
            crate::lemma_s_mul_comm(ws, u);
            crate::lemma_s_mul_comm(two, h);
            crate::lemma_s_distrib(h, one, one);
            crate::lemma_s_mul_one(h);
            crate::lemma_s_from_add::<T::Scalar>(1, 1);
            crate::lemma_s_add_assoc(uu, h, h.spec_add(c3));
            crate::lemma_s_add_assoc(h, h, c3);
            crate::lemma_s_add_assoc(uu, h.spec_add(h), c3);
        }
        crate::lemma_scale_distrib_s(x2, uu.spec_add(c2), c3);
        crate::lemma_scale_distrib_s(x2, uu, c2);
        assert(self.spec_evaluate(t) == va.spec_add(
            vb.spec_add(vd).spec_add(vc.spec_add(ve).spec_add(vf)),
        ));

        // the right sub-curve at s
        let x1r = x1.spec_add(x2.spec_scale(u).spec_scale(two)).spec_scale(w);
        let x2r = x2.spec_scale(w).spec_scale(w);
        let u2t = u.spec_mul(two);
        crate::lemma_scale_distrib_v(x1r, x2r.spec_scale(s), s);
        crate::lemma_scale_distrib_v(x1, x2.spec_scale(u).spec_scale(two), w);
        crate::lemma_scale_distrib_v(
            x1.spec_scale(w),
            x2.spec_scale(u).spec_scale(two).spec_scale(w),
            s,
        );
        crate::lemma_scale_compose(x1, w, s);
        crate::lemma_scale_compose(x2, u, two);
        crate::lemma_scale_compose(x2.spec_scale(u2t), w, s);
        crate::lemma_scale_compose(x2, u2t, ws);
        assert(u2t.spec_mul(ws) == c2) by {
            crate::lemma_s_mul_comm(u, two);
            crate::lemma_s_mul_assoc(two, u, ws);
        }
        assert(x1r.spec_scale(s) == vd.spec_add(ve));
        crate::lemma_scale_compose(x2, w, w);
        crate::lemma_scale_compose(x2.spec_scale(w.spec_mul(w)), s, s);
        crate::lemma_scale_compose(x2, w.spec_mul(w), ss);
        assert(c3 == w.spec_mul(w).spec_mul(ss)) by {
            crate::lemma_s_mul_assoc(w, s, ws);
            crate::lemma_s_mul_assoc(s, w, s);
            crate::lemma_s_mul_comm(s, w);
            crate::lemma_s_mul_assoc(w, s, s);
            crate::lemma_s_mul_assoc(w, w, ss);
        }
        assert(x2r.spec_scale(s).spec_scale(s) == vf);
        let right = QuadraticCurve {
            x0: x0.spec_add(vb).spec_add(x2.spec_scale(u).spec_scale(u)),
            x1: x1r,
            x2: x2r,
        };
        assert(right.spec_evaluate(s) == va.spec_add(vb).spec_add(vc).spec_add(
            vd.spec_add(ve).spec_add(vf),
        ));

        // assembling: ((a + b) + c) + ((d + e) + f) == a + ((b + d) + ((c + e) + f))
        crate::lemma_add_assoc(va.spec_add(vb), vc, vd.spec_add(ve).spec_add(vf));
        assert(vc.spec_add(vd.spec_add(ve).spec_add(vf)) == vd.spec_add(
            vc.spec_add(ve).spec_add(vf),
        )) by {
            crate::lemma_add_comm(vc, vd.spec_add(ve).spec_add(vf));
            crate::lemma_add_assoc(vd.spec_add(ve), vf, vc);
            crate::lemma_add_comm(vf, vc);
            crate::lemma_add_assoc(vd, ve, vc.spec_add(vf));
            crate::lemma_add_assoc(ve, vc, vf);
            crate::lemma_add_comm(ve, vc);
            crate::lemma_add_assoc(vc, ve, vf);
        }
        crate::lemma_add_assoc(va, vb, vd.spec_add(vc.spec_add(ve).spec_add(vf)));
        crate::lemma_add_assoc(vb, vd, vc.spec_add(ve).spec_add(vf));
    }

    /// Derivative consistency: the first derivative is the evaluation of the
    /// coefficient-wise differentiated polynomial, one degree down, and the
    /// second derivative is in turn that curve's constant derivative.
    pub proof fn lemma_derivative_consistent(self, t: T::Scalar)
        requires
            scalar_laws::<T::Scalar>(),
            vector_laws::<T>(),
        ensures
            ({
                let two = <T::Scalar as Scalar>::spec_from_int(2);
                let derivative = LinearCurve { x0: self.x1, x1: self.x2.spec_scale(two) };
                &&& self.spec_first_derivative(t) == derivative.spec_evaluate(t)
                &&& self.x2.spec_scale(two) == derivative.x1
            }),
    {
        let two = <T::Scalar as Scalar>::spec_from_int(2);
        crate::lemma_scale_compose(self.x2, t, two);
        crate::lemma_scale_compose(self.x2, two, t);
        crate::lemma_s_mul_comm(t, two);
    }

    /// Degenerate curve: when every coefficient is the zero vector the
    /// squared-speed coefficients all vanish, the arc length is zero for
    /// every parameter, and (through the contract of
    /// [`QuadraticCurve::parameterize`]) no target has an arc-length inverse.
    pub proof fn lemma_degenerate_curve(self, u: T::Scalar)
        requires
            scalar_laws::<T::Scalar>(),
            scalar_analysis_laws::<T::Scalar>(),
            vector_laws::<T>(),
            inner_product_laws::<T>(),
            self.x0 == T::spec_zero(),
            self.x1 == T::spec_zero(),
            self.x2 == T::spec_zero(),
        ensures
            ({
                let (c, b, a) = self.spec_speed_coefficients();
                let zero = <T::Scalar as Scalar>::spec_from_int(0);
                &&& c == zero && b == zero && a == zero
                &&& c.spec_eq(zero) && b.spec_eq(zero) && a.spec_eq(zero)
                &&& self.spec_length(u) == zero
            }),
    {
        let z = T::spec_zero();
        let zero = <T::Scalar as Scalar>::spec_from_int(0);
        let four = <T::Scalar as Scalar>::spec_from_int(4);
        crate::lemma_scale_units(z);
        crate::lemma_ip_scale(z, z, zero);
        crate::lemma_s_mul_zero(z.spec_inner_product(z));
        assert(z.spec_inner_product(z) == zero);
        crate::lemma_s_mul_comm(zero, four);
        crate::lemma_s_mul_zero(four);
        crate::lemma_zero_analysis::<T::Scalar>();
        crate::lemma_s_eq(zero.spec_abs(), zero);
        crate::lemma_s_eq(z.spec_inner_product(z), zero);
        crate::lemma_s_eq(zero.spec_mul(four), zero);
        crate::lemma_s_mul_zero(u);
    }
}

impl<T: InnerProductSpace> QuadraticCurve<T> {
    /// Nearest-point optimality: the parameter that
    /// [`QuadraticCurve::nearest_point`] returns for `q` is at distance no
    /// greater than either endpoint of the domain and no greater than any
    /// in-range critical parameter that the cubic solver hands back, for any
    /// scalar whose order satisfies [`scalar_order_laws`].
    pub proof fn lemma_nearest_point_optimal(self, q: T)
        requires
            crate::scalar_order_laws::<T::Scalar>(),
        ensures
            ({
                let (e, d, c, b, a) = self.spec_distance_coefficients(q);
                let zero = <T::Scalar as Scalar>::spec_from_int(0);
                let one = <T::Scalar as Scalar>::spec_from_int(1);
                let two = <T::Scalar as Scalar>::spec_from_int(2);
                let three = <T::Scalar as Scalar>::spec_from_int(3);
                let four = <T::Scalar as Scalar>::spec_from_int(4);
                let candidates = spec_solve_cubic(
                    four.spec_mul(a),
                    three.spec_mul(b),
                    two.spec_mul(c),
                    d,
                );
                let rv = self.spec_nearest_point(q);
                let rd = spec_distance(rv, e, d, c, b, a);
                &&& crate::spec_le(rd, spec_distance(zero, e, d, c, b, a))
                &&& crate::spec_le(rd, spec_distance(one, e, d, c, b, a))
                &&& forall|i: int|
                    0 <= i < candidates.len() && spec_in_unit_range(#[trigger] candidates[i])
                        ==> crate::spec_le(rd, spec_distance(candidates[i], e, d, c, b, a))
            }),
    {
        let (e, d, c, b, a) = self.spec_distance_coefficients(q);
        let zero = <T::Scalar as Scalar>::spec_from_int(0);
        let one = <T::Scalar as Scalar>::spec_from_int(1);
        let two = <T::Scalar as Scalar>::spec_from_int(2);
        let three = <T::Scalar as Scalar>::spec_from_int(3);
        let four = <T::Scalar as Scalar>::spec_from_int(4);
        let candidates = spec_solve_cubic(four.spec_mul(a), three.spec_mul(b), two.spec_mul(c), d);
        let left_distance = spec_distance(zero, e, d, c, b, a);
        let right_distance = spec_distance(one, e, d, c, b, a);
        let rv = self.spec_nearest_point(q);
        let rd = spec_distance(rv, e, d, c, b, a);
        if left_distance.spec_lt(right_distance) || left_distance.spec_eq(right_distance) {
            lemma_select_min(candidates, e, d, c, b, a, zero, left_distance);
            crate::lemma_le_trans(rd, left_distance, right_distance);
        } else {
            lemma_select_min(candidates, e, d, c, b, a, one, right_distance);
            assert(crate::spec_le(right_distance, left_distance)) by {
                crate::lemma_ord_eq(left_distance, right_distance);
                crate::lemma_lt_total(right_distance, left_distance);
                crate::lemma_ord_eq(right_distance, left_distance);
            }
            crate::lemma_le_trans(rd, right_distance, left_distance);
        }
    }
}

/// The scan that [`spec_select`] makes returns a candidate whose distance is
/// minimal: no worse than the starting best and no worse than any in-range
/// candidate, for any scalar whose order satisfies [`scalar_order_laws`].
pub proof fn lemma_select_min<S: Scalar>(
    candidates: Seq<S>,
    e: S,
    d: S,
    c: S,
    b: S,
    a: S,
    best_value: S,
    best_distance: S,
)
    requires
        crate::scalar_order_laws::<S>(),
        best_distance == spec_distance(best_value, e, d, c, b, a),
    ensures
        ({
            let rv = spec_select(candidates, e, d, c, b, a, best_value, best_distance);
            let rd = spec_distance(rv, e, d, c, b, a);
            &&& crate::spec_le(rd, best_distance)
            &&& forall|i: int|
                0 <= i < candidates.len() && spec_in_unit_range(#[trigger] candidates[i])
                    ==> crate::spec_le(rd, spec_distance(candidates[i], e, d, c, b, a))
        }),
    decreases candidates.len(),
{
    let rv = spec_select(candidates, e, d, c, b, a, best_value, best_distance);
    let rd = spec_distance(rv, e, d, c, b, a);
    if candidates.len() == 0 {
        crate::lemma_ord_eq(rd, best_distance);
    } else {
        let t = candidates[0];
        let td = spec_distance(t, e, d, c, b, a);
        let rest = candidates.skip(1);
        assert(forall|j: int| 0 <= j < rest.len() ==> rest[j] == candidates[j + 1]);
        if spec_in_unit_range(t) && td.spec_lt(best_distance) {
            lemma_select_min(rest, e, d, c, b, a, t, td);
            assert(crate::spec_le(rd, best_distance)) by {
                crate::lemma_ord_eq(rd, td);
                if rd.spec_lt(td) {
                    crate::lemma_lt_trans(rd, td, best_distance);
                }
            }
            assert forall|i: int|
                0 <= i < candidates.len() && spec_in_unit_range(#[trigger] candidates[i]) implies crate::spec_le(
                rd,
                spec_distance(candidates[i], e, d, c, b, a),
            ) by {
                if i > 0 {
                    assert(candidates[i] == rest[i - 1]);
                }
            }
        } else {
            lemma_select_min(rest, e, d, c, b, a, best_value, best_distance);
            assert forall|i: int|
                0 <= i < candidates.len() && spec_in_unit_range(#[trigger] candidates[i]) implies crate::spec_le(
                rd,
                spec_distance(candidates[i], e, d, c, b, a),
            ) by {
                if i == 0 {
                    assert(crate::spec_le(best_distance, td)) by {
                        if best_distance != td {
                            crate::lemma_lt_total(best_distance, td);
                        }
                        crate::lemma_ord_eq(best_distance, td);
                    }
                    crate::lemma_le_trans(rd, best_distance, td);
                } else {
                    assert(candidates[i] == rest[i - 1]);
                }
            }
        }
    }
}

} // verus!
