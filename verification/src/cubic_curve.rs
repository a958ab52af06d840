use vstd::prelude::*;

use crate::InnerProductSpace;
use crate::QuadraticCurve;
use crate::Scalar;
use crate::VectorSpace;
use crate::scalar_laws;
use crate::vector_laws;

verus! {

/// A degree-3 polynomial curve in monomial basis:
/// `evaluate(t) = x0 + x1·t + x2·t² + x3·t³`. The curve's domain convention
/// is `t ∈ [0,1]`. Direct algebra only: evaluation, the successive
/// derivatives down to the constant third one, Bezier conversion both ways,
/// subdivision by monomial rescaling, and two quadratic degree-reduction
/// approximations whose coefficients are fixed analytic combinations of the
/// cubic's own.
pub struct CubicCurve<T: InnerProductSpace> {
    pub x0: T,
    pub x1: T,
    pub x2: T,
    pub x3: T,
}

impl<T: InnerProductSpace> CubicCurve<T> {
    /// The point of the polynomial at `t`, as a specification-level formula.
    pub open spec fn spec_evaluate(self, t: T::Scalar) -> T {
        self.x0.spec_add(
            self.x1.spec_add(self.x2.spec_add(self.x3.spec_scale(t)).spec_scale(t)).spec_scale(t),
        )
    }

    /// The first derivative `x1 + 2·x2·t + 3·x3·t²`.
    pub open spec fn spec_first_derivative(self, t: T::Scalar) -> T {
        let two = <T::Scalar as Scalar>::spec_from_int(2);
        let three = <T::Scalar as Scalar>::spec_from_int(3);
        self.x1.spec_add(self.x2.spec_scale(t).spec_scale(two)).spec_add(
            self.x3.spec_scale(t).spec_scale(t).spec_scale(three),
        )
    }

    /// The second derivative `2·x2 + 6·x3·t`.
    pub open spec fn spec_second_derivative(self, t: T::Scalar) -> T {
        let two = <T::Scalar as Scalar>::spec_from_int(2);
        let six = <T::Scalar as Scalar>::spec_from_int(6);
        self.x2.spec_scale(two).spec_add(self.x3.spec_scale(t).spec_scale(six))
    }

    pub fn new(x0: T, x1: T, x2: T, x3: T) -> (r: CubicCurve<T>)
        ensures
            r.x0 == x0,
            r.x1 == x1,
            r.x2 == x2,
            r.x3 == x3,
    {
        CubicCurve { x0, x1, x2, x3 }
    }

    pub fn x0(&self) -> (r: T)
        ensures
            r == self.x0,
    {
        self.x0
    }

    pub fn x1(&self) -> (r: T)
        ensures
            r == self.x1,
    {
        self.x1
    }

    pub fn x2(&self) -> (r: T)
        ensures
            r == self.x2,
    {
        self.x2
    }

    pub fn x3(&self) -> (r: T)
        ensures
            r == self.x3,
    {
        self.x3
    }

    pub fn evaluate(&self, t: T::Scalar) -> (r: T)
        ensures
            r == self.spec_evaluate(t),
    {
        self.x0.add(self.x1.add(self.x2.add(self.x3.scale(t)).scale(t)).scale(t))
    }

    pub fn evaluate_first_derivative(&self, t: T::Scalar) -> (r: T)
        ensures
            r == self.spec_first_derivative(t),
    {
        self.x1.add(self.x2.scale(t).scale(<T::Scalar as Scalar>::from_i32(2))).add(
            self.x3.scale(t).scale(t).scale(<T::Scalar as Scalar>::from_i32(3)),
        )
    }

    pub fn evaluate_second_derivative(&self, t: T::Scalar) -> (r: T)
        ensures
            r == self.spec_second_derivative(t),
    {
        self.x2.scale(<T::Scalar as Scalar>::from_i32(2)).add(
            self.x3.scale(t).scale(<T::Scalar as Scalar>::from_i32(6)),
        )
    }

    /// The third derivative of a degree-3 curve is the constant `6·x3`.
    pub fn evaluate_third_derivative(&self) -> (r: T)
        ensures
            r == self.x3.spec_scale(<T::Scalar as Scalar>::spec_from_int(6)),
    {
        self.x3.scale(<T::Scalar as Scalar>::from_i32(6))
    }

    /// The curve whose Bezier control points for `t ∈ [0,1]` are
    /// `b0, b1, b2, b3`.
    pub fn from_bezier(b0: T, b1: T, b2: T, b3: T) -> (r: CubicCurve<T>)
        ensures
            ({
                let m6 = <T::Scalar as Scalar>::spec_from_int(-6);
                let m3 = <T::Scalar as Scalar>::spec_from_int(-3);
                let m1 = <T::Scalar as Scalar>::spec_from_int(-1);
                let three = <T::Scalar as Scalar>::spec_from_int(3);
                &&& r.x0 == b0
                &&& r.x1 == b0.spec_scale(m3).spec_add(b1.spec_scale(three))
                &&& r.x2 == b0.spec_scale(three).spec_add(b1.spec_scale(m6)).spec_add(
                    b2.spec_scale(three),
                )
                &&& r.x3 == b0.spec_scale(m1).spec_add(b1.spec_scale(three)).spec_add(
                    b2.spec_scale(m3),
                ).spec_add(b3)
            }),
    {
        let m6 = <T::Scalar as Scalar>::from_i32(-6);
        let m3 = <T::Scalar as Scalar>::from_i32(-3);
        let m1 = <T::Scalar as Scalar>::from_i32(-1);
        let three = <T::Scalar as Scalar>::from_i32(3);
        CubicCurve {
            x0: b0,
            x1: b0.scale(m3).add(b1.scale(three)),
            x2: b0.scale(three).add(b1.scale(m6)).add(b2.scale(three)),
            x3: b0.scale(m1).add(b1.scale(three)).add(b2.scale(m3)).add(b3),
        }
    }

    /// The Bezier control points of this curve for `t ∈ [0,1]`.
    pub fn to_bezier(&self) -> (r: (T, T, T, T))
        ensures
            ({
                let two = <T::Scalar as Scalar>::spec_from_int(2);
                let three = <T::Scalar as Scalar>::spec_from_int(3);
                &&& r.0 == self.x0
                &&& r.1 == self.x0.spec_add(self.x1.spec_div(three))
                &&& r.2 == self.x0.spec_add(
                    self.x1.spec_scale(two).spec_div(three),
                ).spec_add(self.x2.spec_div(three))
                &&& r.3 == self.x0.spec_add(self.x1).spec_add(self.x2).spec_add(self.x3)
            }),
    {
        let two = <T::Scalar as Scalar>::from_i32(2);
        let three = <T::Scalar as Scalar>::from_i32(3);
        (
            self.x0,
            self.x0.add(self.x1.div(three)),
            self.x0.add(self.x1.scale(two).div(three)).add(self.x2.div(three)),
            self.x0.add(self.x1).add(self.x2).add(self.x3),
        )
    }

    /// Splits the curve at `u` into two reparameterized cubics whose monomial
    /// coefficients come from the original coefficients scaled by powers of
    /// `u` and its complement `w = 1 - u`.
    pub fn subdivide(&self, u: T::Scalar) -> (r: (CubicCurve<T>, CubicCurve<T>))
        ensures
            ({
                let two = <T::Scalar as Scalar>::spec_from_int(2);
                let three = <T::Scalar as Scalar>::spec_from_int(3);
                let w = <T::Scalar as Scalar>::spec_from_int(1).spec_sub(u);
                let x1u = self.x1.spec_scale(u);
                let x2u = self.x2.spec_scale(u);
                let x2u2 = x2u.spec_scale(u);
                let x3u = self.x3.spec_scale(u);
                let x3u2 = x3u.spec_scale(u);
                let x3u3 = x3u2.spec_scale(u);
                let w2 = w.spec_mul(w);
                &&& r.0.x0 == self.x0
                &&& r.0.x1 == x1u
                &&& r.0.x2 == x2u2
                &&& r.0.x3 == x3u3
                &&& r.1.x0 == self.x0.spec_add(x1u).spec_add(x2u2).spec_add(x3u3)
                &&& r.1.x1 == self.x1.spec_add(x2u.spec_scale(two)).spec_add(
                    x3u2.spec_scale(three),
                ).spec_scale(w)
                &&& r.1.x2 == self.x2.spec_add(x3u.spec_scale(three)).spec_scale(w2)
                &&& r.1.x3 == self.x3.spec_scale(w2).spec_scale(w)
            }),
    {
        let x1u = self.x1.scale(u);
        let x2u = self.x2.scale(u);
        let x2u2 = x2u.scale(u);
        let x3u = self.x3.scale(u);
        let x3u2 = x3u.scale(u);
        let x3u3 = x3u2.scale(u);
        let w = <T::Scalar as Scalar>::from_i32(1).sub(u);
        let w2 = w.mul(w);

        (
            CubicCurve::new(self.x0, x1u, x2u2, x3u3),
            CubicCurve::new(
                self.x0.add(x1u).add(x2u2).add(x3u3),
                self.x1.add(x2u.scale(<T::Scalar as Scalar>::from_i32(2))).add(
                    x3u2.scale(<T::Scalar as Scalar>::from_i32(3)),
                ).scale(w),
                self.x2.add(x3u.scale(<T::Scalar as Scalar>::from_i32(3))).scale(w2),
                self.x3.scale(w2).scale(w),
            ),
        )
    }

    /// The quadratic that minimizes the worst-case deviation from this cubic
    /// over `[0,1]`: both endpoints shift slightly to reduce the peak error
    /// of the continuity-preserving approximation, by an analytically derived
    /// factor rather than by search.
    pub fn error_minimizing_quadratic_approximation(&self) -> (r: QuadraticCurve<T>)
        ensures
            ({
                let two = <T::Scalar as Scalar>::spec_from_int(2);
                let three = <T::Scalar as Scalar>::spec_from_int(3);
                let nine = <T::Scalar as Scalar>::spec_from_int(9);
                let sixteen = <T::Scalar as Scalar>::spec_from_int(16);
                let thirty_two = <T::Scalar as Scalar>::spec_from_int(32);
                &&& r.x0 == self.x0.spec_add(self.x3.spec_div(thirty_two))
                &&& r.x1 == self.x1.spec_sub(self.x3.spec_scale(nine).spec_div(sixteen))
                &&& r.x2 == self.x2.spec_add(self.x3.spec_scale(three).spec_div(two))
            }),
    {
        QuadraticCurve::new(
            self.x0.add(self.x3.div(<T::Scalar as Scalar>::from_i32(32))),
            self.x1.sub(
                self.x3.scale(<T::Scalar as Scalar>::from_i32(9)).div(
                    <T::Scalar as Scalar>::from_i32(16),
                ),
            ),
            self.x2.add(
                self.x3.scale(<T::Scalar as Scalar>::from_i32(3)).div(
                    <T::Scalar as Scalar>::from_i32(2),
                ),
            ),
        )
    }

    /// The quadratic that interpolates this cubic's endpoints exactly,
    /// accepting a higher interior error.
    pub fn continuity_preseving_quadratic_approximation(&self) -> (r: QuadraticCurve<T>)
        ensures
            ({
                let two = <T::Scalar as Scalar>::spec_from_int(2);
                let three = <T::Scalar as Scalar>::spec_from_int(3);
                &&& r.x0 == self.x0
                &&& r.x1 == self.x1.spec_sub(self.x3.spec_div(two))
                &&& r.x2 == self.x2.spec_add(self.x3.spec_scale(three).spec_div(two))
            }),
    {
        QuadraticCurve::new(
            self.x0,
            self.x1.sub(self.x3.div(<T::Scalar as Scalar>::from_i32(2))),
            self.x2.add(
                self.x3.scale(<T::Scalar as Scalar>::from_i32(3)).div(
                    <T::Scalar as Scalar>::from_i32(2),
                ),
            ),
        )
    }

    /// The evaluation polynomial in expanded form:
    /// `x0 + (x1·t + (x2·t² + x3·t³))`.
    pub proof fn lemma_evaluate_expanded(self, t: T::Scalar)
        requires
            scalar_laws::<T::Scalar>(),
            vector_laws::<T>(),
        ensures
            ({
                let t2 = t.spec_mul(t);
                let t3 = t2.spec_mul(t);
                self.spec_evaluate(t) == self.x0.spec_add(
                    self.x1.spec_scale(t).spec_add(
                        self.x2.spec_scale(t2).spec_add(self.x3.spec_scale(t3)),
                    ),
                )
            }),
    {
        let t2 = t.spec_mul(t);
        crate::lemma_scale_distrib_v(self.x2, self.x3.spec_scale(t), t);
        crate::lemma_scale_distrib_v(
            self.x1,
            self.x2.spec_scale(t).spec_add(self.x3.spec_scale(t).spec_scale(t)),
            t,
        );
        crate::lemma_scale_distrib_v(self.x2.spec_scale(t), self.x3.spec_scale(t).spec_scale(t), t);
        crate::lemma_scale_compose(self.x2, t, t);
        crate::lemma_scale_compose(self.x3, t, t);
        crate::lemma_scale_compose(self.x3, t2, t);
    }

    /// Subdivision consistency for the left sub-curve: at local parameter `s`
    /// it equals the original at `u·s`.
    pub proof fn lemma_subdivide_left_consistent(self, u: T::Scalar, s: T::Scalar)
        requires
            scalar_laws::<T::Scalar>(),
            vector_laws::<T>(),
        ensures
            ({
                let left = CubicCurve {
                    x0: self.x0,
                    x1: self.x1.spec_scale(u),
                    x2: self.x2.spec_scale(u).spec_scale(u),
                    x3: self.x3.spec_scale(u).spec_scale(u).spec_scale(u),
                };
                left.spec_evaluate(s) == self.spec_evaluate(u.spec_mul(s))
            }),
    {
        let left = CubicCurve {
            x0: self.x0,
            x1: self.x1.spec_scale(u),
            x2: self.x2.spec_scale(u).spec_scale(u),
            x3: self.x3.spec_scale(u).spec_scale(u).spec_scale(u),
        };
        let us = u.spec_mul(s);
        let uu = u.spec_mul(u);
        let ss = s.spec_mul(s);
        let uuu = uu.spec_mul(u);
        let sss = ss.spec_mul(s);
        self.lemma_evaluate_expanded(us);
        left.lemma_evaluate_expanded(s);
        crate::lemma_scale_compose(self.x1, u, s);
        crate::lemma_scale_compose(self.x2, u, u);
        crate::lemma_scale_compose(self.x2, uu, ss);
        crate::lemma_scale_compose(self.x2.spec_scale(uu), s, s);
        crate::lemma_scale_compose(self.x3, u, u);
        crate::lemma_scale_compose(self.x3, uu, u);
        crate::lemma_scale_compose(self.x3.spec_scale(uuu), ss, s);
        crate::lemma_scale_compose(self.x3, uuu, sss);
        assert(us.spec_mul(us) == uu.spec_mul(ss)) by {
            crate::lemma_s_mul_assoc(u, s, us);
            crate::lemma_s_mul_assoc(s, u, s);
            crate::lemma_s_mul_comm(s, u);
            crate::lemma_s_mul_assoc(u, s, s);
            crate::lemma_s_mul_assoc(u, u, ss);
        }
        assert(us.spec_mul(us).spec_mul(us) == uuu.spec_mul(sss)) by {
            crate::lemma_s_mul_assoc(uu, ss, us);
            crate::lemma_s_mul_assoc(ss, u, s);
            crate::lemma_s_mul_comm(ss, u);
            crate::lemma_s_mul_assoc(u, ss, s);
            crate::lemma_s_mul_assoc(uu, u, ss.spec_mul(s));
        }
    }

    /// Subdivision consistency for the right sub-curve: at local parameter
    /// `s` it equals the original at `u + (1-u)·s`.
    pub proof fn lemma_subdivide_right_consistent(self, u: T::Scalar, s: T::Scalar)
        requires
            scalar_laws::<T::Scalar>(),
            vector_laws::<T>(),
        ensures
            ({
                let two = <T::Scalar as Scalar>::spec_from_int(2);
                let three = <T::Scalar as Scalar>::spec_from_int(3);
                let w = <T::Scalar as Scalar>::spec_from_int(1).spec_sub(u);
                let x1u = self.x1.spec_scale(u);
                let x2u = self.x2.spec_scale(u);
                let x3u = self.x3.spec_scale(u);
                let x3u2 = x3u.spec_scale(u);
                let right = CubicCurve {
                    x0: self.x0.spec_add(x1u).spec_add(x2u.spec_scale(u)).spec_add(
                        x3u2.spec_scale(u),
                    ),
                    x1: self.x1.spec_add(x2u.spec_scale(two)).spec_add(
                        x3u2.spec_scale(three),
                    ).spec_scale(w),
                    x2: self.x2.spec_add(x3u.spec_scale(three)).spec_scale(w.spec_mul(w)),
                    x3: self.x3.spec_scale(w.spec_mul(w)).spec_scale(w),
                };
                right.spec_evaluate(s) == self.spec_evaluate(u.spec_add(w.spec_mul(s)))
            }),
    {
        let one = <T::Scalar as Scalar>::spec_from_int(1);
        let two = <T::Scalar as Scalar>::spec_from_int(2);
        let three = <T::Scalar as Scalar>::spec_from_int(3);
        let w = one.spec_sub(u);
        let x0 = self.x0;
        let x1 = self.x1;
        let x2 = self.x2;
        let x3 = self.x3;
        let ws = w.spec_mul(s);
        let t = u.spec_add(ws);
        let uu = u.spec_mul(u);
        let uuu = uu.spec_mul(u);
        let ss = s.spec_mul(s);
        let sss = ss.spec_mul(s);
        let ww = w.spec_mul(w);
        let h = u.spec_mul(ws);
        let c2 = two.spec_mul(h);
        let c3 = ws.spec_mul(ws);
        let g1 = uu.spec_mul(ws);
        let tg1 = three.spec_mul(g1);
        let g2 = u.spec_mul(c3);
        let tg2 = three.spec_mul(g2);
        let ws3 = c3.spec_mul(ws);

        // the square of t, as in the quadratic case
        assert(t.spec_mul(t) == uu.spec_add(c2).spec_add(c3)) by {
            crate::lemma_s_distrib(t, u, ws);
            crate::lemma_s_mul_comm(t, u);
            crate::lemma_s_distrib(u, u, ws);
            crate::lemma_s_mul_comm(t, ws);
            crate::lemma_s_distrib(ws, u, ws);
            crate::lemma_s_mul_comm(ws, u);
            crate::lemma_s_mul_comm(two, h);
            crate::lemma_s_distrib(h, one, one);
            crate::lemma_s_mul_one(h);
            crate::lemma_s_from_add::<T::Scalar>(1, 1);
            crate::lemma_s_add_assoc(uu, h, h.spec_add(c3));
            crate::lemma_s_add_assoc(h, h, c3);
            crate::lemma_s_add_assoc(uu, h.spec_add(h), c3);
        }

        // the cube of t: uuu + 3·u²·ws + 3·u·ws² + ws³
        assert(t.spec_mul(t).spec_mul(t) == uuu.spec_add(tg1).spec_add(tg2.spec_add(ws3))) by {
            let tt = uu.spec_add(c2).spec_add(c3);
            crate::lemma_s_mul_comm(tt, t);
            crate::lemma_s_distrib(t, uu.spec_add(c2), c3);
            crate::lemma_s_distrib(t, uu, c2);
            assert(t.spec_mul(uu) == uuu.spec_add(g1)) by {
                crate::lemma_s_mul_comm(t, uu);
                crate::lemma_s_distrib(uu, u, ws);
                crate::lemma_s_mul_comm(uu, u);
                crate::lemma_s_mul_assoc(u, u, u);
                crate::lemma_s_mul_assoc(u, u, u.spec_mul(u));
                assert(uu.spec_mul(u) == uuu) by {
                    crate::lemma_s_mul_comm(u, uu);
                    crate::lemma_s_mul_comm(uu, u);
                }
            }
            assert(t.spec_mul(c2) == two.spec_mul(g1).spec_add(two.spec_mul(g2))) by {
                crate::lemma_s_mul_comm(t, c2);
                crate::lemma_s_distrib(c2, u, ws);
                assert(c2.spec_mul(u) == two.spec_mul(g1)) by {
                    crate::lemma_s_mul_assoc(two, h, u);
                    crate::lemma_s_mul_comm(h, u);
                    crate::lemma_s_mul_assoc(u, u, ws);
                    assert(u.spec_mul(h) == g1) by {
                        crate::lemma_s_mul_assoc(u, u, ws);
                    }
                }
                assert(c2.spec_mul(ws) == two.spec_mul(g2)) by {
                    crate::lemma_s_mul_assoc(two, h, ws);
                    crate::lemma_s_mul_assoc(u, ws, ws);
                }
            }
            assert(t.spec_mul(c3) == g2.spec_add(ws3)) by {
                crate::lemma_s_mul_comm(t, c3);
                crate::lemma_s_distrib(c3, u, ws);
                crate::lemma_s_mul_comm(c3, u);
                crate::lemma_s_mul_comm(c3, ws);
                crate::lemma_s_mul_comm(ws, c3);
            }
            assert(g1.spec_add(two.spec_mul(g1)) == tg1) by {
                crate::lemma_s_mul_comm(three, g1);
                crate::lemma_s_from_add::<T::Scalar>(1, 2);
                crate::lemma_s_distrib(g1, one, two);
                crate::lemma_s_mul_one(g1);
                crate::lemma_s_mul_comm(g1, two);
            }
            assert(two.spec_mul(g2).spec_add(g2) == tg2) by {
                crate::lemma_s_mul_comm(three, g2);
                crate::lemma_s_from_add::<T::Scalar>(2, 1);
                crate::lemma_s_distrib(g2, two, one);
                crate::lemma_s_mul_one(g2);
                crate::lemma_s_mul_comm(g2, two);
            }
            // collecting: ((uuu + g1) + (2g1 + 2g2)) + (g2 + ws3)
            //          == (uuu + 3g1) + (3g2 + ws3)
            let pa = uuu;
            let pb = g1;
            let pc = two.spec_mul(g1);
            let pd = two.spec_mul(g2);
            let pe = g2;
            let pf = ws3;
            crate::lemma_s_add_assoc(pa, pb, pc.spec_add(pd));
            crate::lemma_s_add_assoc(pb, pc, pd);
            crate::lemma_s_add_assoc(pa, pb.spec_add(pc), pd);
            crate::lemma_s_add_assoc(
                pa.spec_add(pb.spec_add(pc)),
                pd,
                pe.spec_add(pf),
            );
            crate::lemma_s_add_assoc(pd, pe, pf);
            crate::lemma_s_add_assoc(pa, pb.spec_add(pc), pd.spec_add(pe).spec_add(pf));
            crate::lemma_s_add_assoc(pa, pb.spec_add(pc), pd.spec_add(pe.spec_add(pf)));
            crate::lemma_s_add_assoc(pa.spec_add(pb.spec_add(pc)), pd.spec_add(pe), pf);
            crate::lemma_s_add_assoc(pd, pe, pf);
        }

        // scalar values of the right sub-curve's scaled coefficients
        assert(u.spec_mul(two).spec_mul(w).spec_mul(s) == c2) by {
            crate::lemma_s_mul_comm(u, two);
            crate::lemma_s_mul_assoc(two, u, w);
            crate::lemma_s_mul_assoc(two, u.spec_mul(w), s);
            crate::lemma_s_mul_assoc(u, w, s);
        }
        assert(uu.spec_mul(three).spec_mul(w).spec_mul(s) == tg1) by {
            crate::lemma_s_mul_comm(uu, three);
            crate::lemma_s_mul_assoc(three, uu, w);
            crate::lemma_s_mul_assoc(three, uu.spec_mul(w), s);
            crate::lemma_s_mul_assoc(uu, w, s);
        }
        assert(ww.spec_mul(ss) == c3) by {
            crate::lemma_s_mul_assoc(w, s, ws);
            crate::lemma_s_mul_assoc(s, w, s);
            crate::lemma_s_mul_comm(s, w);
            crate::lemma_s_mul_assoc(w, s, s);
            crate::lemma_s_mul_assoc(w, w, ss);
        }
        assert(u.spec_mul(three).spec_mul(ww).spec_mul(ss) == tg2) by {
            crate::lemma_s_mul_comm(u, three);
            crate::lemma_s_mul_assoc(three, u, ww);
            crate::lemma_s_mul_assoc(three, u.spec_mul(ww), ss);
            crate::lemma_s_mul_assoc(u, ww, ss);
        }
        assert(ww.spec_mul(w).spec_mul(sss) == ws3) by {
            crate::lemma_s_mul_assoc(ww, ss, ws);
            crate::lemma_s_mul_assoc(ss, w, s);
            crate::lemma_s_mul_comm(ss, w);
            crate::lemma_s_mul_assoc(w, ss, s);
            crate::lemma_s_mul_assoc(ww, w, sss);
            crate::lemma_s_mul_comm(c3, ws);
            crate::lemma_s_mul_comm(ws, c3);
        }

        // both sides, expanded
        let va = x0;
        let vb = x1.spec_scale(u);
        let vc = x2.spec_scale(uu);
        let vd = x3.spec_scale(uuu);
        let ve = x1.spec_scale(ws);
        let vf = x2.spec_scale(c2);
        let vg = x3.spec_scale(tg1);
        let vh = x2.spec_scale(c3);
        let vi = x3.spec_scale(tg2);
        let vj = x3.spec_scale(ws3);

        self.lemma_evaluate_expanded(t);
        crate::lemma_scale_distrib_s(x1, u, ws);
        crate::lemma_scale_distrib_s(x2, uu.spec_add(c2), c3);
        crate::lemma_scale_distrib_s(x2, uu, c2);
        crate::lemma_scale_distrib_s(x3, uuu.spec_add(tg1), tg2.spec_add(ws3));
        crate::lemma_scale_distrib_s(x3, uuu, tg1);
        crate::lemma_scale_distrib_s(x3, tg2, ws3);
        assert(self.spec_evaluate(t) == va.spec_add(
            vb.spec_add(ve).spec_add(
                vc.spec_add(vf).spec_add(vh).spec_add(vd.spec_add(vg).spec_add(vi.spec_add(vj))),
            ),
        ));

        let x1u = x1.spec_scale(u);
        let x2u = x2.spec_scale(u);
        let x3u = x3.spec_scale(u);
        let x3u2 = x3u.spec_scale(u);
        let right = CubicCurve {
            x0: x0.spec_add(x1u).spec_add(x2u.spec_scale(u)).spec_add(x3u2.spec_scale(u)),
            x1: x1.spec_add(x2u.spec_scale(two)).spec_add(x3u2.spec_scale(three)).spec_scale(w),
            x2: x2.spec_add(x3u.spec_scale(three)).spec_scale(ww),
            x3: x3.spec_scale(ww).spec_scale(w),
        };
        right.lemma_evaluate_expanded(s);
        crate::lemma_scale_compose(x2, u, u);
        crate::lemma_scale_compose(x3, u, u);
        crate::lemma_scale_compose(x3, uu, u);
        assert(right.x0 == va.spec_add(vb).spec_add(vc).spec_add(vd));

        assert(right.x1.spec_scale(s) == ve.spec_add(vf).spec_add(vg)) by {
            crate::lemma_scale_distrib_v(
                x1.spec_add(x2u.spec_scale(two)),
                x3u2.spec_scale(three),
                w,
            );
            crate::lemma_scale_distrib_v(x1, x2u.spec_scale(two), w);
            crate::lemma_scale_distrib_v(
                x1.spec_scale(w).spec_add(x2u.spec_scale(two).spec_scale(w)),
                x3u2.spec_scale(three).spec_scale(w),
                s,
            );
            crate::lemma_scale_distrib_v(x1.spec_scale(w), x2u.spec_scale(two).spec_scale(w), s);
            crate::lemma_scale_compose(x1, w, s);
            crate::lemma_scale_compose(x2, u, two);
            crate::lemma_scale_compose(x2, u.spec_mul(two), w);
            crate::lemma_scale_compose(x2, u.spec_mul(two).spec_mul(w), s);
            crate::lemma_scale_compose(x3, uu, three);
            crate::lemma_scale_compose(x3, uu.spec_mul(three), w);
            crate::lemma_scale_compose(x3, uu.spec_mul(three).spec_mul(w), s);
        }

        assert(right.x2.spec_scale(ss) == vh.spec_add(vi)) by {
            crate::lemma_scale_distrib_v(x2, x3u.spec_scale(three), ww);
            crate::lemma_scale_distrib_v(
                x2.spec_scale(ww),
                x3u.spec_scale(three).spec_scale(ww),
                ss,
            );
            crate::lemma_scale_compose(x2, ww, ss);
            crate::lemma_scale_compose(x3, u, three);
            crate::lemma_scale_compose(x3, u.spec_mul(three), ww);
            crate::lemma_scale_compose(x3, u.spec_mul(three).spec_mul(ww), ss);
        }

        assert(right.x3.spec_scale(sss) == vj) by {
            crate::lemma_scale_compose(x3, ww, w);
            crate::lemma_scale_compose(x3, ww.spec_mul(w), sss);
        }

        // assembling the ten summands
        let gb = vb.spec_add(ve);
        let gc = vc.spec_add(vf).spec_add(vh);
        let gd = vd.spec_add(vg).spec_add(vi.spec_add(vj));
        crate::lemma_add_assoc(va.spec_add(vb), vc, vd);
        crate::lemma_add_assoc(va, vb, vc.spec_add(vd));
        crate::lemma_add_assoc(ve.spec_add(vf), vg, vh.spec_add(vi).spec_add(vj));
        crate::lemma_add_assoc(ve, vf, vg);
        let hh = vf.spec_add(vg).spec_add(vh.spec_add(vi).spec_add(vj));
        crate::lemma_add_assoc(vf.spec_add(vg), vh.spec_add(vi), vj);
        crate::lemma_add_assoc(ve, vf.spec_add(vg), vh.spec_add(vi).spec_add(vj));
        crate::lemma_add_assoc(va, vb.spec_add(vc.spec_add(vd)), ve.spec_add(hh));
        crate::lemma_add_swap_middle(vb, vc.spec_add(vd), ve, hh);
        assert(vc.spec_add(vd).spec_add(hh) == gc.spec_add(gd)) by {
            crate::lemma_add_assoc(vc.spec_add(vd), vf.spec_add(vg), vh.spec_add(vi).spec_add(vj));
            crate::lemma_add_swap_middle(vc, vd, vf, vg);
            crate::lemma_add_assoc(vc.spec_add(vf), vd.spec_add(vg), vh.spec_add(vi).spec_add(vj));
            crate::lemma_add_assoc(vh, vi, vj);
            crate::lemma_add_assoc(vd.spec_add(vg), vh, vi.spec_add(vj));
            crate::lemma_add_comm(vd.spec_add(vg), vh);
            crate::lemma_add_assoc(vh, vd.spec_add(vg), vi.spec_add(vj));
            crate::lemma_add_assoc(vc.spec_add(vf), vh, gd);
        }
        crate::lemma_add_assoc(va.spec_add(vb).spec_add(vc).spec_add(vd), ve.spec_add(vf).spec_add(vg), right.x2.spec_scale(ss).spec_add(right.x3.spec_scale(sss)));
        assert(right.spec_evaluate(s) == va.spec_add(vb.spec_add(vc.spec_add(vd))).spec_add(
            ve.spec_add(hh),
        )) by {
            crate::lemma_add_assoc(
                va.spec_add(vb.spec_add(vc.spec_add(vd))),
                ve.spec_add(vf).spec_add(vg),
                vh.spec_add(vi).spec_add(vj),
            );
            crate::lemma_add_assoc(
                ve.spec_add(vf).spec_add(vg),
                vh.spec_add(vi),
                vj,
            );
            crate::lemma_add_assoc(
                ve.spec_add(vf.spec_add(vg)),
                vh.spec_add(vi),
                vj,
            );
            crate::lemma_add_assoc(ve, vf.spec_add(vg), vh.spec_add(vi));
            crate::lemma_add_assoc(ve, vf.spec_add(vg).spec_add(vh.spec_add(vi)), vj);
            crate::lemma_add_assoc(vf.spec_add(vg), vh.spec_add(vi), vj);
        }
        crate::lemma_add_assoc(va, vb.spec_add(vc.spec_add(vd)), ve.spec_add(hh));
    }

    /// Subdivision consistency: the left sub-curve at local parameter `s`
    /// equals the original at `u·s`, and the right sub-curve at `s` equals
    /// the original at `u + (1-u)·s`.
    pub proof fn lemma_subdivide_consistent(self, u: T::Scalar, s: T::Scalar)
        requires
            scalar_laws::<T::Scalar>(),
            vector_laws::<T>(),
        ensures
            ({
                let left = CubicCurve {
                    x0: self.x0,
                    x1: self.x1.spec_scale(u),
                    x2: self.x2.spec_scale(u).spec_scale(u),
                    x3: self.x3.spec_scale(u).spec_scale(u).spec_scale(u),
                };
                left.spec_evaluate(s) == self.spec_evaluate(u.spec_mul(s))
            }),
            ({
                let two = <T::Scalar as Scalar>::spec_from_int(2);
                let three = <T::Scalar as Scalar>::spec_from_int(3);
                let w = <T::Scalar as Scalar>::spec_from_int(1).spec_sub(u);
                let x1u = self.x1.spec_scale(u);
                let x2u = self.x2.spec_scale(u);
                let x3u = self.x3.spec_scale(u);
                let x3u2 = x3u.spec_scale(u);
                let right = CubicCurve {
                    x0: self.x0.spec_add(x1u).spec_add(x2u.spec_scale(u)).spec_add(
                        x3u2.spec_scale(u),
                    ),
                    x1: self.x1.spec_add(x2u.spec_scale(two)).spec_add(
                        x3u2.spec_scale(three),
                    ).spec_scale(w),
                    x2: self.x2.spec_add(x3u.spec_scale(three)).spec_scale(w.spec_mul(w)),
                    x3: self.x3.spec_scale(w.spec_mul(w)).spec_scale(w),
                };
                right.spec_evaluate(s) == self.spec_evaluate(u.spec_add(w.spec_mul(s)))
            }),
    {
        self.lemma_subdivide_left_consistent(u, s);
        self.lemma_subdivide_right_consistent(u, s);
    }

    /// Bezier round-trip: converting control points to a curve and back
    /// reproduces them, for any scalar satisfying the field laws.
    pub proof fn lemma_bezier_round_trip(b0: T, b1: T, b2: T, b3: T)
        requires
            scalar_laws::<T::Scalar>(),
            vector_laws::<T>(),
        ensures
            ({
                let m6 = <T::Scalar as Scalar>::spec_from_int(-6);
                let m3 = <T::Scalar as Scalar>::spec_from_int(-3);
                let m1 = <T::Scalar as Scalar>::spec_from_int(-1);
                let two = <T::Scalar as Scalar>::spec_from_int(2);
                let three = <T::Scalar as Scalar>::spec_from_int(3);
                let c = CubicCurve {
                    x0: b0,
                    x1: b0.spec_scale(m3).spec_add(b1.spec_scale(three)),
                    x2: b0.spec_scale(three).spec_add(b1.spec_scale(m6)).spec_add(
                        b2.spec_scale(three),
                    ),
                    x3: b0.spec_scale(m1).spec_add(b1.spec_scale(three)).spec_add(
                        b2.spec_scale(m3),
                    ).spec_add(b3),
                };
                &&& c.x0 == b0
                &&& c.x0.spec_add(c.x1.spec_div(three)) == b1
                &&& c.x0.spec_add(c.x1.spec_scale(two).spec_div(three)).spec_add(
                    c.x2.spec_div(three),
                ) == b2
                &&& c.x0.spec_add(c.x1).spec_add(c.x2).spec_add(c.x3) == b3
            }),
    {
        let m6 = <T::Scalar as Scalar>::spec_from_int(-6);
        let m3 = <T::Scalar as Scalar>::spec_from_int(-3);
        let m2 = <T::Scalar as Scalar>::spec_from_int(-2);
        let m1 = <T::Scalar as Scalar>::spec_from_int(-1);
        let zero = <T::Scalar as Scalar>::spec_from_int(0);
        let one = <T::Scalar as Scalar>::spec_from_int(1);
        let two = <T::Scalar as Scalar>::spec_from_int(2);
        let three = <T::Scalar as Scalar>::spec_from_int(3);
        let third = one.spec_div(three);
        let p1 = b0.spec_scale(m3);
        let q1 = b1.spec_scale(three);
        let x1 = p1.spec_add(q1);
        let p2 = b0.spec_scale(three);
        let q2 = b1.spec_scale(m6);
        let r2v = b2.spec_scale(three);
        let x2 = p2.spec_add(q2).spec_add(r2v);
        let p3 = b0.spec_scale(m1);
        let q3 = b1.spec_scale(three);
        let r3v = b2.spec_scale(m3);
        let x3 = p3.spec_add(q3).spec_add(r3v).spec_add(b3);

        // shared scalar facts
        crate::lemma_s_from_injective::<T::Scalar>(3, 0);
        crate::lemma_s_div_mul::<T::Scalar>(one, three);
        crate::lemma_s_mul_comm(three, third);
        assert(three.spec_mul(third) == one);
        crate::lemma_s_from_neg::<T::Scalar>(3);
        crate::lemma_s_neg_mul(three, third);
        crate::lemma_s_from_neg::<T::Scalar>(1);
        assert(m3.spec_mul(third) == m1);
        crate::lemma_scale_units(b0);
        crate::lemma_scale_units(b1);
        crate::lemma_scale_units(b2);

        // the second control point comes back: b0 + x1/3 == b1
        crate::lemma_div_as_scale(x1, three);
        crate::lemma_scale_distrib_v(p1, q1, third);
        crate::lemma_scale_compose(b0, m3, third);
        crate::lemma_scale_compose(b1, three, third);
        crate::lemma_add_assoc(b0, b0.spec_neg(), b1);
        crate::lemma_add_neg(b0);
        crate::lemma_add_zero(b1);
        assert(b0.spec_add(x1.spec_div(three)) == b1);

        // the third control point comes back: b0 + x1·2/3 + x2/3 == b2
        let x1two = x1.spec_scale(two);
        crate::lemma_scale_distrib_v(p1, q1, two);
        crate::lemma_scale_compose(b0, m3, two);
        crate::lemma_scale_compose(b1, three, two);
        crate::lemma_s_from_mul::<T::Scalar>(-3, 2);
        crate::lemma_s_from_mul::<T::Scalar>(3, 2);
        let six = <T::Scalar as Scalar>::spec_from_int(6);
        assert(x1two == b0.spec_scale(m6).spec_add(b1.spec_scale(six)));
        crate::lemma_div_as_scale(x1two, three);
        crate::lemma_scale_distrib_v(b0.spec_scale(m6), b1.spec_scale(six), third);
        crate::lemma_scale_compose(b0, m6, third);
        crate::lemma_scale_compose(b1, six, third);
        assert(m6.spec_mul(third) == m2) by {
            crate::lemma_s_from_mul::<T::Scalar>(-2, 3);
            crate::lemma_s_mul_assoc(m2, three, third);
            crate::lemma_s_mul_one(m2);
        }
        assert(six.spec_mul(third) == two) by {
            crate::lemma_s_from_mul::<T::Scalar>(2, 3);
            crate::lemma_s_mul_assoc(two, three, third);
            crate::lemma_s_mul_one(two);
        }
        crate::lemma_div_as_scale(x2, three);
        crate::lemma_scale_distrib_v(p2.spec_add(q2), r2v, third);
        crate::lemma_scale_distrib_v(p2, q2, third);
        crate::lemma_scale_compose(b0, three, third);
        crate::lemma_scale_compose(b1, m6, third);
        crate::lemma_scale_compose(b2, three, third);
        // the sum is now b0 + (b0·(-2) + b1·2) + ((b0·1 + b1·(-2)) + b2·1)
        crate::lemma_scale_collect(b0, 1, -2);
        crate::lemma_add_assoc(b0, b0.spec_scale(m2), b1.spec_scale(two));
        crate::lemma_add_swap_middle(
            b0.spec_scale(m1),
            b1.spec_scale(two),
            b0.spec_scale(one).spec_add(b1.spec_scale(m2)),
            b2.spec_scale(one),
        );
        crate::lemma_add_assoc(b0.spec_scale(m1), b0.spec_scale(one), b1.spec_scale(m2));
        crate::lemma_scale_collect(b0, -1, 1);
        crate::lemma_add_zero(b1.spec_scale(m2));
        crate::lemma_scale_collect(b1, -2, 2);
        crate::lemma_add_assoc(b1.spec_scale(m2), b1.spec_scale(two), b2.spec_scale(one));
        crate::lemma_add_zero(b2.spec_scale(one));
        assert(b0.spec_add(x1two.spec_div(three)).spec_add(x2.spec_div(three)) == b2);

        // the last control point comes back: b0 + x1 + x2 + x3 == b3
        crate::lemma_scale_collect(b0, 1, -3);
        crate::lemma_add_assoc(b0, p1, q1);
        // b0 + x1 == b0·(-2) + q1
        crate::lemma_add_swap_middle(b0.spec_scale(m2), q1, p2.spec_add(q2), r2v);
        crate::lemma_add_assoc(b0.spec_scale(m2), p2, q2);
        crate::lemma_scale_collect(b0, -2, 3);
        // (b0 + x1) + x2 == (b0·1 + q2) + (q1 + r2v)
        let t1 = b0.spec_scale(one).spec_add(q2).spec_add(q1.spec_add(r2v));
        assert(b0.spec_add(x1).spec_add(x2) == t1);
        crate::lemma_add_assoc(t1, p3.spec_add(q3).spec_add(r3v), b3);
        crate::lemma_add_swap_middle(
            b0.spec_scale(one).spec_add(q2),
            q1.spec_add(r2v),
            p3.spec_add(q3),
            r3v,
        );
        crate::lemma_add_swap_middle(b0.spec_scale(one), q2, p3, q3);
        crate::lemma_scale_collect(b0, 1, -1);
        crate::lemma_scale_units(b0);
        crate::lemma_add_zero(q2.spec_add(q3));
        crate::lemma_scale_collect(b1, -6, 3);
        crate::lemma_add_assoc(q1, r2v, r3v);
        crate::lemma_scale_collect(b2, 3, -3);
        crate::lemma_add_zero(q1);
        // so far: t1 + (p3+q3+r3v) == b1·(-3) + (q1 + zero) == b1·(-3) + b1·3
        crate::lemma_scale_collect(b1, -3, 3);
        crate::lemma_add_zero(b3);
        assert(b0.spec_add(x1).spec_add(x2).spec_add(x3) == b3);
    }

    /// Derivative consistency: the first derivative is the evaluation of the
    /// coefficient-wise differentiated polynomial, one degree down; the second
    /// derivative is in turn that quadratic's first derivative; and the third
    /// derivative is that quadratic's constant second derivative.
    pub proof fn lemma_derivative_consistent(self, t: T::Scalar)
        requires
            scalar_laws::<T::Scalar>(),
            vector_laws::<T>(),
        ensures
            ({
                let two = <T::Scalar as Scalar>::spec_from_int(2);
                let three = <T::Scalar as Scalar>::spec_from_int(3);
                let six = <T::Scalar as Scalar>::spec_from_int(6);
                let derivative = QuadraticCurve {
                    x0: self.x1,
                    x1: self.x2.spec_scale(two),
                    x2: self.x3.spec_scale(three),
                };
                &&& self.spec_first_derivative(t) == derivative.spec_evaluate(t)
                &&& self.spec_second_derivative(t) == derivative.spec_first_derivative(t)
                &&& self.x3.spec_scale(six) == derivative.x2.spec_scale(two)
            }),
    {
        let one = <T::Scalar as Scalar>::spec_from_int(1);
        let two = <T::Scalar as Scalar>::spec_from_int(2);
        let three = <T::Scalar as Scalar>::spec_from_int(3);
        let six = <T::Scalar as Scalar>::spec_from_int(6);
        let x1 = self.x1;
        let x2 = self.x2;
        let x3 = self.x3;

        // first derivative: x1 + x2·t·2 + x3·t·t·3 == x1 + (x2·2 + x3·3·t)·t
        crate::lemma_scale_distrib_v(x2.spec_scale(two), x3.spec_scale(three).spec_scale(t), t);
        crate::lemma_scale_compose(x2, two, t);
        crate::lemma_scale_compose(x2, t, two);
        crate::lemma_s_mul_comm(two, t);
        crate::lemma_scale_compose(x3, three, t);
        crate::lemma_scale_compose(x3.spec_scale(three.spec_mul(t)), t, one);
        crate::lemma_scale_compose(x3, three.spec_mul(t), t);
        crate::lemma_scale_compose(x3, t, t);
        crate::lemma_scale_compose(x3.spec_scale(t.spec_mul(t)), three, one);
        crate::lemma_scale_compose(x3, t.spec_mul(t), three);
        assert(three.spec_mul(t).spec_mul(t) == t.spec_mul(t).spec_mul(three)) by {
            crate::lemma_s_mul_assoc(three, t, t);
            crate::lemma_s_mul_comm(three, t.spec_mul(t));
        }
        crate::lemma_add_assoc(
            x1,
            x2.spec_scale(t).spec_scale(two),
            x3.spec_scale(t).spec_scale(t).spec_scale(three),
        );
        assert(x3.spec_scale(t).spec_scale(t).spec_scale(three) == x3.spec_scale(
            three,
        ).spec_scale(t).spec_scale(t));

        // second derivative: x2·2 + x3·t·6 == x2·2 + ((x3·3)·t)·2
        crate::lemma_scale_compose(x3.spec_scale(three.spec_mul(t)), two, one);
        crate::lemma_scale_compose(x3, three.spec_mul(t), two);
        crate::lemma_scale_compose(x3, t, six);
        assert(three.spec_mul(t).spec_mul(two) == t.spec_mul(six)) by {
            crate::lemma_s_mul_comm(three, t);
            crate::lemma_s_mul_assoc(t, three, two);
            crate::lemma_s_from_mul::<T::Scalar>(3, 2);
        }

        // third derivative: x3·6 == (x3·3)·2
        crate::lemma_scale_compose(x3, three, two);
        crate::lemma_s_from_mul::<T::Scalar>(3, 2);
    }
}

} // verus!