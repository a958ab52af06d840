use vstd::prelude::*;

use crate::Scalar;

verus! {

/// The real roots of a polynomial equation: a tagged container of exactly 0,
/// 1, 2 or 3 scalar values, unordered, with no claim of multiplicity beyond
/// the count. (When a scalar type admits non-finite sentinels, a "root" may be
/// such a sentinel; see [`solve_quadratic`].)
pub enum Roots<T: Scalar> {
    Zero([T; 0]),
    One([T; 1]),
    Two([T; 2]),
    Three([T; 3]),
}

impl<T: Scalar> Roots<T> {
    /// The roots as a mathematical sequence, in the order they are stored.
    pub open spec fn as_seq(self) -> Seq<T> {
        match self {
            Roots::Zero(s) => s@,
            Roots::One(s) => s@,
            Roots::Two(s) => s@,
            Roots::Three(s) => s@,
        }
    }

    pub fn as_slice(&self) -> (r: &[T])
        ensures
            r@ == self.as_seq(),
    {
        match self {
            Roots::Zero(s) => s.as_slice(),
            Roots::One(s) => s.as_slice(),
            Roots::Two(s) => s.as_slice(),
            Roots::Three(s) => s.as_slice(),
        }
    }
}

/// The roots that [`solve_linear`] finds for `a·x + b = 0`: none when `a`
/// compares equal to zero, and `-b/a` otherwise.
pub open spec fn spec_solve_linear<T: Scalar>(a: T, b: T) -> Seq<T> {
    if a.spec_eq(T::spec_from_int(0)) {
        Seq::empty()
    } else {
        seq![b.spec_neg().spec_div(a)]
    }
}

/// All real roots of the linear equation `a·x + b = 0`. When `a` is zero the
/// equation is degenerate (either no solution or every `x`), and no
/// distinguishable root is reported.
pub fn solve_linear<T: Scalar>(a: T, b: T) -> (r: Roots<T>)
    ensures
        r.as_seq() == spec_solve_linear(a, b),
{
    if a.is_eq(T::from_i32(0)) {
        proof {
            assert(Roots::<T>::Zero([]).as_seq() =~= spec_solve_linear(a, b));
        }
        Roots::Zero([])
    } else {
        let root = b.neg().div(a);
        proof {
            assert(Roots::One([b.spec_neg().spec_div(a)]).as_seq() =~= spec_solve_linear(a, b));
        }
        Roots::One([root])
    }
}

/// The roots that [`solve_quadratic`] finds for `a·x² + b·x + c = 0`.
pub open spec fn spec_solve_quadratic<T: Scalar>(a: T, b: T, c: T) -> Seq<T> {
    if a.spec_eq(T::spec_from_int(0)) {
        spec_solve_linear(b, c)
    } else {
        let a2 = a.spec_mul(T::spec_from_int(2));
        let s = b.spec_mul(b).spec_sub(a.spec_mul(c).spec_mul(T::spec_from_int(4))).spec_sqrt();
        seq![b.spec_neg().spec_add(s).spec_div(a2), b.spec_neg().spec_sub(s).spec_div(a2)]
    }
}

/// All roots of the quadratic equation `a·x² + b·x + c = 0`. When `a` is zero
/// the degree degrades once, to [`solve_linear`]. Otherwise two roots come
/// back from the quadratic formula unconditionally, even when the
/// discriminant is negative: the square root of a negative scalar is whatever
/// the scalar type defines for it (typically a non-finite sentinel), and it
/// propagates rather than being special-cased. Callers needing only real
/// roots must filter.
pub fn solve_quadratic<T: Scalar>(a: T, b: T, c: T) -> (r: Roots<T>)
    ensures
        r.as_seq() == spec_solve_quadratic(a, b, c),
{
    if a.is_eq(T::from_i32(0)) {
        solve_linear(b, c)
    } else {
        let a2 = a.mul(T::from_i32(2));
        let sqrtb2m4ac = b.mul(b).sub(a.mul(c).mul(T::from_i32(4))).sqrt();
        let r0 = b.neg().add(sqrtb2m4ac).div(a2);
        let r1 = b.neg().sub(sqrtb2m4ac).div(a2);
        proof {
            assert(Roots::Two([r0, r1]).as_seq() =~= spec_solve_quadratic(a, b, c));
        }
        Roots::Two([r0, r1])
    }
}

/// The normalized coefficient `q = (3·a1 - a2²) / 9` of the depressed cubic,
/// where `a1 = c/a` and `a2 = b/a`.
pub open spec fn spec_cubic_q<T: Scalar>(a: T, b: T, c: T) -> T {
    let a1 = c.spec_div(a);
    let a2 = b.spec_div(a);
    T::spec_from_int(3).spec_mul(a1).spec_sub(a2.spec_mul(a2)).spec_div(T::spec_from_int(9))
}

/// The normalized coefficient `r = (9·a2·a1 - 27·a0 - 2·a2³) / 54` of the
/// depressed cubic, where `a0 = d/a`, `a1 = c/a` and `a2 = b/a`.
pub open spec fn spec_cubic_r<T: Scalar>(a: T, b: T, c: T, d: T) -> T {
    let a0 = d.spec_div(a);
    let a1 = c.spec_div(a);
    let a2 = b.spec_div(a);
    T::spec_from_int(9).spec_mul(a2).spec_mul(a1).spec_sub(
        T::spec_from_int(27).spec_mul(a0),
    ).spec_sub(
        T::spec_from_int(2).spec_mul(a2).spec_mul(a2).spec_mul(a2),
    ).spec_div(T::spec_from_int(54))
}

/// The Cardano discriminant `D = q³ + r²` of the cubic.
pub open spec fn spec_cubic_discriminant<T: Scalar>(a: T, b: T, c: T, d: T) -> T {
    let q = spec_cubic_q(a, b, c);
    let r = spec_cubic_r(a, b, c, d);
    q.spec_mul(q).spec_mul(q).spec_add(r.spec_mul(r))
}

/// The substitution shift `-a2/3` that carries roots of the depressed cubic
/// back to roots of the original one.
pub open spec fn spec_cubic_shift<T: Scalar>(a: T, b: T) -> T {
    b.spec_div(a).spec_neg().spec_div(T::spec_from_int(3))
}

/// The roots that [`solve_cubic`] finds for `a·x³ + b·x² + c·x + d = 0`:
/// Cardano's real cube roots when the discriminant is non-negative (one root,
/// or two at the `D = 0` boundary where the repeated pair collapses), and the
/// trigonometric method's three roots otherwise.
pub open spec fn spec_solve_cubic<T: Scalar>(a: T, b: T, c: T, d: T) -> Seq<T> {
    if a.spec_eq(T::spec_from_int(0)) {
        spec_solve_quadratic(b, c, d)
    } else {
        let q = spec_cubic_q(a, b, c);
        let r = spec_cubic_r(a, b, c, d);
        let disc = spec_cubic_discriminant(a, b, c, d);
        let shift = spec_cubic_shift(a, b);
        if T::spec_from_int(0).spec_lt(disc) || disc.spec_eq(T::spec_from_int(0)) {
            let s = r.spec_add(disc.spec_sqrt()).spec_cbrt();
            let t = r.spec_sub(disc.spec_sqrt()).spec_cbrt();
            if disc.spec_eq(T::spec_from_int(0)) {
                seq![shift.spec_add(s).spec_add(t), shift.spec_sub(s)]
            } else {
                seq![shift.spec_add(s).spec_add(t)]
            }
        } else {
            let q3 = q.spec_mul(q).spec_mul(q);
            let theta = r.spec_div(q3.spec_neg().spec_sqrt()).spec_acos();
            let k = T::spec_from_int(2).spec_mul(q.spec_neg().spec_sqrt());
            let third = |angle: T| k.spec_mul(
                angle.spec_div(T::spec_from_int(3)).spec_cos(),
            ).spec_add(shift);
            seq![
                third(theta),
                third(theta.spec_add(T::spec_from_int(2).spec_mul(T::spec_pi()))),
                third(theta.spec_sub(T::spec_from_int(2).spec_mul(T::spec_pi()))),
            ]
        }
    }
}

/// All real roots of the cubic equation `a·x³ + b·x² + c·x + d = 0`. When `a`
/// is zero the degree degrades, to [`solve_quadratic`]. Otherwise the cubic
/// is normalized to depressed form and classified by the sign of the Cardano
/// discriminant `D = q³ + r²`: for `D ≥ 0` the real cube roots give one real
/// root (plus the collapsed repeated root when `D = 0` exactly, two in all);
/// for `D < 0` — three distinct real roots, the irreducible case — the
/// trigonometric method avoids complex arithmetic entirely.
pub fn solve_cubic<T: Scalar>(a: T, b: T, c: T, d: T) -> (roots: Roots<T>)
    ensures
        roots.as_seq() == spec_solve_cubic(a, b, c, d),
{
    if a.is_eq(T::from_i32(0)) {
        solve_quadratic(b, c, d)
    } else {
        let a0 = d.div(a);
        let a1 = c.div(a);
        let a2 = b.div(a);

        let q = T::from_i32(3).mul(a1).sub(a2.mul(a2)).div(T::from_i32(9));
        let r = T::from_i32(9).mul(a2).mul(a1).sub(T::from_i32(27).mul(a0)).sub(
            T::from_i32(2).mul(a2).mul(a2).mul(a2),
        ).div(T::from_i32(54));

        let q3 = q.mul(q).mul(q);
        let disc = q3.add(r.mul(r));
        let shift = a2.neg().div(T::from_i32(3));

        if disc.is_ge(T::from_i32(0)) {
            let sqrtd = disc.sqrt();
            let s = r.add(sqrtd).cbrt();
            let t = r.sub(sqrtd).cbrt();

            let r1 = shift.add(s).add(t);

            if disc.is_eq(T::from_i32(0)) {
                let r2 = shift.sub(s);
                proof {
                    assert(Roots::Two([r1, r2]).as_seq() =~= spec_solve_cubic(a, b, c, d));
                }
                Roots::Two([r1, r2])
            } else {
                proof {
                    assert(Roots::One([r1]).as_seq() =~= spec_solve_cubic(a, b, c, d));
                }
                Roots::One([r1])
            }
        } else {
            let theta = r.div(q3.neg().sqrt()).acos();
            let k = T::from_i32(2).mul(q.neg().sqrt());
            let r1 = k.mul(theta.div(T::from_i32(3)).cos()).add(shift);
            let r2 = k.mul(theta.add(T::from_i32(2).mul(T::pi())).div(T::from_i32(3)).cos()).add(
                shift,
            );
            let r3 = k.mul(theta.sub(T::from_i32(2).mul(T::pi())).div(T::from_i32(3)).cos()).add(
                shift,
            );
            proof {
                assert(Roots::Three([r1, r2, r3]).as_seq() =~= spec_solve_cubic(a, b, c, d));
            }
            Roots::Three([r1, r2, r3])
        }
    }
}

/// Degree degradation and the solved root of a linear equation: when `a` is
/// nonzero exactly one root comes back, and it satisfies `a·x + b = 0`, for
/// any scalar satisfying the field laws.
pub proof fn lemma_solve_linear_root<T: Scalar>(a: T, b: T)
    requires
        crate::scalar_laws::<T>(),
        !a.spec_eq(T::spec_from_int(0)),
    ensures
        spec_solve_linear(a, b).len() == 1,
        a.spec_mul(spec_solve_linear(a, b)[0]).spec_add(b) == T::spec_from_int(0),
{
    let zero = T::spec_from_int(0);
    crate::lemma_s_eq(a, zero);
    let root = b.spec_neg().spec_div(a);
    crate::lemma_s_mul_comm(a, root);
    crate::lemma_s_div_mul(b.spec_neg(), a);
    crate::lemma_s_add_comm(b.spec_neg(), b);
    crate::lemma_s_add_neg(b);
}

/// The root count of the cubic solver follows the sign of the Cardano
/// discriminant `D = q³ + r²`: two roots at the `D = 0` boundary (the
/// repeated pair collapses), one for `D > 0`, and three — the irreducible
/// case — for `D < 0`.
pub proof fn lemma_cubic_root_count<T: Scalar>(a: T, b: T, c: T, d: T)
    requires
        crate::scalar_order_laws::<T>(),
        !a.spec_eq(T::spec_from_int(0)),
    ensures
        ({
            let zero = T::spec_from_int(0);
            let disc = spec_cubic_discriminant(a, b, c, d);
            let roots = spec_solve_cubic(a, b, c, d);
            &&& disc.spec_eq(zero) ==> roots.len() == 2
            &&& zero.spec_lt(disc) && !disc.spec_eq(zero) ==> roots.len() == 1
            &&& disc.spec_lt(zero) ==> roots.len() == 3
        }),
{
    let zero = T::spec_from_int(0);
    let disc = spec_cubic_discriminant(a, b, c, d);
    crate::lemma_ord_eq(disc, zero);
    if disc.spec_lt(zero) {
        if zero.spec_lt(disc) {
            crate::lemma_lt_trans(zero, disc, zero);
            crate::lemma_lt_irrefl(zero);
        }
        if disc == zero {
            crate::lemma_lt_irrefl(zero);
        }
    }
}

} // verus!
