//! A curve-mathematics kernel: degree-1, -2 and -3 polynomial curves over an
//! abstract inner-product vector space, with evaluation, differentiation,
//! Bezier-basis conversion, subdivision, arc-length computation and inversion,
//! nearest-point projection, and degree-reduction approximations.
//!
//! Clients supply a scalar type (a field-like numeric type with square root,
//! cube root, logarithm and trigonometric operations) and a vector type built
//! on top of it. Every operation is a pure function of its inputs; results are
//! pinned down exactly in terms of the scalar's own operations, and the
//! algebraic laws of the kernel are proved under the hypothesis that the
//! scalar is an ordered field.

use vstd::prelude::*;

mod vector2;
mod cubic_curve;
mod linear_curve;
mod quadratic_curve;
mod roots;

pub use crate::cubic_curve::CubicCurve;
pub use crate::linear_curve::LinearCurve;
pub use crate::quadratic_curve::QuadraticCurve;
pub use crate::roots::Roots;
pub use crate::roots::solve_linear;
pub use crate::roots::solve_quadratic;
pub use crate::roots::solve_cubic;
pub use crate::vector2::Vector2;

verus! {

/// A field-like numeric type: ordered arithmetic, negation, absolute value,
/// square root, cube root, natural logarithm, arccosine, cosine, construction
/// from a small integer, and the constant pi.
///
/// Each executable operation is pinned to an abstract specification-level
/// counterpart, so that the result of every kernel routine can be stated
/// exactly as a formula over these operations. Nothing is assumed about the
/// operations themselves; the algebraic laws a well-behaved scalar satisfies
/// are collected in [`scalar_laws`], [`scalar_order_laws`] and
/// [`scalar_analysis_laws`], which the kernel's proved laws take as
/// hypotheses.
pub trait Scalar: Sized + Clone + Copy {
    open spec fn spec_add(self, other: Self) -> Self {
        arbitrary()
    }

    open spec fn spec_sub(self, other: Self) -> Self {
        arbitrary()
    }

    open spec fn spec_mul(self, other: Self) -> Self {
        arbitrary()
    }

    open spec fn spec_div(self, other: Self) -> Self {
        arbitrary()
    }

    open spec fn spec_neg(self) -> Self {
        arbitrary()
    }

    open spec fn spec_abs(self) -> Self {
        arbitrary()
    }

    open spec fn spec_sqrt(self) -> Self {
        arbitrary()
    }

    open spec fn spec_cbrt(self) -> Self {
        arbitrary()
    }

    open spec fn spec_ln(self) -> Self {
        arbitrary()
    }

    open spec fn spec_acos(self) -> Self {
        arbitrary()
    }

    open spec fn spec_cos(self) -> Self {
        arbitrary()
    }

    open spec fn spec_pi() -> Self {
        arbitrary()
    }

    /// The scalar that stands for the integer `value`.
    open spec fn spec_from_int(value: int) -> Self {
        arbitrary()
    }

    /// The scalar's own equality test (it may differ from structural
    /// equality; see [`scalar_laws`]).
    open spec fn spec_eq(self, other: Self) -> bool {
        arbitrary()
    }

    /// The scalar's strict order.
    open spec fn spec_lt(self, other: Self) -> bool {
        arbitrary()
    }

    fn add(self, other: Self) -> (r: Self)
        ensures
            r == self.spec_add(other),
    ;

    fn sub(self, other: Self) -> (r: Self)
        ensures
            r == self.spec_sub(other),
    ;

    fn mul(self, other: Self) -> (r: Self)
        ensures
            r == self.spec_mul(other),
    ;

    fn div(self, other: Self) -> (r: Self)
        ensures
            r == self.spec_div(other),
    ;

    fn neg(self) -> (r: Self)
        ensures
            r == self.spec_neg(),
    ;

    fn abs(self) -> (r: Self)
        ensures
            r == self.spec_abs(),
    ;

    fn sqrt(self) -> (r: Self)
        ensures
            r == self.spec_sqrt(),
    ;

    fn cbrt(self) -> (r: Self)
        ensures
            r == self.spec_cbrt(),
    ;

    fn ln(self) -> (r: Self)
        ensures
            r == self.spec_ln(),
    ;

    fn acos(self) -> (r: Self)
        ensures
            r == self.spec_acos(),
    ;

    fn cos(self) -> (r: Self)
        ensures
            r == self.spec_cos(),
    ;

    fn pi() -> (r: Self)
        ensures
            r == Self::spec_pi(),
    ;

    fn from_i32(value: i32) -> (r: Self)
        ensures
            r == Self::spec_from_int(value as int),
    ;

    fn is_eq(self, other: Self) -> (r: bool)
        ensures
            r == self.spec_eq(other),
    ;

    fn is_lt(self, other: Self) -> (r: bool)
        ensures
            r == self.spec_lt(other),
    ;

    fn is_le(self, other: Self) -> (r: bool)
        ensures
            r == (self.spec_lt(other) || self.spec_eq(other)),
    ;

    fn is_gt(self, other: Self) -> (r: bool)
        ensures
            r == other.spec_lt(self),
    ;

    fn is_ge(self, other: Self) -> (r: bool)
        ensures
            r == (other.spec_lt(self) || self.spec_eq(other)),
    ;
}

/// A vector space over a [`Scalar`]: vector addition and subtraction,
/// negation, scaling by a scalar, division by a scalar, and a zero element.
pub trait VectorSpace: Sized + Clone + Copy {
    type Scalar: Scalar;

    open spec fn spec_add(self, other: Self) -> Self {
        arbitrary()
    }

    open spec fn spec_sub(self, other: Self) -> Self {
        arbitrary()
    }

    open spec fn spec_neg(self) -> Self {
        arbitrary()
    }

    open spec fn spec_scale(self, s: Self::Scalar) -> Self {
        arbitrary()
    }

    open spec fn spec_div(self, s: Self::Scalar) -> Self {
        arbitrary()
    }

    open spec fn spec_zero() -> Self {
        arbitrary()
    }

    fn add(self, other: Self) -> (r: Self)
        ensures
            r == self.spec_add(other),
    ;

    fn sub(self, other: Self) -> (r: Self)
        ensures
            r == self.spec_sub(other),
    ;

    fn neg(self) -> (r: Self)
        ensures
            r == self.spec_neg(),
    ;

    fn scale(self, s: Self::Scalar) -> (r: Self)
        ensures
            r == self.spec_scale(s),
    ;

    fn div(self, s: Self::Scalar) -> (r: Self)
        ensures
            r == self.spec_div(s),
    ;

    fn zero() -> (r: Self)
        ensures
            r == Self::spec_zero(),
    ;
}

/// A vector space with a symmetric bilinear inner product; this is what lets
/// a curve measure speed and project points.
pub trait InnerProductSpace: VectorSpace {
    open spec fn spec_inner_product(self, other: Self) -> Self::Scalar {
        arbitrary()
    }

    fn inner_product(self, other: Self) -> (r: Self::Scalar)
        ensures
            r == self.spec_inner_product(other),
    ;
}

/// The laws of a commutative field whose equality test agrees with structural
/// equality, together with the embedding of the integers through
/// [`Scalar::spec_from_int`]. The kernel's algebraic laws hold of any scalar
/// satisfying these; an exact real type satisfies them outright, a
/// floating-point type only up to rounding. The predicate is opaque — proofs
/// work through the directed instance lemmas below, which keeps the
/// quantifiers from flooding the provers.
#[verifier::opaque]
pub open spec fn scalar_laws<S: Scalar>() -> bool {
    &&& forall|a: S, b: S| #[trigger] a.spec_eq(b) <==> a == b
    &&& forall|a: S, b: S| #[trigger] a.spec_add(b) == b.spec_add(a)
    &&& forall|a: S, b: S, c: S|
        #[trigger] a.spec_add(b).spec_add(c) == a.spec_add(b.spec_add(c))
    &&& forall|a: S| #[trigger] a.spec_add(S::spec_from_int(0)) == a
    &&& forall|a: S| #[trigger] a.spec_add(a.spec_neg()) == S::spec_from_int(0)
    &&& forall|a: S, b: S| #[trigger] a.spec_sub(b) == a.spec_add(b.spec_neg())
    &&& forall|a: S, b: S| #[trigger] a.spec_mul(b) == b.spec_mul(a)
    &&& forall|a: S, b: S, c: S|
        #[trigger] a.spec_mul(b).spec_mul(c) == a.spec_mul(b.spec_mul(c))
    &&& forall|a: S| #[trigger] a.spec_mul(S::spec_from_int(1)) == a
    &&& forall|a: S| #[trigger] a.spec_mul(S::spec_from_int(0)) == S::spec_from_int(0)
    &&& forall|a: S, b: S, c: S|
        #[trigger] a.spec_mul(b.spec_add(c)) == a.spec_mul(b).spec_add(a.spec_mul(c))
    &&& forall|a: S, b: S|
        #[trigger] a.spec_neg().spec_mul(b) == a.spec_mul(b).spec_neg()
    &&& forall|a: S, b: S|
        b != S::spec_from_int(0) ==> #[trigger] a.spec_div(b).spec_mul(b) == a
    &&& forall|a: S, b: S|
        b != S::spec_from_int(0) ==> #[trigger] a.spec_div(b) == a.spec_mul(
            S::spec_from_int(1).spec_div(b),
        )
    &&& forall|m: int, n: int|
        #[trigger] S::spec_from_int(m).spec_add(S::spec_from_int(n)) == S::spec_from_int(m + n)
    &&& forall|m: int, n: int|
        #[trigger] S::spec_from_int(m).spec_mul(S::spec_from_int(n)) == S::spec_from_int(m * n)
    &&& forall|m: int| #[trigger] S::spec_from_int(m).spec_neg() == S::spec_from_int(-m)
    &&& forall|m: int, n: int| m != n ==> S::spec_from_int(m) != S::spec_from_int(n)
}

/// The laws of a strict total order on the scalars, as an ordered field has,
/// with an equality test that agrees with structural equality.
#[verifier::opaque]
pub open spec fn scalar_order_laws<S: Scalar>() -> bool {
    &&& forall|a: S, b: S| #[trigger] a.spec_eq(b) <==> a == b
    &&& forall|a: S| !(#[trigger] a.spec_lt(a))
    &&& forall|a: S, b: S, c: S|
        #[trigger] a.spec_lt(b) && #[trigger] b.spec_lt(c) ==> a.spec_lt(c)
    &&& forall|a: S, b: S| a != b ==> #[trigger] a.spec_lt(b) || #[trigger] b.spec_lt(a)
}

/// The facts about the scalar's analytic operations that the kernel's laws
/// need: the square root of zero is zero, and so is the absolute value of
/// zero.
#[verifier::opaque]
pub open spec fn scalar_analysis_laws<S: Scalar>() -> bool {
    &&& S::spec_from_int(0).spec_sqrt() == S::spec_from_int(0)
    &&& S::spec_from_int(0).spec_abs() == S::spec_from_int(0)
}

/// The vector-space laws over a scalar satisfying [`scalar_laws`]. Opaque,
/// like [`scalar_laws`], and worked with through the instance lemmas below.
#[verifier::opaque]
pub open spec fn vector_laws<V: VectorSpace>() -> bool {
    &&& forall|a: V, b: V| #[trigger] a.spec_add(b) == b.spec_add(a)
    &&& forall|a: V, b: V, c: V|
        #[trigger] a.spec_add(b).spec_add(c) == a.spec_add(b.spec_add(c))
    &&& forall|a: V| #[trigger] a.spec_add(V::spec_zero()) == a
    &&& forall|a: V| #[trigger] a.spec_add(a.spec_neg()) == V::spec_zero()
    &&& forall|a: V, b: V| #[trigger] a.spec_sub(b) == a.spec_add(b.spec_neg())
    &&& forall|a: V, b: V, s: V::Scalar|
        #[trigger] a.spec_add(b).spec_scale(s) == a.spec_scale(s).spec_add(b.spec_scale(s))
    &&& forall|a: V, s: V::Scalar, t: V::Scalar|
        #[trigger] a.spec_scale(s.spec_add(t)) == a.spec_scale(s).spec_add(a.spec_scale(t))
    &&& forall|a: V, s: V::Scalar, t: V::Scalar|
        #[trigger] a.spec_scale(s).spec_scale(t) == a.spec_scale(s.spec_mul(t))
    &&& forall|a: V|
        #[trigger] a.spec_scale(<V::Scalar as Scalar>::spec_from_int(1)) == a
    &&& forall|a: V|
        #[trigger] a.spec_scale(<V::Scalar as Scalar>::spec_from_int(0)) == V::spec_zero()
    &&& forall|a: V|
        #[trigger] a.spec_scale(<V::Scalar as Scalar>::spec_from_int(-1)) == a.spec_neg()
    &&& forall|a: V, s: V::Scalar|
        s != <V::Scalar as Scalar>::spec_from_int(0) ==> #[trigger] a.spec_div(s)
            == a.spec_scale(<V::Scalar as Scalar>::spec_from_int(1).spec_div(s))
}

/// The laws of a symmetric bilinear inner product.
#[verifier::opaque]
pub open spec fn inner_product_laws<V: InnerProductSpace>() -> bool {
    &&& forall|a: V, b: V|
        #[trigger] a.spec_inner_product(b) == b.spec_inner_product(a)
    &&& forall|a: V, b: V, c: V|
        #[trigger] a.spec_add(b).spec_inner_product(c) == a.spec_inner_product(c).spec_add(
            b.spec_inner_product(c),
        )
    &&& forall|a: V, b: V, s: V::Scalar|
        #[trigger] a.spec_scale(s).spec_inner_product(b) == a.spec_inner_product(b).spec_mul(s)
}

/// The scalar's non-strict order: under [`scalar_order_laws`] it is the
/// reflexive closure of [`Scalar::spec_lt`].
pub open spec fn spec_le<S: Scalar>(a: S, b: S) -> bool {
    a.spec_lt(b) || a.spec_eq(b)
}

// Directed instances of the scalar laws.

/// The scalar's equality test agrees with structural equality.
pub proof fn lemma_s_eq<S: Scalar>(a: S, b: S)
    requires
        scalar_laws::<S>(),
    ensures
        a.spec_eq(b) <==> a == b,
{
    reveal(scalar_laws);
}

/// Commutativity of scalar addition.
pub proof fn lemma_s_add_comm<S: Scalar>(a: S, b: S)
    requires
        scalar_laws::<S>(),
    ensures
        a.spec_add(b) == b.spec_add(a),
{
    reveal(scalar_laws);
}

/// Associativity of scalar addition.
pub proof fn lemma_s_add_assoc<S: Scalar>(a: S, b: S, c: S)
    requires
        scalar_laws::<S>(),
    ensures
        a.spec_add(b).spec_add(c) == a.spec_add(b.spec_add(c)),
{
    reveal(scalar_laws);
}

/// Negation is the additive inverse.
pub proof fn lemma_s_add_neg<S: Scalar>(a: S)
    requires
        scalar_laws::<S>(),
    ensures
        a.spec_add(a.spec_neg()) == S::spec_from_int(0),
{
    reveal(scalar_laws);
}

/// Commutativity of scalar multiplication.
pub proof fn lemma_s_mul_comm<S: Scalar>(a: S, b: S)
    requires
        scalar_laws::<S>(),
    ensures
        a.spec_mul(b) == b.spec_mul(a),
{
    reveal(scalar_laws);
}

/// Associativity of scalar multiplication.
pub proof fn lemma_s_mul_assoc<S: Scalar>(a: S, b: S, c: S)
    requires
        scalar_laws::<S>(),
    ensures
        a.spec_mul(b).spec_mul(c) == a.spec_mul(b.spec_mul(c)),
{
    reveal(scalar_laws);
}

/// One is the multiplicative identity.
pub proof fn lemma_s_mul_one<S: Scalar>(a: S)
    requires
        scalar_laws::<S>(),
    ensures
        a.spec_mul(S::spec_from_int(1)) == a,
{
    reveal(scalar_laws);
}

/// Multiplication by zero gives zero.
pub proof fn lemma_s_mul_zero<S: Scalar>(a: S)
    requires
        scalar_laws::<S>(),
    ensures
        a.spec_mul(S::spec_from_int(0)) == S::spec_from_int(0),
{
    reveal(scalar_laws);
}

/// Multiplication distributes over addition.
pub proof fn lemma_s_distrib<S: Scalar>(a: S, b: S, c: S)
    requires
        scalar_laws::<S>(),
    ensures
        a.spec_mul(b.spec_add(c)) == a.spec_mul(b).spec_add(a.spec_mul(c)),
{
    reveal(scalar_laws);
}

/// Negation moves through multiplication.
pub proof fn lemma_s_neg_mul<S: Scalar>(a: S, b: S)
    requires
        scalar_laws::<S>(),
    ensures
        a.spec_neg().spec_mul(b) == a.spec_mul(b).spec_neg(),
{
    reveal(scalar_laws);
}

/// Dividing and then multiplying by a nonzero scalar gives the dividend back.
pub proof fn lemma_s_div_mul<S: Scalar>(a: S, b: S)
    requires
        scalar_laws::<S>(),
        b != S::spec_from_int(0),
    ensures
        a.spec_div(b).spec_mul(b) == a,
{
    reveal(scalar_laws);
}

/// The integer embedding preserves addition.
pub proof fn lemma_s_from_add<S: Scalar>(m: int, n: int)
    requires
        scalar_laws::<S>(),
    ensures
        S::spec_from_int(m).spec_add(S::spec_from_int(n)) == S::spec_from_int(m + n),
{
    reveal(scalar_laws);
}

/// The integer embedding preserves multiplication.
pub proof fn lemma_s_from_mul<S: Scalar>(m: int, n: int)
    requires
        scalar_laws::<S>(),
    ensures
        S::spec_from_int(m).spec_mul(S::spec_from_int(n)) == S::spec_from_int(m * n),
{
    reveal(scalar_laws);
}

/// The integer embedding preserves negation.
pub proof fn lemma_s_from_neg<S: Scalar>(m: int)
    requires
        scalar_laws::<S>(),
    ensures
        S::spec_from_int(m).spec_neg() == S::spec_from_int(-m),
{
    reveal(scalar_laws);
}

/// The integer embedding is injective.
pub proof fn lemma_s_from_injective<S: Scalar>(m: int, n: int)
    requires
        scalar_laws::<S>(),
        m != n,
    ensures
        S::spec_from_int(m) != S::spec_from_int(n),
{
    reveal(scalar_laws);
}

// Directed instances of the vector-space laws.

/// Commutativity of vector addition.
pub proof fn lemma_add_comm<V: VectorSpace>(a: V, b: V)
    requires
        vector_laws::<V>(),
    ensures
        a.spec_add(b) == b.spec_add(a),
{
    reveal(vector_laws);
}

/// Associativity of vector addition.
pub proof fn lemma_add_assoc<V: VectorSpace>(a: V, b: V, c: V)
    requires
        vector_laws::<V>(),
    ensures
        a.spec_add(b).spec_add(c) == a.spec_add(b.spec_add(c)),
{
    reveal(vector_laws);
}

/// The zero vector is the additive identity, on either side.
pub proof fn lemma_add_zero<V: VectorSpace>(a: V)
    requires
        vector_laws::<V>(),
    ensures
        a.spec_add(V::spec_zero()) == a,
        V::spec_zero().spec_add(a) == a,
{
    reveal(vector_laws);
}

/// Negation is the additive inverse.
pub proof fn lemma_add_neg<V: VectorSpace>(a: V)
    requires
        vector_laws::<V>(),
    ensures
        a.spec_add(a.spec_neg()) == V::spec_zero(),
{
    reveal(vector_laws);
}

/// Subtraction is addition of the negation.
pub proof fn lemma_sub_def<V: VectorSpace>(a: V, b: V)
    requires
        vector_laws::<V>(),
    ensures
        a.spec_sub(b) == a.spec_add(b.spec_neg()),
{
    reveal(vector_laws);
}

/// Scaling distributes over vector addition.
pub proof fn lemma_scale_distrib_v<V: VectorSpace>(a: V, b: V, s: V::Scalar)
    requires
        vector_laws::<V>(),
    ensures
        a.spec_add(b).spec_scale(s) == a.spec_scale(s).spec_add(b.spec_scale(s)),
{
    reveal(vector_laws);
}

/// Scaling distributes over scalar addition.
pub proof fn lemma_scale_distrib_s<V: VectorSpace>(a: V, s: V::Scalar, t: V::Scalar)
    requires
        vector_laws::<V>(),
    ensures
        a.spec_scale(s.spec_add(t)) == a.spec_scale(s).spec_add(a.spec_scale(t)),
{
    reveal(vector_laws);
}

/// Two scalings compose into a scaling by the product.
pub proof fn lemma_scale_compose<V: VectorSpace>(a: V, s: V::Scalar, t: V::Scalar)
    requires
        vector_laws::<V>(),
    ensures
        a.spec_scale(s).spec_scale(t) == a.spec_scale(s.spec_mul(t)),
{
    reveal(vector_laws);
}

/// Scaling by one, zero and minus one.
pub proof fn lemma_scale_units<V: VectorSpace>(a: V)
    requires
        vector_laws::<V>(),
    ensures
        a.spec_scale(<V::Scalar as Scalar>::spec_from_int(1)) == a,
        a.spec_scale(<V::Scalar as Scalar>::spec_from_int(0)) == V::spec_zero(),
        a.spec_scale(<V::Scalar as Scalar>::spec_from_int(-1)) == a.spec_neg(),
{
    reveal(vector_laws);
}

/// Division by a nonzero scalar is scaling by its reciprocal.
pub proof fn lemma_div_as_scale<V: VectorSpace>(a: V, s: V::Scalar)
    requires
        vector_laws::<V>(),
        s != <V::Scalar as Scalar>::spec_from_int(0),
    ensures
        a.spec_div(s) == a.spec_scale(<V::Scalar as Scalar>::spec_from_int(1).spec_div(s)),
{
    reveal(vector_laws);
}

/// Exchanging the middle summands of a four-term sum.
pub proof fn lemma_add_swap_middle<V: VectorSpace>(a: V, b: V, c: V, d: V)
    requires
        vector_laws::<V>(),
    ensures
        a.spec_add(b).spec_add(c.spec_add(d)) == a.spec_add(c).spec_add(b.spec_add(d)),
{
    lemma_add_assoc(a, b, c.spec_add(d));
    assert(b.spec_add(c.spec_add(d)) == c.spec_add(b.spec_add(d))) by {
        lemma_add_assoc(b, c, d);
        lemma_add_comm(b, c);
        lemma_add_assoc(c, b, d);
    }
    lemma_add_assoc(a, c, b.spec_add(d));
}

/// Collecting two scalings of one vector by embedded integers.
pub proof fn lemma_scale_collect<V: VectorSpace>(a: V, m: int, n: int)
    requires
        scalar_laws::<V::Scalar>(),
        vector_laws::<V>(),
    ensures
        a.spec_scale(<V::Scalar as Scalar>::spec_from_int(m)).spec_add(
            a.spec_scale(<V::Scalar as Scalar>::spec_from_int(n)),
        ) == a.spec_scale(<V::Scalar as Scalar>::spec_from_int(m + n)),
{
    let fm = <V::Scalar as Scalar>::spec_from_int(m);
    let fn_ = <V::Scalar as Scalar>::spec_from_int(n);
    lemma_scale_distrib_s(a, fm, fn_);
    lemma_s_from_add::<V::Scalar>(m, n);
}

// Directed instances of the order laws.

/// Under the order laws, the equality test agrees with structural equality.
pub proof fn lemma_ord_eq<S: Scalar>(a: S, b: S)
    requires
        scalar_order_laws::<S>(),
    ensures
        a.spec_eq(b) <==> a == b,
{
    reveal(scalar_order_laws);
}

/// The strict order is irreflexive.
pub proof fn lemma_lt_irrefl<S: Scalar>(a: S)
    requires
        scalar_order_laws::<S>(),
    ensures
        !a.spec_lt(a),
{
    reveal(scalar_order_laws);
}

/// The strict order is transitive.
pub proof fn lemma_lt_trans<S: Scalar>(a: S, b: S, c: S)
    requires
        scalar_order_laws::<S>(),
        a.spec_lt(b),
        b.spec_lt(c),
    ensures
        a.spec_lt(c),
{
    reveal(scalar_order_laws);
}

/// The strict order is total: distinct scalars compare one way or the other.
pub proof fn lemma_lt_total<S: Scalar>(a: S, b: S)
    requires
        scalar_order_laws::<S>(),
        a != b,
    ensures
        a.spec_lt(b) || b.spec_lt(a),
{
    reveal(scalar_order_laws);
}

/// The non-strict order is transitive.
pub proof fn lemma_le_trans<S: Scalar>(a: S, b: S, c: S)
    requires
        scalar_order_laws::<S>(),
        spec_le(a, b),
        spec_le(b, c),
    ensures
        spec_le(a, c),
{
    lemma_ord_eq(a, b);
    lemma_ord_eq(b, c);
    lemma_ord_eq(a, c);
    if a.spec_lt(b) && b.spec_lt(c) {
        lemma_lt_trans(a, b, c);
    }
}

// Directed instances of the analysis laws.

/// The square root and the absolute value of zero are zero.
pub proof fn lemma_zero_analysis<S: Scalar>()
    requires
        scalar_analysis_laws::<S>(),
    ensures
        S::spec_from_int(0).spec_sqrt() == S::spec_from_int(0),
        S::spec_from_int(0).spec_abs() == S::spec_from_int(0),
{
    reveal(scalar_analysis_laws);
}

// Directed instances of the inner-product laws.

/// The inner product is homogeneous in its first argument.
pub proof fn lemma_ip_scale<V: InnerProductSpace>(a: V, b: V, s: V::Scalar)
    requires
        inner_product_laws::<V>(),
    ensures
        a.spec_scale(s).spec_inner_product(b) == a.spec_inner_product(b).spec_mul(s),
{
    reveal(inner_product_laws);
}

} // verus!
