use vstd::prelude::*;

use crate::InnerProductSpace;
use crate::Scalar;
use crate::VectorSpace;

verus! {

/// A concrete two-dimensional inner-product space over any [`Scalar`], for
/// consumers and tests; every operation works componentwise.
#[derive(Clone, Copy)]
pub struct Vector2<T: Scalar> {
    pub x: T,
    pub y: T,
}

impl<T: Scalar> Vector2<T> {
    pub fn new(x: T, y: T) -> (r: Vector2<T>)
        ensures
            r.x == x,
            r.y == y,
    {
        Vector2{ x, y }
    }
}

impl<T: Scalar> VectorSpace for Vector2<T> {
    type Scalar = T;

    open spec fn spec_add(self, other: Self) -> Self {
        Vector2 { x: self.x.spec_add(other.x), y: self.y.spec_add(other.y) }
    }

    open spec fn spec_sub(self, other: Self) -> Self {
        Vector2 { x: self.x.spec_sub(other.x), y: self.y.spec_sub(other.y) }
    }

    open spec fn spec_neg(self) -> Self {
        Vector2 { x: self.x.spec_neg(), y: self.y.spec_neg() }
    }

    open spec fn spec_scale(self, s: T) -> Self {
        Vector2 { x: self.x.spec_mul(s), y: self.y.spec_mul(s) }
    }

    open spec fn spec_div(self, s: T) -> Self {
        Vector2 { x: self.x.spec_div(s), y: self.y.spec_div(s) }
    }

    open spec fn spec_zero() -> Self {
        Vector2 { x: T::spec_from_int(0), y: T::spec_from_int(0) }
    }

    fn add(self, other: Self) -> (r: Self) {
        Vector2 { x: self.x.add(other.x), y: self.y.add(other.y) }
    }

    fn sub(self, other: Self) -> (r: Self) {
        Vector2 { x: self.x.sub(other.x), y: self.y.sub(other.y) }
    }

    fn neg(self) -> (r: Self) {
        Vector2 { x: self.x.neg(), y: self.y.neg() }
    }

    fn scale(self, s: T) -> (r: Self) {
        Vector2 { x: self.x.mul(s), y: self.y.mul(s) }
    }

    fn div(self, s: T) -> (r: Self) {
        Vector2 { x: self.x.div(s), y: self.y.div(s) }
    }

    fn zero() -> (r: Self) {
        Vector2 { x: T::from_i32(0), y: T::from_i32(0) }
    }
}

impl<T: Scalar> InnerProductSpace for Vector2<T> {
    open spec fn spec_inner_product(self, other: Self) -> T {
        self.x.spec_mul(other.x).spec_add(self.y.spec_mul(other.y))
    }

    fn inner_product(self, other: Self) -> (r: T) {
        self.x.mul(other.x).add(self.y.mul(other.y))
    }
}

} // verus!
