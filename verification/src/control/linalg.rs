use vstd::prelude::*;

use crate::fixed::Fixed;

verus! {

/// A column of two numbers.
#[derive(Clone, Copy, PartialEq, Eq, Structural, Debug)]
pub struct Vector2 {
    pub x: Fixed,
    pub y: Fixed,
}

/// A square of four numbers; `m12` stands in the first row and the second
/// column.
#[derive(Clone, Copy, PartialEq, Eq, Structural, Debug)]
pub struct Matrix2 {
    pub m11: Fixed,
    pub m12: Fixed,
    pub m21: Fixed,
    pub m22: Fixed,
}

impl Vector2 {
    pub open spec fn spec_new(x: Fixed, y: Fixed) -> Vector2 {
        Vector2 { x, y }
    }

    /// The column with `x` above `y`.
    #[verifier::when_used_as_spec(spec_new)]
    pub fn new(x: Fixed, y: Fixed) -> (v: Vector2)
        ensures
            v == Vector2::spec_new(x, y),
    {
        Vector2 { x, y }
    }

    pub open spec fn spec_zero() -> Vector2 {
        Vector2 { x: Fixed::zero(), y: Fixed::zero() }
    }

    /// The column of zeros.
    #[verifier::when_used_as_spec(spec_zero)]
    pub fn zero() -> (v: Vector2)
        ensures
            v == Vector2::spec_zero(),
    {
        Vector2 { x: Fixed::zero(), y: Fixed::zero() }
    }

    pub open spec fn spec_add(self, rhs: Vector2) -> Vector2 {
        Vector2 { x: self.x.add(rhs.x), y: self.y.add(rhs.y) }
    }

    /// The sum, entry by entry.
    #[verifier::when_used_as_spec(spec_add)]
    pub fn add(self, rhs: Vector2) -> (v: Vector2)
        ensures
            v == self.spec_add(rhs),
    {
        Vector2 { x: self.x.add(rhs.x), y: self.y.add(rhs.y) }
    }

    pub open spec fn spec_unscale(self, divisor: Fixed) -> Vector2
        recommends
            divisor@ != 0,
    {
        Vector2 { x: self.x.div(divisor), y: self.y.div(divisor) }
    }

    /// Each entry divided by `divisor`.
    #[verifier::when_used_as_spec(spec_unscale)]
    pub fn unscale(self, divisor: Fixed) -> (v: Vector2)
        requires
            divisor@ != 0,
        ensures
            v == self.spec_unscale(divisor),
    {
        Vector2 { x: self.x.div(divisor), y: self.y.div(divisor) }
    }

    pub open spec fn spec_scale(self, factor: Fixed) -> Vector2 {
        Vector2 { x: self.x.mul(factor), y: self.y.mul(factor) }
    }

    /// Each entry times `factor`.
    #[verifier::when_used_as_spec(spec_scale)]
    pub fn scale(self, factor: Fixed) -> (v: Vector2)
        ensures
            v == self.spec_scale(factor),
    {
        Vector2 { x: self.x.mul(factor), y: self.y.mul(factor) }
    }
}

impl Matrix2 {
    pub open spec fn spec_new(m11: Fixed, m12: Fixed, m21: Fixed, m22: Fixed) -> Matrix2 {
        Matrix2 { m11, m12, m21, m22 }
    }

    /// The matrix with the rows `m11 m12` and `m21 m22`.
    #[verifier::when_used_as_spec(spec_new)]
    pub fn new(m11: Fixed, m12: Fixed, m21: Fixed, m22: Fixed) -> (m: Matrix2)
        ensures
            m == Matrix2::spec_new(m11, m12, m21, m22),
    {
        Matrix2 { m11, m12, m21, m22 }
    }

    pub open spec fn spec_identity() -> Matrix2 {
        Matrix2 { m11: Fixed::one(), m12: Fixed::zero(), m21: Fixed::zero(), m22: Fixed::one() }
    }

    /// The matrix that leaves every column as it is.
    #[verifier::when_used_as_spec(spec_identity)]
    pub fn identity() -> (m: Matrix2)
        ensures
            m == Matrix2::spec_identity(),
    {
        Matrix2 { m11: Fixed::one(), m12: Fixed::zero(), m21: Fixed::zero(), m22: Fixed::one() }
    }

    pub open spec fn spec_sub(self, rhs: Matrix2) -> Matrix2 {
        Matrix2 {
            m11: self.m11.sub(rhs.m11),
            m12: self.m12.sub(rhs.m12),
            m21: self.m21.sub(rhs.m21),
            m22: self.m22.sub(rhs.m22),
        }
    }

    /// The difference, entry by entry.
    #[verifier::when_used_as_spec(spec_sub)]
    pub fn sub(self, rhs: Matrix2) -> (m: Matrix2)
        ensures
            m == self.spec_sub(rhs),
    {
        Matrix2 {
            m11: self.m11.sub(rhs.m11),
            m12: self.m12.sub(rhs.m12),
            m21: self.m21.sub(rhs.m21),
            m22: self.m22.sub(rhs.m22),
        }
    }

    pub open spec fn spec_mul_vector(self, rhs: Vector2) -> Vector2 {
        Vector2 {
            x: self.m11.mul(rhs.x).add(self.m12.mul(rhs.y)),
            y: self.m21.mul(rhs.x).add(self.m22.mul(rhs.y)),
        }
    }

    /// The product of the matrix and a column.
    #[verifier::when_used_as_spec(spec_mul_vector)]
    pub fn mul_vector(self, rhs: Vector2) -> (v: Vector2)
        ensures
            v == self.spec_mul_vector(rhs),
    {
        Vector2 {
            x: self.m11.mul(rhs.x).add(self.m12.mul(rhs.y)),
            y: self.m21.mul(rhs.x).add(self.m22.mul(rhs.y)),
        }
    }

    pub open spec fn spec_determinant(self) -> Fixed {
        self.m11.mul(self.m22).sub(self.m21.mul(self.m12))
    }

    /// The determinant, `m11 * m22 - m21 * m12`.
    #[verifier::when_used_as_spec(spec_determinant)]
    pub fn determinant(self) -> (d: Fixed)
        ensures
            d == self.spec_determinant(),
    {
        self.m11.mul(self.m22).sub(self.m21.mul(self.m12))
    }

    pub open spec fn spec_adjugate(self) -> Matrix2 {
        Matrix2 { m11: self.m22, m12: self.m12.neg(), m21: self.m21.neg(), m22: self.m11 }
    }

    /// The adjugate: the matrix that, divided by the determinant, is the
    /// inverse.
    #[verifier::when_used_as_spec(spec_adjugate)]
    pub fn adjugate(self) -> (m: Matrix2)
        ensures
            m == self.spec_adjugate(),
    {
        Matrix2 { m11: self.m22, m12: self.m12.neg(), m21: self.m21.neg(), m22: self.m11 }
    }
}

} // verus!
