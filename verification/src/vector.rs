//! The 2D vector primitive.
//!
//! A `Vector2D` carries two binary64 coordinates as raw bit patterns, so its
//! derived equality and hash are bit-exact, as the data model demands.
//! Arithmetic goes through the named IEEE-754 operations of `fops`; every
//! method's contract pins its result to the spec-level mirror built from
//! those names.

use vstd::prelude::*;

use crate::fbits::spec_neg_bits;
use crate::fbits::neg_bits;
use crate::fops::spec_add_bits;
use crate::fops::spec_sub_bits;
use crate::fops::spec_mul_bits;
use crate::fops::spec_div_bits;
use crate::fops::spec_sqrt_bits;
use crate::fops::add_bits;
use crate::fops::sub_bits;
use crate::fops::mul_bits;
use crate::fops::div_bits;
use crate::fops::sqrt_bits;

verus! {

/// Bit pattern of 1.0.
pub const BITS_UNIT: u64 = 0x3FF0_0000_0000_0000;

/// A 2-dimensional vector of binary64 values, each held as its bit pattern.
/// Equality and hashing compare the raw bits.
#[derive(Clone, Copy, PartialEq, Eq, Hash, Debug, Structural)]
pub struct Vector2D(pub u64, pub u64);

pub open spec fn spec_vec_plus(a: Vector2D, b: Vector2D) -> Vector2D {
    Vector2D(spec_add_bits(a.0, b.0), spec_add_bits(a.1, b.1))
}

pub open spec fn spec_vec_minus(a: Vector2D, b: Vector2D) -> Vector2D {
    Vector2D(spec_sub_bits(a.0, b.0), spec_sub_bits(a.1, b.1))
}

pub open spec fn spec_vec_neg(a: Vector2D) -> Vector2D {
    Vector2D(spec_neg_bits(a.0), spec_neg_bits(a.1))
}

pub open spec fn spec_vec_scale(a: Vector2D, k: u64) -> Vector2D {
    Vector2D(spec_mul_bits(a.0, k), spec_mul_bits(a.1, k))
}

pub open spec fn spec_vec_div_scalar(a: Vector2D, k: u64) -> Vector2D {
    Vector2D(spec_div_bits(a.0, k), spec_div_bits(a.1, k))
}

pub open spec fn spec_dot(a: Vector2D, b: Vector2D) -> u64 {
    spec_add_bits(spec_mul_bits(a.0, b.0), spec_mul_bits(a.1, b.1))
}

pub open spec fn spec_cross(a: Vector2D, b: Vector2D) -> u64 {
    spec_sub_bits(spec_mul_bits(a.0, b.1), spec_mul_bits(a.1, b.0))
}

pub open spec fn spec_length_squared(a: Vector2D) -> u64 {
    spec_dot(a, a)
}

pub open spec fn spec_distance_squared(a: Vector2D, b: Vector2D) -> u64 {
    spec_length_squared(spec_vec_minus(b, a))
}

pub open spec fn spec_rotate90_left(a: Vector2D) -> Vector2D {
    Vector2D(a.1, spec_neg_bits(a.0))
}

pub open spec fn spec_rotate90_right(a: Vector2D) -> Vector2D {
    Vector2D(spec_neg_bits(a.1), a.0)
}

pub open spec fn spec_normalize(a: Vector2D) -> Vector2D {
    spec_vec_scale(a, spec_div_bits(BITS_UNIT, spec_sqrt_bits(spec_length_squared(a))))
}

pub open spec fn spec_length_projected_onto(a: Vector2D, b: Vector2D) -> u64 {
    spec_dot(a, spec_normalize(b))
}

impl Vector2D {
    /// Component-wise sum.
    pub fn plus(self, rhs: Vector2D) -> (r: Vector2D)
        ensures
            r == spec_vec_plus(self, rhs),
    {
        Vector2D(add_bits(self.0, rhs.0), add_bits(self.1, rhs.1))
    }

    /// Component-wise difference.
    pub fn minus(self, rhs: Vector2D) -> (r: Vector2D)
        ensures
            r == spec_vec_minus(self, rhs),
    {
        Vector2D(sub_bits(self.0, rhs.0), sub_bits(self.1, rhs.1))
    }

    /// Component-wise negation.
    pub fn negated(self) -> (r: Vector2D)
        ensures
            r == spec_vec_neg(self),
    {
        Vector2D(neg_bits(self.0), neg_bits(self.1))
    }

    /// Multiplication by a scalar (given as a bit pattern).
    pub fn scale(self, k: u64) -> (r: Vector2D)
        ensures
            r == spec_vec_scale(self, k),
    {
        Vector2D(mul_bits(self.0, k), mul_bits(self.1, k))
    }

    /// Division by a scalar (given as a bit pattern).
    pub fn div_scalar(self, k: u64) -> (r: Vector2D)
        ensures
            r == spec_vec_div_scalar(self, k),
    {
        Vector2D(div_bits(self.0, k), div_bits(self.1, k))
    }

    /// Dot product of the two vectors.
    pub fn dot_product(self, rhs: Vector2D) -> (r: u64)
        ensures
            r == spec_dot(self, rhs),
    {
        add_bits(mul_bits(self.0, rhs.0), mul_bits(self.1, rhs.1))
    }

    /// The length the 3D cross product would have.
    pub fn cross_product_length(self, rhs: Vector2D) -> (r: u64)
        ensures
            r == spec_cross(self, rhs),
    {
        sub_bits(mul_bits(self.0, rhs.1), mul_bits(self.1, rhs.0))
    }

    /// The squared length of this vector.
    pub fn length_squared(self) -> (r: u64)
        ensures
            r == spec_length_squared(self),
    {
        self.dot_product(self)
    }

    /// The squared distance between two points.
    pub fn distance_squared(self, other: Vector2D) -> (r: u64)
        ensures
            r == spec_distance_squared(self, other),
    {
        let diff = other.minus(self);
        diff.dot_product(diff)
    }

    /// Rotates the vector 90 degrees counter-clockwise on screen, where the
    /// y axis grows downward: (x, y) becomes (y, -x).
    pub fn rotate90_left(self) -> (r: Vector2D)
        ensures
            r == spec_rotate90_left(self),
    {
        Vector2D(self.1, neg_bits(self.0))
    }

    /// Rotates the vector 90 degrees clockwise on screen, where the y axis
    /// grows downward: (x, y) becomes (-y, x).
    pub fn rotate90_right(self) -> (r: Vector2D)
        ensures
            r == spec_rotate90_right(self),
    {
        Vector2D(neg_bits(self.1), self.0)
    }

    /// The unit vector pointing in the same direction: the vector scaled by
    /// the reciprocal of its length.
    pub fn normalize(self) -> (r: Vector2D)
        ensures
            r == spec_normalize(self),
    {
        let distance = sqrt_bits(self.length_squared());
        self.scale(div_bits(BITS_UNIT, distance))
    }

    /// The length of this vector projected onto `other`.
    pub fn length_projected_onto(self, other: Vector2D) -> (r: u64)
        ensures
            r == spec_length_projected_onto(self, other),
    {
        self.dot_product(other.normalize())
    }
}

/// Vector equality is bit-exact: reflexive, symmetric and transitive, and
/// two vectors are equal exactly when both coordinate bit patterns are.
pub proof fn lemma_vector_eq_is_bitwise(a: Vector2D, b: Vector2D, c: Vector2D)
    ensures
        a == a,
        (a == b) == (b == a),
        a == b && b == c ==> a == c,
        (a == b) <==> (a.0 == b.0 && a.1 == b.1),
{
}

} // verus!
