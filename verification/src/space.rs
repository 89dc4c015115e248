//! The Euclidean space capability: an abstract point type with centroid and
//! point-difference operations within a fixed ambient dimension, and the
//! inner-space operations of its vector (difference) type. Concrete point
//! and vector representations implement these traits to take part in the
//! geometric queries of this crate.

use vstd::prelude::*;

verus! {

/// An element of an N-dimensional Euclidean space.
///
/// Implementors state through `centroid_spec` and `minus_spec` what their
/// arithmetic returns, and promise through the contracts of `centroid` and
/// `minus` that the executable operations agree with those statements.
pub trait EuclideanSpace: Sized {
    /// The scalar type of the coordinates of a point.
    type Scalar;

    /// The difference type of the space: `point - point` is a `Vector`.
    type Vector;

    /// The arithmetic mean of a point collection; meaningful only when the
    /// collection is nonempty.
    /// Unverified implementors may leave this default, an unspecified value.
    open spec fn centroid_spec(points: Seq<Self>) -> Self {
        arbitrary()
    }

    /// The vector from `other` to `self`.
    /// Unverified implementors may leave this default, an unspecified value.
    open spec fn minus_spec(self, other: Self) -> Self::Vector {
        arbitrary()
    }

    /// Computes the arithmetic mean of `points`; fails exactly when
    /// `points` is empty.
    fn centroid(points: &Vec<Self>) -> (r: Option<Self>)
        ensures
            r is Some <==> points@.len() > 0,
            r matches Some(c) ==> c == Self::centroid_spec(points@),
    ;

    /// Computes the vector from `other` to `self`.
    fn minus(&self, other: &Self) -> (v: Self::Vector)
        ensures
            v == self.minus_spec(*other),
    ;
}

/// A vector type with a norm, able to scale itself to unit length.
pub trait InnerSpace: Sized {
    /// The unit-length vector in the direction of `self`, or nothing when
    /// the norm of `self` is degenerate: zero or not finite.
    /// Unverified implementors may leave this default, an unspecified value.
    open spec fn normalize_spec(self) -> Option<Self> {
        arbitrary()
    }

    /// Scales `self` to unit length; fails exactly on a degenerate norm.
    fn normalize(self) -> (r: Option<Self>)
        ensures
            r == self.normalize_spec(),
    ;
}

} // verus!
