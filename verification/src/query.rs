//! Value types produced by geometric queries: a validated unit vector and a
//! plane described by an origin and a unit normal.

use vstd::prelude::*;

use crate::space::{EuclideanSpace, InnerSpace};

verus! {

/// A vector validated to have near-unit norm at construction; immutable
/// thereafter.
pub struct Unit<T: InnerSpace> {
    inner: T,
}

impl<T: InnerSpace> Unit<T> {
    /// The wrapped vector.
    pub closed spec fn inner_spec(self) -> T {
        self.inner
    }

    /// The wrapped vector is the normalization of some vector, so its norm
    /// is unit within tolerance.
    pub open spec fn is_unit(self) -> bool {
        exists|v: T| v.normalize_spec() == Some(self.inner_spec())
    }

    /// What wrapping yields: the wrapper of the normalized input, or nothing
    /// when the norm of the input is degenerate.
    pub closed spec fn try_from_inner_spec(inner: T) -> Option<Unit<T>> {
        match inner.normalize_spec() {
            Some(u) => Some(Unit { inner: u }),
            None => None,
        }
    }

    /// How the wrapping of a vector relates to its normalization.
    pub proof fn lemma_try_from_inner_spec(inner: T)
        ensures
            Self::try_from_inner_spec(inner) is Some <==> inner.normalize_spec() is Some,
            (match Self::try_from_inner_spec(inner) {
                Some(u) => inner.normalize_spec() == Some(u.inner_spec()),
                None => inner.normalize_spec() is None,
            }),
    {
    }

    /// Normalizes `inner` and wraps the result; fails exactly when the norm
    /// of `inner` is degenerate.
    pub fn try_from_inner(inner: T) -> (r: Option<Unit<T>>)
        ensures
            r == Self::try_from_inner_spec(inner),
            r matches Some(u) ==> u.is_unit() && inner.normalize_spec() == Some(u.inner_spec()),
            r is Some <==> inner.normalize_spec() is Some,
    {
        match inner.normalize() {
            Some(v) => Some(Unit { inner: v }),
            None => None,
        }
    }

    /// Read-only access to the wrapped vector.
    pub fn get(&self) -> (r: &T)
        ensures
            *r == self.inner_spec(),
    {
        &self.inner
    }
}

/// A plane in a Euclidean space: an origin together with a unit normal.
///
/// The pair is meaningful when produced by plane fitting over an input that
/// spans a proper subspace; the origin is then the centroid of the fitting
/// input.
pub struct Plane<S: EuclideanSpace> where S::Vector: InnerSpace {
    pub origin: S,
    pub normal: Unit<S::Vector>,
}

} // verus!
