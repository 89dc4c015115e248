//! Plane fitting over buffers of scalars: assembling the flattened centered
//! coordinates of a point cloud, factoring them through an abstract
//! singular-value-decomposition backend, and selecting the direction of
//! minimum variance as the plane normal.

use vstd::prelude::*;

use core::cmp::Ordering;
use vstd::laws_cmp::obeys_partial_cmp_spec_properties;
use vstd::laws_eq::obeys_concrete_eq;
use vstd::std_specs::cmp::PartialEqSpec;
use vstd::std_specs::cmp::PartialOrdSpec;

use crate::le_spec;
use crate::query::{Plane, Unit};
use crate::space::{EuclideanSpace, InnerSpace};
use crate::{Composite, FromItems, IntoItems};

verus! {

/// The factors of a singular-value decomposition that plane fitting reads:
/// the left singular vectors as a column-major buffer, and the singular
/// values, paired positionally with the columns of that buffer.
pub struct SvdFactors<A> {
    /// Left singular vectors, column-major: column `i` occupies
    /// `u[i * u_rows .. (i + 1) * u_rows]`.
    pub u: Vec<A>,
    /// The number of rows of the matrix of left singular vectors.
    pub u_rows: usize,
    /// The number of columns of the matrix of left singular vectors.
    pub u_cols: usize,
    /// Singular values, in no specified order; `sigma[i]` is paired with
    /// column `i` of `u`.
    pub sigma: Vec<A>,
}

impl<A> SvdFactors<A> {
    /// The buffer of left singular vectors holds exactly its declared shape.
    pub open spec fn wf(self) -> bool {
        self.u@.len() == self.u_rows * self.u_cols
    }
}

/// A numeric backend that factors a real-valued matrix through a singular
/// value decomposition. The matrix of `rows` points in `cols` coordinates is
/// handed over as a flat buffer of `rows * cols` scalars in which each group
/// of `cols` consecutive scalars holds the coordinates of one point.
///
/// A backend may fail on any input. An implementor promises only that the
/// factorization is a function of the matrix alone, that the buffer of left
/// singular vectors matches its declared shape, and that singular values
/// are paired positionally with the columns of that buffer; nothing numeric
/// is promised about the factors themselves.
pub trait SvdBackend<A>: Sized {
    /// What the factorization returns: the left singular vectors as
    /// `(buffer, rows, cols)` together with the singular values, or nothing
    /// when the factorization fails.
    /// Unverified implementors may leave this default, an unspecified value.
    open spec fn svd_spec(rows: nat, cols: nat, data: Seq<A>) -> Option<(Seq<A>, nat, nat, Seq<A>)> {
        arbitrary()
    }

    /// Factors the matrix, requesting the left singular vectors.
    fn svd(rows: usize, cols: usize, data: &Vec<A>) -> (r: Option<SvdFactors<A>>)
        requires
            data@.len() == rows * cols,
        ensures
            (match r {
                Some(f) => Self::svd_spec(rows as nat, cols as nat, data@) == Some(
                    (f.u@, f.u_rows as nat, f.u_cols as nat, f.sigma@),
                ) && f.wf(),
                None => Self::svd_spec(rows as nat, cols as nat, data@) is None,
            }),
    ;
}

/// The index reached by scanning `s` from position `j` with current least
/// position `best`, keeping the earlier position on ties; nothing once a
/// comparison along the scan is unordered.
pub open spec fn min_index_from<A: PartialOrd>(s: Seq<A>, best: int, j: int) -> Option<int>
    decreases s.len() - j,
{
    if j < 0 || j >= s.len() {
        Some(best)
    } else {
        match s[j].partial_cmp_spec(&s[best]) {
            None => None,
            Some(Ordering::Less) => min_index_from(s, j, j + 1),
            Some(_) => min_index_from(s, best, j + 1),
        }
    }
}

/// The index of the least value of `s` under a left-to-right scan that keeps
/// the earlier value on ties; nothing when `s` is empty or a comparison made
/// along the scan is unordered.
pub open spec fn min_index_spec<A: PartialOrd>(s: Seq<A>) -> Option<int> {
    if s.len() == 0 {
        None
    } else {
        min_index_from(s, 0, 1)
    }
}

/// A scan over mutually comparable values never meets an unordered pair, so
/// it reaches an index.
proof fn lemma_min_index_from_some<A: PartialOrd>(s: Seq<A>, best: int, j: int)
    requires
        0 <= best < s.len(),
        0 <= j,
        forall|u: int, v: int|
            0 <= u < s.len() && 0 <= v < s.len() ==> (#[trigger] s[u].partial_cmp_spec(
                &s[v],
            )) is Some,
    ensures
        min_index_from(s, best, j) is Some,
    decreases s.len() - j,
{
    if j < s.len() {
        match s[j].partial_cmp_spec(&s[best]) {
            None => {
                assert(false);
            },
            Some(Ordering::Less) => {
                lemma_min_index_from_some(s, j, j + 1);
            },
            Some(_) => {
                lemma_min_index_from_some(s, best, j + 1);
            },
        }
    }
}

/// Selecting the least of a nonempty sequence of mutually comparable values
/// always succeeds.
pub proof fn lemma_min_index_some<A: PartialOrd>(s: Seq<A>)
    requires
        s.len() > 0,
        forall|u: int, v: int|
            0 <= u < s.len() && 0 <= v < s.len() ==> (#[trigger] s[u].partial_cmp_spec(
                &s[v],
            )) is Some,
    ensures
        min_index_spec(s) is Some,
{
    lemma_min_index_from_some(s, 0, 1);
}

/// Along a scan whose reached positions hold values less-or-equal to every
/// value already passed, the final position holds a least value.
proof fn lemma_min_index_from_minimal<A: PartialOrd>(s: Seq<A>, best: int, j: int)
    requires
        obeys_partial_cmp_spec_properties::<A>(),
        obeys_concrete_eq::<A>(),
        0 <= best < s.len(),
        0 <= j,
        forall|m: int| 0 <= m < j ==> le_spec(s[best], s[m]),
        le_spec(s[best], s[best]),
    ensures
        (match min_index_from(s, best, j) {
            Some(i) => 0 <= i < s.len() && forall|m: int| 0 <= m < s.len() ==> le_spec(s[i], s[m]),
            None => true,
        }),
    decreases s.len() - j,
{
    reveal(obeys_partial_cmp_spec_properties);
    reveal(obeys_concrete_eq);
    if j < s.len() {
        match s[j].partial_cmp_spec(&s[best]) {
            None => {
            },
            Some(Ordering::Less) => {
                assert(s[j].eq_spec(&s[j]));
                assert forall|m: int| 0 <= m < j + 1 implies le_spec(s[j], s[m]) by {
                    if m < j {
                        if s[best].partial_cmp_spec(&s[m]) == Some(Ordering::Equal) {
                            assert(s[best] == s[m]);
                        }
                    }
                }
                lemma_min_index_from_minimal(s, j, j + 1);
            },
            Some(Ordering::Equal) => {
                assert(s[j] == s[best]);
                lemma_min_index_from_minimal(s, best, j + 1);
            },
            Some(Ordering::Greater) => {
                lemma_min_index_from_minimal(s, best, j + 1);
            },
        }
    }
}

/// When the partial order of the values is consistent, the index that the
/// scan reaches holds a least value: it compares less-or-equal to every
/// value of the sequence.
pub proof fn lemma_min_index_is_minimal<A: PartialOrd>(s: Seq<A>)
    requires
        obeys_partial_cmp_spec_properties::<A>(),
        obeys_concrete_eq::<A>(),
    ensures
        (match min_index_spec(s) {
            Some(i) => 0 <= i < s.len() && forall|m: int| 0 <= m < s.len() ==> le_spec(s[i], s[m]),
            None => true,
        }),
{
    if s.len() > 0 {
        reveal(obeys_partial_cmp_spec_properties);
        reveal(obeys_concrete_eq);
        assert(s[0].eq_spec(&s[0]));
        lemma_min_index_from_minimal(s, 0, 1);
    }
}

/// Finds the index of the least value of `values`, keeping the earlier value
/// on ties; fails when `values` is empty or when a comparison it makes is
/// unordered.
pub fn min_index<A: PartialOrd>(values: &Vec<A>) -> (r: Option<usize>)
    ensures
        A::obeys_partial_cmp_spec() ==> (match r {
            Some(i) => min_index_spec(values@) == Some(i as int),
            None => min_index_spec(values@) is None,
        }),
        r matches Some(i) ==> i < values@.len(),
{
    if values.len() == 0 {
        return None;
    }
    let mut best: usize = 0;
    let mut j: usize = 1;
    while j < values.len()
        invariant
            0 <= best < values@.len(),
            1 <= j <= values@.len(),
            A::obeys_partial_cmp_spec() ==> min_index_from(values@, best as int, j as int)
                == min_index_spec(values@),
        decreases values@.len() - j,
    {
        match values[j].partial_cmp(&values[best]) {
            None => {
                return None;
            },
            Some(Ordering::Less) => {
                best = j;
            },
            Some(_) => {
            },
        }
        j = j + 1;
    }
    Some(best)
}

/// The centered coordinates of `points` about `c`: for each point in order,
/// the components of `point - c`, concatenated.
pub open spec fn centered_coords_spec<S>(points: Seq<S>, c: S) -> Seq<S::Scalar> where
    S: EuclideanSpace,
    S::Vector: Composite<Item = S::Scalar> + IntoItems,

    decreases points.len(),
{
    if points.len() == 0 {
        Seq::empty()
    } else {
        centered_coords_spec(points.drop_last(), c) + points.last().minus_spec(c).items_spec()
    }
}

/// What plane fitting returns, as a function of the point cloud alone:
/// the centroid of the points becomes the origin; the centered coordinates
/// are factored by the backend; the column of left singular vectors paired
/// with the least singular value is normalized into the unit normal.
/// Nothing is returned when the input is empty, the factorization fails,
/// the singular values are not mutually comparable, the selected column
/// index is out of range, or the candidate normal has a degenerate norm.
pub open spec fn fit_spec<S, B>(points: Seq<S>) -> Option<Plane<S>> where
    S: EuclideanSpace,
    S::Vector: Composite<Item = S::Scalar> + IntoItems + FromItems + InnerSpace,
    S::Scalar: PartialOrd,
    B: SvdBackend<S::Scalar>,
{
    if points.len() == 0 {
        None
    } else {
        let c = S::centroid_spec(points);
        match B::svd_spec(points.len(), 3, centered_coords_spec(points, c)) {
            None => None,
            Some((u, u_rows, u_cols, sigma)) => match min_index_spec(sigma) {
                None => None,
                Some(i) => if i < u_cols {
                    match <S::Vector as FromItems>::from_items_spec(
                        u.subrange(i * u_rows, (i + 1) * u_rows),
                    ) {
                        None => None,
                        Some(v) => match Unit::try_from_inner_spec(v) {
                            None => None,
                            Some(n) => Some(Plane { origin: c, normal: n }),
                        },
                    }
                } else {
                    None
                },
            },
        }
    }
}

/// Plane fitting is a deterministic function of its input: repeated fitting
/// of the same point set yields the identical plane on every call.
pub proof fn lemma_fit_deterministic<S, B>(
    points: Seq<S>,
    r1: Option<Plane<S>>,
    r2: Option<Plane<S>>,
) where
    S: EuclideanSpace,
    S::Vector: Composite<Item = S::Scalar> + IntoItems + FromItems + InnerSpace,
    S::Scalar: PartialOrd,
    B: SvdBackend<S::Scalar>,

    requires
        r1 == fit_spec::<S, B>(points),
        r2 == fit_spec::<S, B>(points),
    ensures
        r1 == r2,
{
}

impl<S> Plane<S> where
    S: EuclideanSpace,
    S::Vector: Composite<Item = S::Scalar> + IntoItems + FromItems + InnerSpace,
    S::Scalar: Copy + PartialOrd,
 {
    /// Fits the best-approximating plane to `points` through the
    /// factorization backend `B`; the plane fitted by `svd_ev_plane`.
    pub fn from_points<B>(points: &Vec<S>) -> (r: Option<Plane<S>>) where B: SvdBackend<S::Scalar>
        requires
            <S::Vector as Composite>::arity() == 3,
        ensures
            <S::Scalar as PartialOrdSpec>::obeys_partial_cmp_spec() ==> r == fit_spec::<S, B>(
                points@,
            ),
            points@.len() == 0 ==> r is None,
            r matches Some(p) ==> p.origin == S::centroid_spec(points@) && p.normal.is_unit(),
    {
        svd_ev_plane::<S, B>(points)
    }
}

/// Fits the plane of minimum variance to a cloud of points in a
/// 3-dimensional Euclidean space.
///
/// The centroid of the points becomes the origin of the plane and the left
/// singular vector of the centered coordinate matrix paired with the least
/// singular value becomes, normalized, its normal. All failures collapse to
/// no result: an empty input, a failed factorization, singular values that
/// are not mutually comparable, a selected column index out of range, and a
/// degenerate candidate normal.
pub fn svd_ev_plane<S, B>(points: &Vec<S>) -> (r: Option<Plane<S>>) where
    S: EuclideanSpace,
    S::Vector: Composite<Item = S::Scalar> + IntoItems + FromItems + InnerSpace,
    S::Scalar: Copy + PartialOrd,
    B: SvdBackend<S::Scalar>,

    requires
        <S::Vector as Composite>::arity() == 3,
    ensures
        <S::Scalar as PartialOrdSpec>::obeys_partial_cmp_spec() ==> r == fit_spec::<S, B>(
            points@,
        ),
        points@.len() == 0 ==> r is None,
        r matches Some(p) ==> p.origin == S::centroid_spec(points@) && p.normal.is_unit(),
{
    let n = points.len();
    let centroid = match S::centroid(points) {
        Some(c) => c,
        None => {
            return None;
        },
    };
    let mut data: Vec<S::Scalar> = Vec::new();
    let mut k: usize = 0;
    while k < n
        invariant
            n == points@.len(),
            0 <= k <= n,
            <S::Vector as Composite>::arity() == 3,
            data@ == centered_coords_spec(points@.take(k as int), centroid),
            data@.len() == 3 * k,
        decreases n - k,
    {
        let v = points[k].minus(&centroid);
        let mut items = v.into_items();
        data.append(&mut items);
        k = k + 1;
        proof {
            assert(points@.take(k as int).drop_last() =~= points@.take(k - 1 as int));
            assert(points@.take(k as int).last() == points@[k - 1 as int]);
        }
    }
    proof {
        assert(points@.take(n as int) =~= points@);
    }
    let factors = match B::svd(n, 3, &data) {
        Some(f) => f,
        None => {
            return None;
        },
    };
    let i = match min_index(&factors.sigma) {
        Some(i) => i,
        None => {
            return None;
        },
    };
    if i < factors.u_cols {
        let rows = factors.u_rows;
        proof {
            assert((i + 1) * rows <= factors.u_cols * rows) by (nonlinear_arith)
                requires
                    i < factors.u_cols,
                    0 <= rows,
            ;
            assert(factors.u_cols * rows == rows * factors.u_cols) by (nonlinear_arith);
            assert(i * rows <= (i + 1) * rows) by (nonlinear_arith)
                requires
                    0 <= i,
                    0 <= rows,
            ;
            assert((i + 1) * rows == i * rows + rows) by (nonlinear_arith);
            assert(0 <= i * rows) by (nonlinear_arith)
                requires
                    0 <= i,
                    0 <= rows,
            ;
            assert(factors.u@.subrange(i as int * rows as int, i as int * rows as int)
                =~= Seq::empty());
        }
        let u_len = factors.u.len();
        let mut col: Vec<S::Scalar> = Vec::new();
        let mut j: usize = 0;
        while j < rows
            invariant
                0 <= j <= rows,
                u_len == factors.u@.len(),
                i * rows + rows <= u_len,
                0 <= i * rows,
                col@ == factors.u@.subrange(i as int * rows as int, i as int * rows as int
                    + j as int),
            decreases rows - j,
        {
            let idx = i * rows + j;
            col.push(factors.u[idx]);
            j = j + 1;
            proof {
                assert(factors.u@.subrange(i as int * rows as int, i as int * rows as int
                    + j as int) =~= factors.u@.subrange(
                    i as int * rows as int,
                    i as int * rows as int + j - 1,
                ).push(factors.u@[idx as int]));
            }
        }
        let normal = match <S::Vector as FromItems>::from_items(col) {
            Some(v) => v,
            None => {
                return None;
            },
        };
        match Unit::try_from_inner(normal) {
            Some(u) => Some(Plane { origin: centroid, normal: u }),
            None => None,
        }
    } else {
        None
    }
}

} // verus!
