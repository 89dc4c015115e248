//! Geometric primitives over abstract Euclidean spaces: best-fit planes for
//! point clouds, and the generic partial-order operations (meet, join, clamp)
//! that geometric predicates rely on.

use vstd::prelude::*;

pub mod array;
pub mod query;
pub mod space;

use core::cmp::Ordering;
use vstd::laws_cmp::obeys_partial_cmp_spec_properties;
use vstd::laws_eq::obeys_concrete_eq;
use vstd::std_specs::cmp::PartialEqSpec;
use vstd::std_specs::cmp::PartialOrdSpec;

verus! {

/// A fixed-arity homogeneous aggregate of scalar components, such as a
/// coordinate pair or triple.
pub trait Composite {
    type Item;

    /// The number of components of the aggregate.
    /// Unverified implementors may leave this default, an unspecified value.
    open spec fn arity() -> nat {
        arbitrary()
    }
}

impl<T> Composite for (T, T) {
    type Item = T;

    open spec fn arity() -> nat {
        2
    }
}

impl<T> Composite for (T, T, T) {
    type Item = T;

    open spec fn arity() -> nat {
        3
    }
}

/// Decomposition of an aggregate into an ordered sequence of its components.
pub trait IntoItems: Composite + Sized {
    /// The components of the aggregate, in their original order.
    /// Unverified implementors may leave this default, an unspecified value.
    open spec fn items_spec(self) -> Seq<Self::Item> {
        arbitrary()
    }

    /// Produces the components of the aggregate in their original order.
    fn into_items(self) -> (r: Vec<Self::Item>)
        ensures
            r@ == self.items_spec(),
            r@.len() == Self::arity(),
    ;
}

impl<T> IntoItems for (T, T) {
    open spec fn items_spec(self) -> Seq<T> {
        seq![self.0, self.1]
    }

    fn into_items(self) -> (r: Vec<T>) {
        let mut items: Vec<T> = Vec::new();
        items.push(self.0);
        items.push(self.1);
        items
    }
}

impl<T> IntoItems for (T, T, T) {
    open spec fn items_spec(self) -> Seq<T> {
        seq![self.0, self.1, self.2]
    }

    fn into_items(self) -> (r: Vec<T>) {
        let mut items: Vec<T> = Vec::new();
        items.push(self.0);
        items.push(self.1);
        items.push(self.2);
        items
    }
}

/// Construction of an aggregate from the leading items of a sequence.
pub trait FromItems: Composite + Sized {
    /// What construction from a sequence yields: the aggregate of the first
    /// `arity` items in order, or nothing when too few items are available.
    /// Items beyond the required arity are ignored.
    /// Unverified implementors may leave this default, an unspecified value.
    open spec fn from_items_spec(items: Seq<Self::Item>) -> Option<Self> {
        arbitrary()
    }

    /// Builds the aggregate from the leading items of `items`.
    fn from_items(items: Vec<Self::Item>) -> (r: Option<Self>)
        ensures
            r == Self::from_items_spec(items@),
            r is Some <==> items@.len() >= Self::arity(),
    ;
}

impl<T> FromItems for (T, T) {
    open spec fn from_items_spec(items: Seq<T>) -> Option<(T, T)> {
        if items.len() >= 2 {
            Some((items[0], items[1]))
        } else {
            None
        }
    }

    fn from_items(items: Vec<T>) -> (r: Option<(T, T)>) {
        let mut items = items;
        if items.len() >= 2 {
            let a = items.remove(0);
            let b = items.remove(0);
            Some((a, b))
        } else {
            None
        }
    }
}

impl<T> FromItems for (T, T, T) {
    open spec fn from_items_spec(items: Seq<T>) -> Option<(T, T, T)> {
        if items.len() >= 3 {
            Some((items[0], items[1], items[2]))
        } else {
            None
        }
    }

    fn from_items(items: Vec<T>) -> (r: Option<(T, T, T)>) {
        let mut items = items;
        if items.len() >= 3 {
            let a = items.remove(0);
            let b = items.remove(0);
            let c = items.remove(0);
            Some((a, b, c))
        } else {
            None
        }
    }
}

/// Construction of an aggregate by repeating one value across all positions,
/// as for uniform vectors and scale factors.
pub trait Converged: Composite + Sized {
    /// The aggregate with `value` at every position.
    /// Unverified implementors may leave this default, an unspecified value.
    open spec fn converged_spec(value: Self::Item) -> Self {
        arbitrary()
    }

    /// Builds the aggregate that repeats `value` at every position.
    fn converged(value: Self::Item) -> (r: Self)
        ensures
            r == Self::converged_spec(value),
    ;
}

impl<T: Copy> Converged for (T, T) {
    open spec fn converged_spec(value: T) -> (T, T) {
        (value, value)
    }

    fn converged(value: T) -> (r: (T, T)) {
        (value, value)
    }
}

impl<T: Copy> Converged for (T, T, T) {
    open spec fn converged_spec(value: T) -> (T, T, T) {
        (value, value, value)
    }

    fn converged(value: T) -> (r: (T, T, T)) {
        (value, value, value)
    }
}

/// Composition of an ordered source of items into a fixed-arity aggregate.
pub trait IteratorExt: Sized {
    type Item;

    /// The items of the source, in order.
    /// Unverified implementors may leave this default, an unspecified value.
    open spec fn items_seq(self) -> Seq<Self::Item> {
        arbitrary()
    }

    /// Consumes the source and builds an aggregate from its leading items.
    fn compose<C>(self) -> (r: Option<C>) where
        C: Composite<Item = <Self as IteratorExt>::Item> + FromItems,

        ensures
            r == C::from_items_spec(self.items_seq()),
            r is Some <==> self.items_seq().len() >= C::arity(),
    ;
}

impl<T> IteratorExt for Vec<T> {
    type Item = T;

    open spec fn items_seq(self) -> Seq<T> {
        self@
    }

    fn compose<C>(self) -> (r: Option<C>) where C: Composite<Item = T> + FromItems {
        C::from_items(self)
    }
}

/// Decomposing an aggregate and rebuilding one from the resulting sequence
/// is exact: the round trip yields the original pair.
pub proof fn lemma_pair_round_trip<T>(t: (T, T))
    ensures
        <(T, T) as FromItems>::from_items_spec(t.items_spec()) == Some(t),
{
}

/// Decomposing an aggregate and rebuilding one from the resulting sequence
/// is exact: the round trip yields the original triple.
pub proof fn lemma_triple_round_trip<T>(t: (T, T, T))
    ensures
        <(T, T, T) as FromItems>::from_items_spec(t.items_spec()) == Some(t),
{
}

/// The comparison `a <= b` under the partial order of `T`.
pub open spec fn le_spec<T: PartialOrd>(a: T, b: T) -> bool {
    a.partial_cmp_spec(&b) matches Some(Ordering::Less | Ordering::Equal)
}

/// The comparison `a >= b` under the partial order of `T`.
pub open spec fn ge_spec<T: PartialOrd>(a: T, b: T) -> bool {
    a.partial_cmp_spec(&b) matches Some(Ordering::Greater | Ordering::Equal)
}

/// The operand that compares less-or-equal, the left operand when the
/// operands are tied or incomparable to each other.
pub open spec fn meet_spec<T: PartialOrd>(a: T, b: T) -> T {
    if le_spec(a, b) {
        a
    } else {
        b
    }
}

/// The operand that compares greater-or-equal, the left operand when the
/// operands are tied or incomparable to each other.
pub open spec fn join_spec<T: PartialOrd>(a: T, b: T) -> T {
    if ge_spec(a, b) {
        a
    } else {
        b
    }
}

/// Restriction of `x` to `[lo, hi]`: the policy is `meet(join(x, lo), hi)`,
/// yielding nothing when either comparison made along the way is unordered.
pub open spec fn partial_clamp_spec<T: PartialOrd>(x: T, lo: T, hi: T) -> Option<T> {
    match x.partial_cmp_spec(&lo) {
        None => None,
        Some(c1) => {
            let j = if c1 == Ordering::Less {
                lo
            } else {
                x
            };
            match j.partial_cmp_spec(&hi) {
                None => None,
                Some(c2) => Some(
                    if c2 == Ordering::Greater {
                        hi
                    } else {
                        j
                    },
                ),
            }
        },
    }
}

/// Meet and join over any copyable, partially ordered scalar.
///
/// `meet` and `join` always return one of the operands, even for mutually
/// incomparable operands; the `partial_*` operations instead yield nothing
/// when a comparison is unordered.
pub trait Lattice: PartialOrd + Sized {
    /// Returns the operand that is less-or-equal, `self` on ties.
    fn meet(&self, other: &Self) -> (r: Self)
        ensures
            Self::obeys_partial_cmp_spec() ==> r == meet_spec(*self, *other),
    ;

    /// Returns the operand that is greater-or-equal, `self` on ties.
    fn join(&self, other: &Self) -> (r: Self)
        ensures
            Self::obeys_partial_cmp_spec() ==> r == join_spec(*self, *other),
    ;

    /// Returns the meet and the join in one call.
    fn meet_join(&self, other: &Self) -> (r: (Self, Self))
        ensures
            Self::obeys_partial_cmp_spec() ==> r == (
                meet_spec(*self, *other),
                join_spec(*self, *other),
            ),
    ;

    /// Returns the lesser operand, `self` on ties; nothing when the operands
    /// are unordered.
    fn partial_min<'a>(&'a self, other: &'a Self) -> (r: Option<&'a Self>)
        ensures
            Self::obeys_partial_cmp_spec() ==> r == (match self.partial_cmp_spec(other) {
                Some(Ordering::Greater) => Some(other),
                Some(_) => Some(self),
                None => None,
            }),
    ;

    /// Returns the greater operand, `self` on ties; nothing when the operands
    /// are unordered.
    fn partial_max<'a>(&'a self, other: &'a Self) -> (r: Option<&'a Self>)
        ensures
            Self::obeys_partial_cmp_spec() ==> r == (match self.partial_cmp_spec(other) {
                Some(Ordering::Less) => Some(other),
                Some(_) => Some(self),
                None => None,
            }),
    ;

    /// Returns the operands as `(lesser, greater)`, `(other, self)` on ties;
    /// nothing when the operands are unordered.
    fn partial_ordered_pair<'a>(&'a self, other: &'a Self) -> (r: Option<(&'a Self, &'a Self)>)
        ensures
            Self::obeys_partial_cmp_spec() ==> r == (match self.partial_cmp_spec(other) {
                Some(Ordering::Less) => Some((self, other)),
                Some(_) => Some((other, self)),
                None => None,
            }),
    ;

    /// Restricts `self` to `[min, max]` as `meet(join(self, min), max)`;
    /// nothing when a comparison made along the way is unordered.
    fn partial_clamp<'a>(&'a self, min: &'a Self, max: &'a Self) -> (r: Option<&'a Self>)
        ensures
            Self::obeys_partial_cmp_spec() ==> (match r {
                Some(v) => partial_clamp_spec(*self, *min, *max) == Some(*v),
                None => partial_clamp_spec(*self, *min, *max) is None,
            }),
    ;
}

impl<T: Copy + PartialOrd> Lattice for T {
    fn meet(&self, other: &Self) -> (r: Self) {
        if *self <= *other {
            *self
        } else {
            *other
        }
    }

    fn join(&self, other: &Self) -> (r: Self) {
        if *self >= *other {
            *self
        } else {
            *other
        }
    }

    fn meet_join(&self, other: &Self) -> (r: (Self, Self)) {
        (self.meet(other), self.join(other))
    }

    fn partial_min<'a>(&'a self, other: &'a Self) -> (r: Option<&'a Self>) {
        match self.partial_cmp(other) {
            Some(Ordering::Greater) => Some(other),
            Some(_) => Some(self),
            None => None,
        }
    }

    fn partial_max<'a>(&'a self, other: &'a Self) -> (r: Option<&'a Self>) {
        match self.partial_cmp(other) {
            Some(Ordering::Less) => Some(other),
            Some(_) => Some(self),
            None => None,
        }
    }

    fn partial_ordered_pair<'a>(&'a self, other: &'a Self) -> (r: Option<(&'a Self, &'a Self)>) {
        match self.partial_cmp(other) {
            Some(Ordering::Less) => Some((self, other)),
            Some(_) => Some((other, self)),
            None => None,
        }
    }

    fn partial_clamp<'a>(&'a self, min: &'a Self, max: &'a Self) -> (r: Option<&'a Self>) {
        match self.partial_cmp(min) {
            None => None,
            Some(c1) => {
                let j: &'a Self = match c1 {
                    Ordering::Less => min,
                    _ => self,
                };
                match j.partial_cmp(max) {
                    None => None,
                    Some(c2) => Some(
                        match c2 {
                            Ordering::Greater => max,
                            _ => j,
                        },
                    ),
                }
            },
        }
    }
}

/// The meet of two mutually comparable operands is one of them and is
/// less-or-equal to both, and the join is one of them and is
/// greater-or-equal to both: under a consistent partial order, `meet` is the
/// minimum of the pair and `join` the maximum.
pub proof fn lemma_meet_join_min_max<T: PartialOrd>(a: T, b: T)
    requires
        obeys_partial_cmp_spec_properties::<T>(),
        obeys_concrete_eq::<T>(),
        a.partial_cmp_spec(&b) is Some,
    ensures
        meet_spec(a, b) == a || meet_spec(a, b) == b,
        le_spec(meet_spec(a, b), a),
        le_spec(meet_spec(a, b), b),
        join_spec(a, b) == a || join_spec(a, b) == b,
        ge_spec(join_spec(a, b), a),
        ge_spec(join_spec(a, b), b),
{
    reveal(obeys_partial_cmp_spec_properties);
    reveal(obeys_concrete_eq);
    lemma_reflexive(a);
    lemma_reflexive(b);
}

/// Under a consistent partial order every value compares equal to itself.
proof fn lemma_reflexive<T: PartialOrd>(a: T)
    requires
        obeys_partial_cmp_spec_properties::<T>(),
        obeys_concrete_eq::<T>(),
    ensures
        a.partial_cmp_spec(&a) == Some(Ordering::Equal),
{
    reveal(obeys_partial_cmp_spec_properties);
    reveal(obeys_concrete_eq);
    assert(a.eq_spec(&a));
}

/// The clamp of `x` to `[lo, hi]` with `lo <= hi` returns `x` when
/// `lo <= x <= hi`, returns `lo` when `x < lo`, returns `hi` when `x > hi`,
/// and returns nothing when a pairing it consults is unordered.
pub proof fn lemma_partial_clamp_cases<T: PartialOrd>(x: T, lo: T, hi: T)
    requires
        obeys_partial_cmp_spec_properties::<T>(),
        obeys_concrete_eq::<T>(),
        le_spec(lo, hi),
    ensures
        le_spec(lo, x) && le_spec(x, hi) ==> partial_clamp_spec(x, lo, hi) == Some(x),
        x.partial_cmp_spec(&lo) == Some(Ordering::Less) ==> partial_clamp_spec(x, lo, hi) == Some(
            lo,
        ),
        le_spec(lo, x) && x.partial_cmp_spec(&hi) == Some(Ordering::Greater)
            ==> partial_clamp_spec(x, lo, hi) == Some(hi),
        x.partial_cmp_spec(&lo) is None ==> partial_clamp_spec(x, lo, hi) is None,
{
    reveal(obeys_partial_cmp_spec_properties);
    reveal(obeys_concrete_eq);
    lemma_reflexive(x);
    lemma_reflexive(lo);
    lemma_reflexive(hi);
}

/// Returns the lesser of two comparable operands, the left one on ties.
pub fn partial_min<T: Copy + Lattice>(a: T, b: T) -> (r: T)
    requires
        T::obeys_partial_cmp_spec(),
        a.partial_cmp_spec(&b) is Some,
    ensures
        r == (if a.partial_cmp_spec(&b) == Some(Ordering::Greater) {
            b
        } else {
            a
        }),
{
    *a.partial_min(&b).unwrap()
}

/// Returns the greater of two comparable operands, the left one on ties.
pub fn partial_max<T: Copy + Lattice>(a: T, b: T) -> (r: T)
    requires
        T::obeys_partial_cmp_spec(),
        a.partial_cmp_spec(&b) is Some,
    ensures
        r == (if a.partial_cmp_spec(&b) == Some(Ordering::Less) {
            b
        } else {
            a
        }),
{
    *a.partial_max(&b).unwrap()
}

} // verus!
