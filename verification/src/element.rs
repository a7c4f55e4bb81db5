//! Element capabilities: the per-operation requirement bundles (duplication,
//! equality, ordering, arithmetic, conversion) that polifunction domains and
//! codomains attach to their element types.
//!
//! Each capability is a trait whose executable method carries a contract tying
//! it to a specification-level account of the operation, and whose laws are
//! proof obligations that every implementation discharges.

use vstd::prelude::*;

verus! {

use core::cmp::Ordering;

/// The base capability: an element can be duplicated without change.
pub trait Element: Sized {
    fn dup(&self) -> (r: Self)
        ensures
            r == *self,
    ;
}

/// Decidable equality: the executable test agrees with mathematical equality.
pub trait EqElement: Element {
    fn eq_elem(&self, other: &Self) -> (r: bool)
        ensures
            r == (*self == *other),
    ;
}

/// A partial order on elements. `cmp_spec` may return `None` for a pair that
/// is incomparable; the laws below are the usual partial-order laws, stated
/// as proof obligations on every implementation.
pub trait OrdElement: Element {
    spec fn cmp_spec(&self, other: &Self) -> Option<Ordering>;

    fn cmp_elem(&self, other: &Self) -> (r: Option<Ordering>)
        ensures
            r == self.cmp_spec(other),
    ;

    /// Comparing in the other direction flips the outcome.
    proof fn lemma_cmp_flip(a: &Self, b: &Self)
        ensures
            (a.cmp_spec(b) == Some(Ordering::Equal)) == (b.cmp_spec(a) == Some(Ordering::Equal)),
            (a.cmp_spec(b) == Some(Ordering::Less)) == (b.cmp_spec(a) == Some(Ordering::Greater)),
    ;

    /// The order composes transitively through `Less` and `Equal`.
    proof fn lemma_cmp_transitive(a: &Self, b: &Self, c: &Self)
        ensures
            a.cmp_spec(b) == Some(Ordering::Less) && b.cmp_spec(c) == Some(Ordering::Less)
                ==> a.cmp_spec(c) == Some(Ordering::Less),
            a.cmp_spec(b) == Some(Ordering::Less) && b.cmp_spec(c) == Some(Ordering::Equal)
                ==> a.cmp_spec(c) == Some(Ordering::Less),
            a.cmp_spec(b) == Some(Ordering::Equal) && b.cmp_spec(c) == Some(Ordering::Less)
                ==> a.cmp_spec(c) == Some(Ordering::Less),
            a.cmp_spec(b) == Some(Ordering::Equal) && b.cmp_spec(c) == Some(Ordering::Equal)
                ==> a.cmp_spec(c) == Some(Ordering::Equal),
    ;
}

/// A total order: every pair is comparable, and elements that compare equal
/// are the same value. Needed to take extrema of a finite set.
pub trait TotalOrdElement: OrdElement + EqElement {
    proof fn lemma_cmp_total(a: &Self, b: &Self)
        ensures
            a.cmp_spec(b) == Some(Ordering::Less) || a.cmp_spec(b) == Some(Ordering::Equal)
                || a.cmp_spec(b) == Some(Ordering::Greater),
            (a.cmp_spec(b) == Some(Ordering::Equal)) <==> (a == b),
    ;
}

/// Additive arithmetic on elements.
pub trait AddElement: Element {
    spec fn add_spec(&self, other: &Self) -> Self;

    fn add_elem(&self, other: &Self) -> (r: Self)
        ensures
            r == self.add_spec(other),
    ;
}

/// Subtractive arithmetic on elements.
pub trait SubElement: Element {
    spec fn sub_spec(&self, other: &Self) -> Self;

    fn sub_elem(&self, other: &Self) -> (r: Self)
        ensures
            r == self.sub_spec(other),
    ;
}

/// Conversion of an element into another element type, used when composing a
/// polifunction whose outputs feed another polifunction's inputs.
pub trait IntoElement<U> {
    spec fn into_spec(&self) -> U;

    fn into_element(&self) -> (r: U)
        ensures
            r == self.into_spec(),
    ;
}

impl Element for i64 {
    fn dup(&self) -> (r: Self) {
        *self
    }
}

impl EqElement for i64 {
    fn eq_elem(&self, other: &Self) -> (r: bool) {
        *self == *other
    }
}

impl OrdElement for i64 {
    open spec fn cmp_spec(&self, other: &Self) -> Option<Ordering> {
        if *self < *other {
            Some(Ordering::Less)
        } else if *self == *other {
            Some(Ordering::Equal)
        } else {
            Some(Ordering::Greater)
        }
    }

    fn cmp_elem(&self, other: &Self) -> (r: Option<Ordering>) {
        if *self < *other {
            Some(Ordering::Less)
        } else if *self == *other {
            Some(Ordering::Equal)
        } else {
            Some(Ordering::Greater)
        }
    }

    proof fn lemma_cmp_flip(a: &Self, b: &Self) {
    }

    proof fn lemma_cmp_transitive(a: &Self, b: &Self, c: &Self) {
    }
}

impl TotalOrdElement for i64 {
    proof fn lemma_cmp_total(a: &Self, b: &Self) {
    }
}

impl AddElement for i64 {
    open spec fn add_spec(&self, other: &Self) -> Self {
        vstd::wrapping::i64_specs::wrapping_add(*self, *other)
    }

    fn add_elem(&self, other: &Self) -> (r: Self) {
        self.wrapping_add(*other)
    }
}

impl SubElement for i64 {
    open spec fn sub_spec(&self, other: &Self) -> Self {
        vstd::wrapping::i64_specs::wrapping_sub(*self, *other)
    }

    fn sub_elem(&self, other: &Self) -> (r: Self) {
        self.wrapping_sub(*other)
    }
}

impl IntoElement<i64> for i64 {
    open spec fn into_spec(&self) -> i64 {
        *self
    }

    fn into_element(&self) -> (r: i64) {
        *self
    }
}

impl Element for char {
    fn dup(&self) -> (r: Self) {
        *self
    }
}

impl EqElement for char {
    fn eq_elem(&self, other: &Self) -> (r: bool) {
        *self == *other
    }
}

/// `a` compares less than or equal to `b`.
pub open spec fn cmp_le<T: OrdElement>(a: T, b: T) -> bool {
    a.cmp_spec(&b) == Some(Ordering::Less) || a.cmp_spec(&b) == Some(Ordering::Equal)
}

/// `a` compares greater than or equal to `b`.
pub open spec fn cmp_ge<T: OrdElement>(a: T, b: T) -> bool {
    a.cmp_spec(&b) == Some(Ordering::Greater) || a.cmp_spec(&b) == Some(Ordering::Equal)
}

/// `m` is a member of `s` that every member of `s` is at least as large as.
pub open spec fn is_least_of<T: TotalOrdElement>(m: T, s: Set<T>) -> bool {
    &&& s.contains(m)
    &&& forall|x: T| s.contains(x) ==> cmp_le(m, x)
}

/// `m` is a member of `s` that every member of `s` is at most as large as.
pub open spec fn is_greatest_of<T: TotalOrdElement>(m: T, s: Set<T>) -> bool {
    &&& s.contains(m)
    &&& forall|x: T| s.contains(x) ==> cmp_ge(m, x)
}

/// The least member of `s`, when one exists.
pub open spec fn least_of<T: TotalOrdElement>(s: Set<T>) -> T {
    choose|m: T| is_least_of(m, s)
}

/// The greatest member of `s`, when one exists.
pub open spec fn greatest_of<T: TotalOrdElement>(s: Set<T>) -> T {
    choose|m: T| is_greatest_of(m, s)
}

/// A set has at most one least member under a total order.
pub proof fn lemma_least_unique<T: TotalOrdElement>(s: Set<T>, a: T, b: T)
    requires
        is_least_of(a, s),
        is_least_of(b, s),
    ensures
        a == b,
{
    T::lemma_cmp_total(&a, &b);
    T::lemma_cmp_flip(&a, &b);
}

/// A set has at most one greatest member under a total order.
pub proof fn lemma_greatest_unique<T: TotalOrdElement>(s: Set<T>, a: T, b: T)
    requires
        is_greatest_of(a, s),
        is_greatest_of(b, s),
    ensures
        a == b,
{
    T::lemma_cmp_total(&a, &b);
    T::lemma_cmp_flip(&a, &b);
}

} // verus!
