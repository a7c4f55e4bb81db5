//! Interval-valued polifunctions: the capability contract for functions whose
//! output is a bounded interval, a basic mapping-backed implementation, and
//! the hull combinator, which computes the smallest interval containing two
//! polifunctions' outputs.
//!
//! When the two hull operands tie at a bound, the combined bound is inclusive
//! if either side's bound was — inclusivity is never lost by comparison. A
//! pair of incomparable bounds makes the hull a computation error.

use vstd::prelude::*;

verus! {

use core::cmp::Ordering;
use crate::element::{OrdElement, SubElement};
use crate::polifunction::{PolifunctionBase, PolifunctionValue, PolifunctionError, ErrorModel,
    ValueModel, Domain, Codomain, Interval, plain_result_models, domain_guarded,
    interval_outcome_to_value};

/// Mapping interface for interval-valued functions: the caller-supplied rule
/// that assigns each input an interval of outputs, or an error. The rule is a
/// pure function of its input.
pub trait IntervalMapping<E, T> {
    /// The outcome of the rule at `input`.
    spec fn spec_map(&self, input: &E) -> Result<Interval<T>, ErrorModel>;

    /// Apply the rule at `input`.
    fn map_at(&self, input: &E) -> (r: Result<Interval<T>, PolifunctionError>)
        ensures
            plain_result_models(r, self.spec_map(input)),
    ;
}

/// The smallest interval containing both `i1` and `i2`: the smaller lower
/// bound and the larger upper bound, keeping `i1`'s bound on a tie but
/// combining inclusivity with a logical or. Incomparable bounds make the
/// hull a computation error.
pub open spec fn spec_hull<T: OrdElement>(i1: Interval<T>, i2: Interval<T>) -> Result<
    Interval<T>,
    ErrorModel,
> {
    match i1.lower.cmp_spec(&i2.lower) {
        None => Err(ErrorModel::ComputationError),
        Some(lc) => match i1.upper.cmp_spec(&i2.upper) {
            None => Err(ErrorModel::ComputationError),
            Some(uc) => Ok(
                Interval {
                    lower: if lc == Ordering::Greater {
                        i2.lower
                    } else {
                        i1.lower
                    },
                    upper: if uc == Ordering::Less {
                        i2.upper
                    } else {
                        i1.upper
                    },
                    lower_inclusive: match lc {
                        Ordering::Less => i1.lower_inclusive,
                        Ordering::Equal => i1.lower_inclusive || i2.lower_inclusive,
                        Ordering::Greater => i2.lower_inclusive,
                    },
                    upper_inclusive: match uc {
                        Ordering::Greater => i1.upper_inclusive,
                        Ordering::Equal => i1.upper_inclusive || i2.upper_inclusive,
                        Ordering::Less => i2.upper_inclusive,
                    },
                },
            ),
        },
    }
}

/// The hull's two-tier fallback: a domain error from one branch leaves the
/// other branch's interval as it stands, any other error is fatal, and two
/// intervals are combined by `spec_hull`.
pub open spec fn hull_interval_outcome<T: OrdElement>(
    in_dom: bool,
    r1: Result<Interval<T>, ErrorModel>,
    r2: Result<Interval<T>, ErrorModel>,
) -> Result<Interval<T>, ErrorModel> {
    if !in_dom {
        Err(ErrorModel::DomainError)
    } else {
        match (r1, r2) {
            (Ok(i1), Ok(i2)) => spec_hull(i1, i2),
            (Ok(i1), Err(ErrorModel::DomainError)) => Ok(i1),
            (Err(ErrorModel::DomainError), other) => other,
            (Err(e1), _) => Err(e1),
            (Ok(_), Err(e2)) => Err(e2),
        }
    }
}

/// Membership of `v` in an interval-valued outcome.
pub open spec fn interval_outcome_admits<T: OrdElement>(
    m: Result<Interval<T>, ErrorModel>,
    v: T,
) -> Result<bool, ErrorModel> {
    match m {
        Ok(i) => Ok(i.spec_admits(v)),
        Err(e) => Err(e),
    }
}

/// The width of an interval-valued outcome.
pub open spec fn interval_outcome_width<T: OrdElement + SubElement>(
    m: Result<Interval<T>, ErrorModel>,
) -> Result<T, ErrorModel> {
    match m {
        Ok(i) => Ok(i.upper.sub_spec(&i.lower)),
        Err(e) => Err(e),
    }
}

/// Trait for interval-valued polifunctions.
pub trait IntervalValuedPolifunction: PolifunctionBase where
    <Self::Codomain as Codomain>::Element: OrdElement,
 {
    /// The outcome of `value_interval`, as a function of the input alone.
    spec fn spec_value_interval(&self, input: &<Self::Domain as Domain>::Element) -> Result<
        Interval<<Self::Codomain as Codomain>::Element>,
        ErrorModel,
    >;

    /// Get the interval of values at the given input.
    fn value_interval(&self, input: &<Self::Domain as Domain>::Element) -> (r: Result<
        Interval<<Self::Codomain as Codomain>::Element>,
        PolifunctionError,
    >)
        ensures
            plain_result_models(r, self.spec_value_interval(input)),
    ;

    /// Check if a specific value is in the output interval for a given input,
    /// honouring each bound's inclusivity exactly.
    fn contains_value(
        &self,
        input: &<Self::Domain as Domain>::Element,
        value: &<Self::Codomain as Codomain>::Element,
    ) -> (r: Result<bool, PolifunctionError>)
        ensures
            (match (r, interval_outcome_admits(self.spec_value_interval(input), *value)) {
                (Ok(b), Ok(bm)) => b == bm,
                (Err(e), Err(em)) => e@ == em,
                _ => false,
            }),
    ;

    /// Get the width of the output interval for a given input: the distance
    /// from the lower to the upper bound, never clamped.
    fn interval_width(&self, input: &<Self::Domain as Domain>::Element) -> (r: Result<
        <Self::Codomain as Codomain>::Element,
        PolifunctionError,
    >) where <Self::Codomain as Codomain>::Element: SubElement
        ensures
            (match (r, interval_outcome_width(self.spec_value_interval(input))) {
                (Ok(w), Ok(wm)) => w == wm,
                (Err(e), Err(em)) => e@ == em,
                _ => false,
            }),
    ;

    /// An input outside the domain always yields the domain error: the domain
    /// check comes before any computation.
    proof fn value_interval_checks_domain(&self, input: &<Self::Domain as Domain>::Element)
        ensures
            !self.spec_in_domain(input) ==> self.spec_value_interval(input) == Err::<
                Interval<<Self::Codomain as Codomain>::Element>,
                ErrorModel,
            >(ErrorModel::DomainError),
    ;

    /// The same domain-check-first rule, for `evaluate`.
    proof fn evaluate_checks_domain(&self, input: &<Self::Domain as Domain>::Element)
        ensures
            !self.spec_in_domain(input) ==> self.spec_evaluate(input) == Err::<
                ValueModel<<Self::Codomain as Codomain>::Element>,
                ErrorModel,
            >(ErrorModel::DomainError),
    ;
}

/// Basic implementation of an interval-valued polifunction: a caller-supplied
/// mapping rule together with a declared domain and codomain.
pub struct BasicIntervalValuedPolifunction<D, C, M> {
    /// Rule that maps inputs to intervals of outputs
    pub mapping_function: M,
    /// Domain of the function
    pub domain: D,
    /// Codomain of the function
    pub codomain: C,
}

impl<D, C, M> BasicIntervalValuedPolifunction<D, C, M> {
    /// Create a new interval-valued polifunction with the given mapping rule.
    pub fn new(mapping_function: M, domain: D, codomain: C) -> (r: Self)
        ensures
            r == (BasicIntervalValuedPolifunction { mapping_function, domain, codomain }),
    {
        BasicIntervalValuedPolifunction { mapping_function, domain, codomain }
    }
}

impl<D, C, M> PolifunctionBase for BasicIntervalValuedPolifunction<D, C, M> where
    D: Domain,
    C: Codomain,
    M: IntervalMapping<D::Element, C::Element>,
    C::Element: OrdElement,
 {
    type Domain = D;

    type Codomain = C;

    open spec fn spec_in_domain(&self, input: &D::Element) -> bool {
        self.domain.spec_contains(input)
    }

    open spec fn spec_evaluate(&self, input: &D::Element) -> Result<
        ValueModel<C::Element>,
        ErrorModel,
    > {
        interval_outcome_to_value(
            domain_guarded(
                self.domain.spec_contains(input),
                self.mapping_function.spec_map(input),
            ),
        )
    }

    fn evaluate(&self, input: &D::Element) -> (r: Result<
        PolifunctionValue<C::Element>,
        PolifunctionError,
    >) {
        match self.value_interval(input) {
            Ok(interval) => Ok(PolifunctionValue::Interval(interval)),
            Err(e) => Err(e),
        }
    }

    fn in_domain(&self, input: &D::Element) -> (r: bool) {
        self.domain.contains(input)
    }
}

impl<D, C, M> IntervalValuedPolifunction for BasicIntervalValuedPolifunction<D, C, M> where
    D: Domain,
    C: Codomain,
    M: IntervalMapping<D::Element, C::Element>,
    C::Element: OrdElement,
 {
    open spec fn spec_value_interval(&self, input: &D::Element) -> Result<
        Interval<C::Element>,
        ErrorModel,
    > {
        domain_guarded(self.domain.spec_contains(input), self.mapping_function.spec_map(input))
    }

    fn value_interval(&self, input: &D::Element) -> (r: Result<
        Interval<C::Element>,
        PolifunctionError,
    >) {
        if !self.in_domain(input) {
            return Err(PolifunctionError::DomainError);
        }
        self.mapping_function.map_at(input)
    }

    fn contains_value(&self, input: &D::Element, value: &C::Element) -> (r: Result<
        bool,
        PolifunctionError,
    >) {
        match self.value_interval(input) {
            Ok(interval) => Ok(interval.admits(value)),
            Err(e) => Err(e),
        }
    }

    fn interval_width(&self, input: &D::Element) -> (r: Result<
        C::Element,
        PolifunctionError,
    >) where C::Element: SubElement {
        match self.value_interval(input) {
            Ok(interval) => Ok(interval.width()),
            Err(e) => Err(e),
        }
    }

    proof fn value_interval_checks_domain(&self, input: &D::Element) {
    }

    proof fn evaluate_checks_domain(&self, input: &D::Element) {
    }
}

/// Hull of two interval-valued polifunctions (smallest interval containing
/// both) over the same domain and codomain.
pub struct HullPolifunction<P1, P2> {
    pub p1: P1,
    pub p2: P2,
}

impl<P1, P2> HullPolifunction<P1, P2> {
    /// Create a new hull of two interval-valued polifunctions.
    pub fn new(p1: P1, p2: P2) -> (r: Self)
        ensures
            r == (HullPolifunction { p1, p2 }),
    {
        HullPolifunction { p1, p2 }
    }
}

impl<P1, P2> PolifunctionBase for HullPolifunction<P1, P2> where
    P1: IntervalValuedPolifunction,
    P2: IntervalValuedPolifunction<Domain = P1::Domain, Codomain = P1::Codomain>,
    <P1::Codomain as Codomain>::Element: OrdElement,
 {
    type Domain = P1::Domain;

    type Codomain = P1::Codomain;

    open spec fn spec_in_domain(&self, input: &<P1::Domain as Domain>::Element) -> bool {
        self.p1.spec_in_domain(input) || self.p2.spec_in_domain(input)
    }

    open spec fn spec_evaluate(&self, input: &<P1::Domain as Domain>::Element) -> Result<
        ValueModel<<P1::Codomain as Codomain>::Element>,
        ErrorModel,
    > {
        interval_outcome_to_value(
            hull_interval_outcome(
                self.p1.spec_in_domain(input) || self.p2.spec_in_domain(input),
                self.p1.spec_value_interval(input),
                self.p2.spec_value_interval(input),
            ),
        )
    }

    fn evaluate(&self, input: &<P1::Domain as Domain>::Element) -> (r: Result<
        PolifunctionValue<<P1::Codomain as Codomain>::Element>,
        PolifunctionError,
    >) {
        match self.value_interval(input) {
            Ok(interval) => Ok(PolifunctionValue::Interval(interval)),
            Err(e) => Err(e),
        }
    }

    fn in_domain(&self, input: &<P1::Domain as Domain>::Element) -> (r: bool) {
        self.p1.in_domain(input) || self.p2.in_domain(input)
    }
}

impl<P1, P2> IntervalValuedPolifunction for HullPolifunction<P1, P2> where
    P1: IntervalValuedPolifunction,
    P2: IntervalValuedPolifunction<Domain = P1::Domain, Codomain = P1::Codomain>,
    <P1::Codomain as Codomain>::Element: OrdElement,
 {
    open spec fn spec_value_interval(&self, input: &<P1::Domain as Domain>::Element) -> Result<
        Interval<<P1::Codomain as Codomain>::Element>,
        ErrorModel,
    > {
        hull_interval_outcome(
            self.p1.spec_in_domain(input) || self.p2.spec_in_domain(input),
            self.p1.spec_value_interval(input),
            self.p2.spec_value_interval(input),
        )
    }

    fn value_interval(&self, input: &<P1::Domain as Domain>::Element) -> (r: Result<
        Interval<<P1::Codomain as Codomain>::Element>,
        PolifunctionError,
    >) {
        if !self.in_domain(input) {
            return Err(PolifunctionError::DomainError);
        }
        let interval1 = match self.p1.value_interval(input) {
            Ok(i) => i,
            Err(e) => {
                return match e {
                    // out of the first branch's domain: the second one decides
                    PolifunctionError::DomainError => self.p2.value_interval(input),
                    _ => Err(e),
                };
            },
        };
        let interval2 = match self.p2.value_interval(input) {
            Ok(i) => i,
            Err(e) => {
                return match e {
                    // out of the second branch's domain: keep the first interval
                    PolifunctionError::DomainError => Ok(interval1),
                    _ => Err(e),
                };
            },
        };
        let lower_cmp = interval1.lower.cmp_elem(&interval2.lower);
        let upper_cmp = interval1.upper.cmp_elem(&interval2.upper);
        let Interval { lower: l1, upper: u1, lower_inclusive: li1, upper_inclusive: ui1 } =
            interval1;
        let Interval { lower: l2, upper: u2, lower_inclusive: li2, upper_inclusive: ui2 } =
            interval2;
        match (lower_cmp, upper_cmp) {
            (Some(lc), Some(uc)) => Ok(
                Interval {
                    lower: match lc {
                        Ordering::Greater => l2,
                        _ => l1,
                    },
                    upper: match uc {
                        Ordering::Less => u2,
                        _ => u1,
                    },
                    lower_inclusive: match lc {
                        Ordering::Less => li1,
                        Ordering::Equal => li1 || li2,
                        Ordering::Greater => li2,
                    },
                    upper_inclusive: match uc {
                        Ordering::Greater => ui1,
                        Ordering::Equal => ui1 || ui2,
                        Ordering::Less => ui2,
                    },
                },
            ),
            _ => Err(PolifunctionError::ComputationError),
        }
    }

    fn contains_value(
        &self,
        input: &<P1::Domain as Domain>::Element,
        value: &<P1::Codomain as Codomain>::Element,
    ) -> (r: Result<bool, PolifunctionError>) {
        match self.value_interval(input) {
            Ok(interval) => Ok(interval.admits(value)),
            Err(e) => Err(e),
        }
    }

    fn interval_width(&self, input: &<P1::Domain as Domain>::Element) -> (r: Result<
        <P1::Codomain as Codomain>::Element,
        PolifunctionError,
    >) where <P1::Codomain as Codomain>::Element: SubElement {
        match self.value_interval(input) {
            Ok(interval) => Ok(interval.width()),
            Err(e) => Err(e),
        }
    }

    proof fn value_interval_checks_domain(&self, input: &<P1::Domain as Domain>::Element) {
    }

    proof fn evaluate_checks_domain(&self, input: &<P1::Domain as Domain>::Element) {
    }
}

/// The hull of two intervals contains every value that either interval
/// contains.
pub proof fn lemma_hull_admits<T: OrdElement>(i1: Interval<T>, i2: Interval<T>, h: Interval<T>, v: T)
    requires
        spec_hull(i1, i2) == Ok::<Interval<T>, ErrorModel>(h),
        i1.spec_admits(v) || i2.spec_admits(v),
    ensures
        h.spec_admits(v),
{
    T::lemma_cmp_flip(&i1.lower, &i2.lower);
    T::lemma_cmp_flip(&i2.lower, &i1.lower);
    T::lemma_cmp_flip(&i1.upper, &i2.upper);
    T::lemma_cmp_flip(&i2.upper, &i1.upper);
    T::lemma_cmp_flip(&v, &i1.lower);
    T::lemma_cmp_flip(&i1.lower, &v);
    T::lemma_cmp_flip(&v, &i2.lower);
    T::lemma_cmp_flip(&i2.lower, &v);
    T::lemma_cmp_flip(&v, &i1.upper);
    T::lemma_cmp_flip(&i1.upper, &v);
    T::lemma_cmp_flip(&v, &i2.upper);
    T::lemma_cmp_flip(&i2.upper, &v);
    T::lemma_cmp_transitive(&i1.lower, &i2.lower, &v);
    T::lemma_cmp_transitive(&i2.lower, &i1.lower, &v);
    T::lemma_cmp_transitive(&v, &i1.upper, &i2.upper);
    T::lemma_cmp_transitive(&v, &i2.upper, &i1.upper);
}

/// Hull containment at the polifunction level: a value admitted by either
/// branch's interval is admitted by the hull's interval.
pub proof fn lemma_hull_value_containment<P1, P2>(
    hp: &HullPolifunction<P1, P2>,
    input: &<P1::Domain as Domain>::Element,
    h: Interval<<P1::Codomain as Codomain>::Element>,
    v: <P1::Codomain as Codomain>::Element,
) where
    P1: IntervalValuedPolifunction,
    P2: IntervalValuedPolifunction<Domain = P1::Domain, Codomain = P1::Codomain>,
    <P1::Codomain as Codomain>::Element: OrdElement,

    requires
        hp.spec_value_interval(input) == Ok::<
            Interval<<P1::Codomain as Codomain>::Element>,
            ErrorModel,
        >(h),
        (hp.p1.spec_value_interval(input) matches Ok(i1) && i1.spec_admits(v)) || (
        hp.p2.spec_value_interval(input) matches Ok(i2) && i2.spec_admits(v)),
    ensures
        h.spec_admits(v),
{
    match (hp.p1.spec_value_interval(input), hp.p2.spec_value_interval(input)) {
        (Ok(i1), Ok(i2)) => {
            lemma_hull_admits(i1, i2, h, v);
        },
        _ => {
        },
    }
}

/// When the two operands tie at the lower bound, the hull keeps that bound
/// and it is inclusive as soon as either side's bound was: inclusivity is
/// never lost on a tie. Symmetrically for the upper bound.
pub proof fn lemma_hull_tie_inclusivity<T: OrdElement>(i1: Interval<T>, i2: Interval<T>)
    requires
        spec_hull(i1, i2) is Ok,
    ensures
        i1.lower.cmp_spec(&i2.lower) == Some(Ordering::Equal) ==> {
            let h = spec_hull(i1, i2)->Ok_0;
            h.lower == i1.lower && h.lower_inclusive == (i1.lower_inclusive || i2.lower_inclusive)
        },
        i1.upper.cmp_spec(&i2.upper) == Some(Ordering::Equal) ==> {
            let h = spec_hull(i1, i2)->Ok_0;
            h.upper == i1.upper && h.upper_inclusive == (i1.upper_inclusive || i2.upper_inclusive)
        },
{
}

} // verus!
