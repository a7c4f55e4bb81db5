//! Operations on polifunctions: lifting ordinary functions, constants,
//! inversion (a deliberate stub), arithmetic sum, composition, and the
//! conversion of a set-valued polifunction to an interval-valued one.

use vstd::prelude::*;

verus! {

use crate::element::{Element, EqElement, AddElement, TotalOrdElement, IntoElement, least_of,
    greatest_of};
use crate::value_set::ValueSet;
use crate::polifunction::{PolifunctionBase, PolifunctionValue, PolifunctionError, ErrorModel,
    ValueModel, Domain, Codomain, Interval, PointMapping, domain_guarded, set_outcome_to_value,
    interval_outcome_to_value};
use crate::set_valued::SetValuedPolifunction;
use crate::interval_valued::IntervalValuedPolifunction;

/// A single-valued outcome, packaged as an output value.
pub open spec fn point_outcome_to_value<T>(m: Result<T, ErrorModel>) -> Result<
    ValueModel<T>,
    ErrorModel,
> {
    match m {
        Ok(v) => Ok(ValueModel::Single(v)),
        Err(e) => Err(e),
    }
}

/// A single-valued outcome, packaged as a one-element set.
pub open spec fn point_outcome_to_singleton<T>(m: Result<T, ErrorModel>) -> Result<
    Set<T>,
    ErrorModel,
> {
    match m {
        Ok(v) => Ok(Set::empty().insert(v)),
        Err(e) => Err(e),
    }
}

/// The extrema of a set-valued outcome, as an interval inclusive on both
/// ends; an empty set has no extrema and yields a computation error.
pub open spec fn set_outcome_to_interval<T: TotalOrdElement>(m: Result<Set<T>, ErrorModel>) -> Result<
    Interval<T>,
    ErrorModel,
> {
    match m {
        Ok(s) => if s.len() == 0 {
            Err(ErrorModel::ComputationError)
        } else {
            Ok(
                Interval {
                    lower: least_of(s),
                    upper: greatest_of(s),
                    lower_inclusive: true,
                    upper_inclusive: true,
                },
            )
        },
        Err(e) => Err(e),
    }
}

/// Lift a standard function to a polifunction: it returns a single value for
/// every in-domain input.
pub struct LiftedPolifunction<F, D, C> {
    /// The original function
    pub function: F,
    /// Domain of the function
    pub domain: D,
    /// Codomain of the function
    pub codomain: C,
}

impl<F, D, C> LiftedPolifunction<F, D, C> {
    /// Create a new lifted polifunction from a standard function.
    pub fn new(function: F, domain: D, codomain: C) -> (r: Self)
        ensures
            r == (LiftedPolifunction { function, domain, codomain }),
    {
        LiftedPolifunction { function, domain, codomain }
    }
}

impl<F, D, C> PolifunctionBase for LiftedPolifunction<F, D, C> where
    F: PointMapping<D::Element, C::Element>,
    D: Domain,
    C: Codomain,
 {
    type Domain = D;

    type Codomain = C;

    open spec fn spec_in_domain(&self, input: &D::Element) -> bool {
        self.domain.spec_contains(input)
    }

    open spec fn spec_evaluate(&self, input: &D::Element) -> Result<
        ValueModel<C::Element>,
        ErrorModel,
    > {
        point_outcome_to_value(
            domain_guarded(self.domain.spec_contains(input), self.function.spec_map(input)),
        )
    }

    fn evaluate(&self, input: &D::Element) -> (r: Result<
        PolifunctionValue<C::Element>,
        PolifunctionError,
    >) {
        if !self.in_domain(input) {
            return Err(PolifunctionError::DomainError);
        }
        match self.function.map_at(input) {
            Ok(value) => Ok(PolifunctionValue::Single(value)),
            Err(e) => Err(e),
        }
    }

    fn in_domain(&self, input: &D::Element) -> (r: bool) {
        self.domain.contains(input)
    }
}

/// A lifted polifunction checks the domain before invoking its function: an
/// input outside the domain always yields the domain error.
pub proof fn lemma_lifted_checks_domain<F, D, C>(
    p: &LiftedPolifunction<F, D, C>,
    input: &D::Element,
) where F: PointMapping<D::Element, C::Element>, D: Domain, C: Codomain
    ensures
        !p.spec_in_domain(input) ==> p.spec_evaluate(input) == Err::<
            ValueModel<C::Element>,
            ErrorModel,
        >(ErrorModel::DomainError),
{
}

/// The mapping rule behind `constant`: it ignores its input and returns the
/// stored value.
pub struct ConstantMapping<T> {
    pub value: T,
}

impl<E, T: Element> PointMapping<E, T> for ConstantMapping<T> {
    open spec fn spec_map(&self, input: &E) -> Result<T, ErrorModel> {
        Ok(self.value)
    }

    fn map_at(&self, input: &E) -> (r: Result<T, PolifunctionError>) {
        Ok(self.value.dup())
    }
}

/// Create a constant polifunction that returns the same value for every
/// in-domain input.
pub fn constant<D, C>(value: C::Element, domain: D, codomain: C) -> (r: LiftedPolifunction<
    ConstantMapping<C::Element>,
    D,
    C,
>) where D: Domain, C: Codomain, C::Element: Element
    ensures
        r == (LiftedPolifunction { function: ConstantMapping { value }, domain, codomain }),
{
    LiftedPolifunction::new(ConstantMapping { value }, domain, codomain)
}

/// Invert a polifunction: domain and codomain are swapped. A deliberate,
/// non-functional placeholder — true inversion is not derivable from a
/// forward evaluator alone, so evaluation always reports an unimplemented
/// operation and no input counts as in-domain.
pub struct InvertedPolifunction<P> {
    /// The original polifunction
    pub original: P,
}

impl<P> InvertedPolifunction<P> {
    /// Create a new inverted polifunction.
    pub fn new(original: P) -> (r: Self)
        ensures
            r == (InvertedPolifunction { original }),
    {
        InvertedPolifunction { original }
    }
}

impl<P> PolifunctionBase for InvertedPolifunction<P> where
    P: PolifunctionBase,
    P::Codomain: Domain,
    P::Domain: Codomain,
 {
    // For an inverted function, the domain and codomain are swapped.
    type Domain = P::Codomain;

    type Codomain = P::Domain;

    open spec fn spec_in_domain(&self, input: &<P::Codomain as Domain>::Element) -> bool {
        false
    }

    open spec fn spec_evaluate(&self, input: &<P::Codomain as Domain>::Element) -> Result<
        ValueModel<<P::Domain as Codomain>::Element>,
        ErrorModel,
    > {
        Err(ErrorModel::Other("Not implemented yet"@))
    }

    fn evaluate(&self, input: &<P::Codomain as Domain>::Element) -> (r: Result<
        PolifunctionValue<<P::Domain as Codomain>::Element>,
        PolifunctionError,
    >) {
        Err(PolifunctionError::Other(String::from_str("Not implemented yet")))
    }

    fn in_domain(&self, input: &<P::Codomain as Domain>::Element) -> (r: bool) {
        false
    }
}

/// Inversion always fails: no input is in the domain, and evaluation always
/// reports the unimplemented operation, whatever the underlying polifunction.
pub proof fn lemma_invert_always_fails<P>(
    ip: &InvertedPolifunction<P>,
    input: &<P::Codomain as Domain>::Element,
) where P: PolifunctionBase, P::Codomain: Domain, P::Domain: Codomain
    ensures
        !ip.spec_in_domain(input),
        ip.spec_evaluate(input) == Err::<ValueModel<<P::Domain as Codomain>::Element>, ErrorModel>(
            ErrorModel::Other("Not implemented yet"@),
        ),
{
}

/// Sum of two polifunctions with compatible domains and codomains. Defined
/// only where both operands are: the domain is the intersection.
pub struct SumPolifunction<P1, P2> {
    pub p1: P1,
    pub p2: P2,
}

impl<P1, P2> SumPolifunction<P1, P2> {
    /// Create a new sum of two polifunctions.
    pub fn new(p1: P1, p2: P2) -> (r: Self)
        ensures
            r == (SumPolifunction { p1, p2 }),
    {
        SumPolifunction { p1, p2 }
    }
}

impl<P1, P2> PolifunctionBase for SumPolifunction<P1, P2> where
    P1: PolifunctionBase,
    P2: PolifunctionBase<Domain = P1::Domain, Codomain = P1::Codomain>,
    <P1::Codomain as Codomain>::Element: AddElement,
 {
    type Domain = P1::Domain;

    type Codomain = P1::Codomain;

    open spec fn spec_in_domain(&self, input: &<P1::Domain as Domain>::Element) -> bool {
        self.p1.spec_in_domain(input) && self.p2.spec_in_domain(input)
    }

    open spec fn spec_evaluate(&self, input: &<P1::Domain as Domain>::Element) -> Result<
        ValueModel<<P1::Codomain as Codomain>::Element>,
        ErrorModel,
    > {
        if !(self.p1.spec_in_domain(input) && self.p2.spec_in_domain(input)) {
            Err(ErrorModel::DomainError)
        } else {
            match self.p1.spec_evaluate(input) {
                Err(e1) => Err(e1),
                Ok(m1) => match self.p2.spec_evaluate(input) {
                    Err(e2) => Err(e2),
                    Ok(m2) => match (m1, m2) {
                        (ValueModel::Single(v1), ValueModel::Single(v2)) => Ok(
                            ValueModel::Single(v1.add_spec(&v2)),
                        ),
                        // only single + single is supported in this algebra
                        _ => Err(ErrorModel::Other("Complex operation not yet implemented"@)),
                    },
                },
            }
        }
    }

    fn evaluate(&self, input: &<P1::Domain as Domain>::Element) -> (r: Result<
        PolifunctionValue<<P1::Codomain as Codomain>::Element>,
        PolifunctionError,
    >) {
        if !self.in_domain(input) {
            return Err(PolifunctionError::DomainError);
        }
        let result1 = match self.p1.evaluate(input) {
            Ok(v) => v,
            Err(e) => {
                return Err(e);
            },
        };
        let result2 = match self.p2.evaluate(input) {
            Ok(v) => v,
            Err(e) => {
                return Err(e);
            },
        };
        match (result1, result2) {
            (PolifunctionValue::Single(v1), PolifunctionValue::Single(v2)) => Ok(
                PolifunctionValue::Single(v1.add_elem(&v2)),
            ),
            _ => Err(
                PolifunctionError::Other(String::from_str("Complex operation not yet implemented")),
            ),
        }
    }

    fn in_domain(&self, input: &<P1::Domain as Domain>::Element) -> (r: bool) {
        self.p1.in_domain(input) && self.p2.in_domain(input)
    }
}

/// The sum's domain is the intersection of the constituent domains: the
/// input must belong to both.
pub proof fn lemma_sum_domain_narrowing<P1, P2>(
    s: &SumPolifunction<P1, P2>,
    x: &<P1::Domain as Domain>::Element,
) where
    P1: PolifunctionBase,
    P2: PolifunctionBase<Domain = P1::Domain, Codomain = P1::Codomain>,
    <P1::Codomain as Codomain>::Element: AddElement,

    ensures
        s.spec_in_domain(x) == (s.p1.spec_in_domain(x) && s.p2.spec_in_domain(x)),
{
}

/// A sum checks the domain before evaluating either operand.
pub proof fn lemma_sum_checks_domain<P1, P2>(
    s: &SumPolifunction<P1, P2>,
    x: &<P1::Domain as Domain>::Element,
) where
    P1: PolifunctionBase,
    P2: PolifunctionBase<Domain = P1::Domain, Codomain = P1::Codomain>,
    <P1::Codomain as Codomain>::Element: AddElement,

    ensures
        !s.spec_in_domain(x) ==> s.spec_evaluate(x) == Err::<
            ValueModel<<P1::Codomain as Codomain>::Element>,
            ErrorModel,
        >(ErrorModel::DomainError),
{
}

/// Composition of two polifunctions: the inner one runs first and its single
/// value, converted, feeds the outer one. Only a single-valued intermediate
/// result is supported.
pub struct ComposedChain<P1, P2> {
    pub p1: P1,
    pub p2: P2,
}

impl<P1, P2> PolifunctionBase for ComposedChain<P1, P2> where
    P1: PolifunctionBase,
    P2: PolifunctionBase,
    <P2::Codomain as Codomain>::Element: IntoElement<<P1::Domain as Domain>::Element>,
 {
    type Domain = P2::Domain;

    type Codomain = P1::Codomain;

    open spec fn spec_in_domain(&self, input: &<P2::Domain as Domain>::Element) -> bool {
        self.p2.spec_in_domain(input)
    }

    open spec fn spec_evaluate(&self, input: &<P2::Domain as Domain>::Element) -> Result<
        ValueModel<<P1::Codomain as Codomain>::Element>,
        ErrorModel,
    > {
        if !self.p2.spec_in_domain(input) {
            Err(ErrorModel::DomainError)
        } else {
            match self.p2.spec_evaluate(input) {
                Err(e) => Err(e),
                Ok(ValueModel::Single(v)) => self.p1.spec_evaluate(&v.into_spec()),
                // only a single intermediate value can feed the outer function
                Ok(_) => Err(ErrorModel::Other("Complex composition not yet implemented"@)),
            }
        }
    }

    fn evaluate(&self, input: &<P2::Domain as Domain>::Element) -> (r: Result<
        PolifunctionValue<<P1::Codomain as Codomain>::Element>,
        PolifunctionError,
    >) {
        if !self.in_domain(input) {
            return Err(PolifunctionError::DomainError);
        }
        let intermediate_result = match self.p2.evaluate(input) {
            Ok(v) => v,
            Err(e) => {
                return Err(e);
            },
        };
        match intermediate_result {
            PolifunctionValue::Single(v) => {
                let p1_input = v.into_element();
                self.p1.evaluate(&p1_input)
            },
            _ => Err(
                PolifunctionError::Other(
                    String::from_str("Complex composition not yet implemented"),
                ),
            ),
        }
    }

    fn in_domain(&self, input: &<P2::Domain as Domain>::Element) -> (r: bool) {
        self.p2.in_domain(input)
    }
}

/// Compose two polifunctions: `p1` after `p2`.
pub fn compose<P1, P2>(p1: P1, p2: P2) -> (r: ComposedChain<P1, P2>)
    ensures
        r == (ComposedChain { p1, p2 }),
{
    ComposedChain { p1, p2 }
}

/// A composition whose inner polifunction produces a set — or any other
/// non-single shape — reports the unsupported operation, never a value.
pub proof fn lemma_compose_shape_restriction<P1, P2>(
    c: &ComposedChain<P1, P2>,
    input: &<P2::Domain as Domain>::Element,
    s: Set<<P2::Codomain as Codomain>::Element>,
) where
    P1: PolifunctionBase,
    P2: PolifunctionBase,
    <P2::Codomain as Codomain>::Element: IntoElement<<P1::Domain as Domain>::Element>,

    requires
        c.spec_in_domain(input),
        c.p2.spec_evaluate(input) == Ok::<
            ValueModel<<P2::Codomain as Codomain>::Element>,
            ErrorModel,
        >(ValueModel::ValueSet(s)),
    ensures
        c.spec_evaluate(input) == Err::<ValueModel<<P1::Codomain as Codomain>::Element>, ErrorModel>(
            ErrorModel::Other("Complex composition not yet implemented"@),
        ),
{
}

/// A composition checks its (inner) domain before evaluating.
pub proof fn lemma_compose_checks_domain<P1, P2>(
    c: &ComposedChain<P1, P2>,
    input: &<P2::Domain as Domain>::Element,
) where
    P1: PolifunctionBase,
    P2: PolifunctionBase,
    <P2::Codomain as Codomain>::Element: IntoElement<<P1::Domain as Domain>::Element>,

    ensures
        !c.spec_in_domain(input) ==> c.spec_evaluate(input) == Err::<
            ValueModel<<P1::Codomain as Codomain>::Element>,
            ErrorModel,
        >(ErrorModel::DomainError),
{
}

/// Conversion of a set-valued polifunction into an interval-valued one: the
/// interval runs from the least to the greatest member of the value set,
/// inclusive on both ends.
pub struct SetToIntervalPolifunction<P> {
    pub original: P,
}

impl<P> PolifunctionBase for SetToIntervalPolifunction<P> where
    P: SetValuedPolifunction,
    <P::Codomain as Codomain>::Element: TotalOrdElement,
 {
    type Domain = P::Domain;

    type Codomain = P::Codomain;

    open spec fn spec_in_domain(&self, input: &<P::Domain as Domain>::Element) -> bool {
        self.original.spec_in_domain(input)
    }

    open spec fn spec_evaluate(&self, input: &<P::Domain as Domain>::Element) -> Result<
        ValueModel<<P::Codomain as Codomain>::Element>,
        ErrorModel,
    > {
        interval_outcome_to_value(set_outcome_to_interval(self.original.spec_value_set(input)))
    }

    fn evaluate(&self, input: &<P::Domain as Domain>::Element) -> (r: Result<
        PolifunctionValue<<P::Codomain as Codomain>::Element>,
        PolifunctionError,
    >) {
        match self.value_interval(input) {
            Ok(interval) => Ok(PolifunctionValue::Interval(interval)),
            Err(e) => Err(e),
        }
    }

    fn in_domain(&self, input: &<P::Domain as Domain>::Element) -> (r: bool) {
        self.original.in_domain(input)
    }
}

impl<P> IntervalValuedPolifunction for SetToIntervalPolifunction<P> where
    P: SetValuedPolifunction,
    <P::Codomain as Codomain>::Element: TotalOrdElement,
 {
    open spec fn spec_value_interval(&self, input: &<P::Domain as Domain>::Element) -> Result<
        Interval<<P::Codomain as Codomain>::Element>,
        ErrorModel,
    > {
        set_outcome_to_interval(self.original.spec_value_set(input))
    }

    fn value_interval(&self, input: &<P::Domain as Domain>::Element) -> (r: Result<
        Interval<<P::Codomain as Codomain>::Element>,
        PolifunctionError,
    >) {
        let set = match self.original.value_set(input) {
            Ok(s) => s,
            Err(e) => {
                return Err(e);
            },
        };
        match set.extrema() {
            None => Err(PolifunctionError::ComputationError),
            Some((lo, hi)) => Ok(
                Interval { lower: lo, upper: hi, lower_inclusive: true, upper_inclusive: true },
            ),
        }
    }

    fn contains_value(
        &self,
        input: &<P::Domain as Domain>::Element,
        value: &<P::Codomain as Codomain>::Element,
    ) -> (r: Result<bool, PolifunctionError>) {
        match self.value_interval(input) {
            Ok(interval) => Ok(interval.admits(value)),
            Err(e) => Err(e),
        }
    }

    fn interval_width(&self, input: &<P::Domain as Domain>::Element) -> (r: Result<
        <P::Codomain as Codomain>::Element,
        PolifunctionError,
    >) where <P::Codomain as Codomain>::Element: crate::element::SubElement {
        match self.value_interval(input) {
            Ok(interval) => Ok(interval.width()),
            Err(e) => Err(e),
        }
    }

    proof fn value_interval_checks_domain(&self, input: &<P::Domain as Domain>::Element) {
        self.original.value_set_checks_domain(input);
    }

    proof fn evaluate_checks_domain(&self, input: &<P::Domain as Domain>::Element) {
        self.original.value_set_checks_domain(input);
    }
}

/// Convert a set-valued polifunction to an interval-valued one by taking the
/// extrema of its value sets.
pub fn to_interval<P>(p: P) -> (r: SetToIntervalPolifunction<P>)
    ensures
        r == (SetToIntervalPolifunction { original: p }),
{
    SetToIntervalPolifunction { original: p }
}

/// A standard function lifted into a set-valued polifunction: each in-domain
/// input yields the one-element set of the function's value.
pub struct LiftedSetValuedPolifunction<F, D, C> {
    pub function: F,
    pub domain: D,
    pub codomain: C,
}

impl<F, D, C> PolifunctionBase for LiftedSetValuedPolifunction<F, D, C> where
    F: PointMapping<D::Element, C::Element>,
    D: Domain,
    C: Codomain,
    C::Element: EqElement,
 {
    type Domain = D;

    type Codomain = C;

    open spec fn spec_in_domain(&self, input: &D::Element) -> bool {
        self.domain.spec_contains(input)
    }

    open spec fn spec_evaluate(&self, input: &D::Element) -> Result<
        ValueModel<C::Element>,
        ErrorModel,
    > {
        set_outcome_to_value(
            point_outcome_to_singleton(
                domain_guarded(self.domain.spec_contains(input), self.function.spec_map(input)),
            ),
        )
    }

    fn evaluate(&self, input: &D::Element) -> (r: Result<
        PolifunctionValue<C::Element>,
        PolifunctionError,
    >) {
        if !self.in_domain(input) {
            return Err(PolifunctionError::DomainError);
        }
        match self.function.map_at(input) {
            Ok(value) => Ok(PolifunctionValue::ValueSet(ValueSet::singleton(value))),
            Err(e) => Err(e),
        }
    }

    fn in_domain(&self, input: &D::Element) -> (r: bool) {
        self.domain.contains(input)
    }
}

impl<F, D, C> SetValuedPolifunction for LiftedSetValuedPolifunction<F, D, C> where
    F: PointMapping<D::Element, C::Element>,
    D: Domain,
    C: Codomain,
    C::Element: EqElement,
 {
    open spec fn spec_value_set(&self, input: &D::Element) -> Result<Set<C::Element>, ErrorModel> {
        point_outcome_to_singleton(
            domain_guarded(self.domain.spec_contains(input), self.function.spec_map(input)),
        )
    }

    open spec fn spec_contains_value(&self, input: &D::Element, value: &C::Element) -> Result<
        bool,
        ErrorModel,
    > {
        match domain_guarded(self.domain.spec_contains(input), self.function.spec_map(input)) {
            Ok(res) => Ok(res == *value),
            Err(e) => Err(e),
        }
    }

    open spec fn spec_cardinality(&self, input: &D::Element) -> Result<usize, ErrorModel> {
        if !self.domain.spec_contains(input) {
            Err(ErrorModel::DomainError)
        } else {
            // a lifted ordinary function is single-valued by construction
            Ok(1usize)
        }
    }

    fn value_set(&self, input: &D::Element) -> (r: Result<
        ValueSet<C::Element>,
        PolifunctionError,
    >) {
        if !self.in_domain(input) {
            return Err(PolifunctionError::DomainError);
        }
        match self.function.map_at(input) {
            Ok(value) => Ok(ValueSet::singleton(value)),
            Err(e) => Err(e),
        }
    }

    fn contains_value(&self, input: &D::Element, value: &C::Element) -> (r: Result<
        bool,
        PolifunctionError,
    >) {
        if !self.in_domain(input) {
            return Err(PolifunctionError::DomainError);
        }
        match self.function.map_at(input) {
            Ok(res) => Ok(res.eq_elem(value)),
            Err(e) => Err(e),
        }
    }

    fn cardinality(&self, input: &D::Element) -> (r: Result<usize, PolifunctionError>) {
        if !self.in_domain(input) {
            return Err(PolifunctionError::DomainError);
        }
        Ok(1)
    }

    proof fn value_set_checks_domain(&self, input: &D::Element) {
    }

    proof fn evaluate_checks_domain(&self, input: &D::Element) {
    }
}

/// Convert a standard function to a set-valued polifunction.
pub fn lift_to_set<F, D, C>(f: F, domain: D, codomain: C) -> (r: LiftedSetValuedPolifunction<
    F,
    D,
    C,
>)
    ensures
        r == (LiftedSetValuedPolifunction { function: f, domain, codomain }),
{
    LiftedSetValuedPolifunction { function: f, domain, codomain }
}

} // verus!
