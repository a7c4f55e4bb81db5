//! Core traits and types of the polifunction algebra: the error taxonomy, the
//! tagged output-value model, the domain/codomain abstraction, and the base
//! capability that every polifunction satisfies.
//!
//! Every executable notion has a mathematical model: `PolifunctionError` is
//! viewed as an `ErrorModel`, `PolifunctionValue` as a `ValueModel`, and each
//! polifunction describes itself through the spec functions `spec_in_domain`
//! and `spec_evaluate`.

use vstd::prelude::*;

verus! {

use core::marker::PhantomData;
use crate::element::{Element, OrdElement, SubElement, IntoElement};
use crate::value_set::ValueSet;
use core::cmp::Ordering;

/// Error type for polifunction operations.
pub enum PolifunctionError {
    /// Input is outside the function's domain
    DomainError,
    /// Error during computation or evaluation
    ComputationError,
    /// Failed to converge to a result
    ConvergenceError,
    /// Invalid operation for this polifunction type
    InvalidOperation,
    /// Other errors with description
    Other(String),
}

/// Mathematical model of an error: the same taxonomy, with the description of
/// `Other` as a sequence of characters.
pub enum ErrorModel {
    DomainError,
    ComputationError,
    ConvergenceError,
    InvalidOperation,
    Other(Seq<char>),
}

impl View for PolifunctionError {
    type V = ErrorModel;

    open spec fn view(&self) -> ErrorModel {
        match *self {
            PolifunctionError::DomainError => ErrorModel::DomainError,
            PolifunctionError::ComputationError => ErrorModel::ComputationError,
            PolifunctionError::ConvergenceError => ErrorModel::ConvergenceError,
            PolifunctionError::InvalidOperation => ErrorModel::InvalidOperation,
            PolifunctionError::Other(m) => ErrorModel::Other(m@),
        }
    }
}

impl PolifunctionError {
    /// Duplicate the error, preserving its model.
    pub fn dup(&self) -> (r: Self)
        ensures
            r@ == self@,
    {
        match self {
            PolifunctionError::DomainError => PolifunctionError::DomainError,
            PolifunctionError::ComputationError => PolifunctionError::ComputationError,
            PolifunctionError::ConvergenceError => PolifunctionError::ConvergenceError,
            PolifunctionError::InvalidOperation => PolifunctionError::InvalidOperation,
            PolifunctionError::Other(m) => PolifunctionError::Other(clone_string(m)),
        }
    }

    /// A human-readable description of the error.
    pub fn message(&self) -> (r: String)
        ensures
            r@ == self@.spec_message(),
    {
        match self {
            PolifunctionError::DomainError => String::from_str(
                "Input is outside the function's domain",
            ),
            PolifunctionError::ComputationError => String::from_str("Error during computation"),
            PolifunctionError::ConvergenceError => String::from_str(
                "Failed to converge to a result",
            ),
            PolifunctionError::InvalidOperation => String::from_str(
                "Invalid operation for this polifunction type",
            ),
            PolifunctionError::Other(m) => clone_string(m),
        }
    }
}

impl ErrorModel {
    /// The description that `PolifunctionError::message` returns.
    pub open spec fn spec_message(self) -> Seq<char> {
        match self {
            ErrorModel::DomainError => "Input is outside the function's domain"@,
            ErrorModel::ComputationError => "Error during computation"@,
            ErrorModel::ConvergenceError => "Failed to converge to a result"@,
            ErrorModel::InvalidOperation => "Invalid operation for this polifunction type"@,
            ErrorModel::Other(m) => m,
        }
    }
}

fn clone_string(s: &String) -> (r: String)
    ensures
        r@ == s@,
{
    String::from_str(s.as_str())
}

/// Continuous interval between two bounds, each independently inclusive or
/// exclusive. Callers constructing an interval are responsible for keeping
/// `lower` at or below `upper`; the algebra does not validate this.
pub struct Interval<T> {
    pub lower: T,
    pub upper: T,
    pub lower_inclusive: bool,
    pub upper_inclusive: bool,
}

impl<T: Element> Interval<T> {
    /// Duplicate the interval, bound by bound.
    pub fn dup(&self) -> (r: Self)
        ensures
            r == *self,
    {
        Interval {
            lower: self.lower.dup(),
            upper: self.upper.dup(),
            lower_inclusive: self.lower_inclusive,
            upper_inclusive: self.upper_inclusive,
        }
    }
}

impl<T: OrdElement> Interval<T> {
    /// `v` lies in the interval: above the lower bound (or equal to it when
    /// the bound is inclusive) and below the upper bound likewise. A value
    /// incomparable with a bound never satisfies that bound.
    pub open spec fn spec_admits(self, v: T) -> bool {
        let lower_ok = (self.lower_inclusive && v.cmp_spec(&self.lower) == Some(Ordering::Equal))
            || v.cmp_spec(&self.lower) == Some(Ordering::Greater);
        let upper_ok = (self.upper_inclusive && v.cmp_spec(&self.upper) == Some(Ordering::Equal))
            || v.cmp_spec(&self.upper) == Some(Ordering::Less);
        lower_ok && upper_ok
    }

    /// Decide whether `value` lies in the interval.
    pub fn admits(&self, value: &T) -> (r: bool)
        ensures
            r == self.spec_admits(*value),
    {
        let lower_check = match (self.lower_inclusive, value.cmp_elem(&self.lower)) {
            (true, Some(Ordering::Equal)) => true,
            (_, Some(Ordering::Greater)) => true,
            _ => false,
        };
        let upper_check = match (self.upper_inclusive, value.cmp_elem(&self.upper)) {
            (true, Some(Ordering::Equal)) => true,
            (_, Some(Ordering::Less)) => true,
            _ => false,
        };
        lower_check && upper_check
    }
}

impl<T: SubElement> Interval<T> {
    /// The width `upper - lower`. Never clamped: a malformed interval whose
    /// upper bound lies below its lower bound yields a negative width.
    pub fn width(&self) -> (r: T)
        ensures
            r == self.upper.sub_spec(&self.lower),
    {
        self.upper.sub_elem(&self.lower)
    }
}

/// Probability distribution over possible values. Reserved: carries no
/// operable data in this algebra, and every combinator that meets it reports
/// an unsupported operation.
pub struct ProbabilityDistribution<T> {
    marker: PhantomData<T>,
}

impl<T> ProbabilityDistribution<T> {
    pub fn new() -> Self {
        ProbabilityDistribution { marker: PhantomData }
    }
}

/// Fuzzy set with membership degrees. Reserved, like `ProbabilityDistribution`.
pub struct FuzzySet<T> {
    marker: PhantomData<T>,
}

impl<T> FuzzySet<T> {
    pub fn new() -> Self {
        FuzzySet { marker: PhantomData }
    }
}

/// Represents possible output values of a polifunction.
pub enum PolifunctionValue<T> {
    /// A single value
    Single(T),
    /// A set of discrete values
    ValueSet(ValueSet<T>),
    /// A continuous interval
    Interval(Interval<T>),
    /// A probability distribution over possible values
    Distribution(ProbabilityDistribution<T>),
    /// A fuzzy set with membership degrees
    FuzzySet(FuzzySet<T>),
}

/// Mathematical model of an output value: sets of values become mathematical
/// sets, and the reserved representations carry nothing.
#[verifier::reject_recursive_types(T)]
pub enum ValueModel<T> {
    Single(T),
    ValueSet(Set<T>),
    Interval(Interval<T>),
    Distribution,
    FuzzySet,
}

impl<T> View for PolifunctionValue<T> {
    type V = ValueModel<T>;

    open spec fn view(&self) -> ValueModel<T> {
        match *self {
            PolifunctionValue::Single(v) => ValueModel::Single(v),
            PolifunctionValue::ValueSet(s) => ValueModel::ValueSet(s@),
            PolifunctionValue::Interval(i) => ValueModel::Interval(i),
            PolifunctionValue::Distribution(_) => ValueModel::Distribution,
            PolifunctionValue::FuzzySet(_) => ValueModel::FuzzySet,
        }
    }
}

/// The outcome `r` of an evaluation realises the model outcome `m`.
pub open spec fn evaluate_models<T>(
    r: Result<PolifunctionValue<T>, PolifunctionError>,
    m: Result<ValueModel<T>, ErrorModel>,
) -> bool {
    match r {
        Ok(v) => m == Ok::<ValueModel<T>, ErrorModel>(v@),
        Err(e) => m == Err::<ValueModel<T>, ErrorModel>(e@),
    }
}

/// The outcome `r`, whose success value is used as-is, realises `m`.
pub open spec fn plain_result_models<A>(
    r: Result<A, PolifunctionError>,
    m: Result<A, ErrorModel>,
) -> bool {
    match r {
        Ok(a) => m == Ok::<A, ErrorModel>(a),
        Err(e) => m == Err::<A, ErrorModel>(e@),
    }
}

/// The outcome `r` of a set-valued operation realises `m`.
pub open spec fn value_set_models<T>(
    r: Result<ValueSet<T>, PolifunctionError>,
    m: Result<Set<T>, ErrorModel>,
) -> bool {
    match r {
        Ok(s) => m == Ok::<Set<T>, ErrorModel>(s@),
        Err(e) => m == Err::<Set<T>, ErrorModel>(e@),
    }
}

/// The model outcome `m`, gated by the domain check: out-of-domain inputs
/// yield the domain error before any computation.
pub open spec fn domain_guarded<A>(in_dom: bool, m: Result<A, ErrorModel>) -> Result<
    A,
    ErrorModel,
> {
    if in_dom {
        m
    } else {
        Err(ErrorModel::DomainError)
    }
}

/// A set-valued outcome, packaged as an output value.
pub open spec fn set_outcome_to_value<T>(m: Result<Set<T>, ErrorModel>) -> Result<
    ValueModel<T>,
    ErrorModel,
> {
    match m {
        Ok(s) => Ok(ValueModel::ValueSet(s)),
        Err(e) => Err(e),
    }
}

/// An interval-valued outcome, packaged as an output value.
pub open spec fn interval_outcome_to_value<T>(m: Result<Interval<T>, ErrorModel>) -> Result<
    ValueModel<T>,
    ErrorModel,
> {
    match m {
        Ok(i) => Ok(ValueModel::Interval(i)),
        Err(e) => Err(e),
    }
}

/// The cardinality of a set-valued outcome.
pub open spec fn set_outcome_cardinality<T>(m: Result<Set<T>, ErrorModel>) -> Result<
    usize,
    ErrorModel,
> {
    match m {
        Ok(s) => Ok(s.len() as usize),
        Err(e) => Err(e),
    }
}

/// Membership of `v` in a set-valued outcome.
pub open spec fn set_outcome_contains<T>(m: Result<Set<T>, ErrorModel>, v: T) -> Result<
    bool,
    ErrorModel,
> {
    match m {
        Ok(s) => Ok(s.contains(v)),
        Err(e) => Err(e),
    }
}

/// Trait for mathematical domains. Membership testing is a pure predicate:
/// the executable test decides the spec-level membership.
pub trait Domain {
    /// Type of elements in this domain
    type Element;

    /// Whether `element` belongs to this domain.
    spec fn spec_contains(&self, element: &Self::Element) -> bool;

    /// Check if an element belongs to this domain.
    fn contains(&self, element: &Self::Element) -> (r: bool)
        ensures
            r == self.spec_contains(element),
    ;
}

/// Trait for mathematical codomains (ranges).
pub trait Codomain {
    /// Type of elements in this codomain
    type Element;

    /// Whether `element` belongs to this codomain.
    spec fn spec_contains(&self, element: &Self::Element) -> bool;

    /// Check if an element belongs to this codomain.
    fn contains(&self, element: &Self::Element) -> (r: bool)
        ensures
            r == self.spec_contains(element),
    ;
}

/// Base trait for all polifunctions: evaluate at a point, and test domain
/// membership. Each implementation fixes its own model through
/// `spec_in_domain` and `spec_evaluate`, and the executable methods are bound
/// to that model exactly.
pub trait PolifunctionBase {
    /// Type representing the domain of this polifunction
    type Domain: Domain;

    /// Type representing the codomain of this polifunction
    type Codomain: Codomain;

    /// The domain-membership predicate of this polifunction.
    spec fn spec_in_domain(&self, input: &<Self::Domain as Domain>::Element) -> bool;

    /// The outcome of evaluation, as a function of the input alone.
    spec fn spec_evaluate(&self, input: &<Self::Domain as Domain>::Element) -> Result<
        ValueModel<<Self::Codomain as Codomain>::Element>,
        ErrorModel,
    >;

    /// Evaluate the polifunction at the given input.
    ///
    /// Returns a `PolifunctionValue` representing the possible outputs, or an
    /// error if evaluation is not possible.
    fn evaluate(&self, input: &<Self::Domain as Domain>::Element) -> (r: Result<
        PolifunctionValue<<Self::Codomain as Codomain>::Element>,
        PolifunctionError,
    >)
        ensures
            evaluate_models(r, self.spec_evaluate(input)),
    ;

    /// Check if a given input is in the domain of this polifunction.
    fn in_domain(&self, input: &<Self::Domain as Domain>::Element) -> (r: bool)
        ensures
            r == self.spec_in_domain(input),
    ;
}

/// Mapping interface for single-valued functions: the caller-supplied rule
/// behind lifted polifunctions. The rule is a pure function of its input.
pub trait PointMapping<E, T> {
    /// The outcome of the rule at `input`.
    spec fn spec_map(&self, input: &E) -> Result<T, ErrorModel>;

    /// Apply the rule at `input`.
    fn map_at(&self, input: &E) -> (r: Result<T, PolifunctionError>)
        ensures
            plain_result_models(r, self.spec_map(input)),
    ;
}

/// Trait for composable polifunctions.
pub trait Composable: PolifunctionBase {
    /// Compose this polifunction with another whose outputs convert into this
    /// one's inputs.
    fn compose<P>(&self, other: &P) -> Result<ComposedPolifunction<Self, P>, PolifunctionError>
    where
        P: PolifunctionBase,
        <P::Codomain as Codomain>::Element: IntoElement<<Self::Domain as Domain>::Element>,
        Self: Sized,
    ;
}

/// Result of composing two polifunctions. A placeholder: its evaluation is
/// deliberately unimplemented and always reports so; the operational
/// composition combinator lives in the operations module.
pub struct ComposedPolifunction<P1, P2> {
    pub p1: P1,
    pub p2: P2,
}

impl<P1, P2> PolifunctionBase for ComposedPolifunction<P1, P2> where
    P1: PolifunctionBase,
    P2: PolifunctionBase,
    <P2::Codomain as Codomain>::Element: IntoElement<<P1::Domain as Domain>::Element>,
 {
    type Domain = P2::Domain;

    type Codomain = P1::Codomain;

    open spec fn spec_in_domain(&self, input: &<P2::Domain as Domain>::Element) -> bool {
        self.p2.spec_in_domain(input)
    }

    open spec fn spec_evaluate(&self, input: &<P2::Domain as Domain>::Element) -> Result<
        ValueModel<<P1::Codomain as Codomain>::Element>,
        ErrorModel,
    > {
        Err(ErrorModel::Other("ComposedPolifunction evaluation not implemented"@))
    }

    fn evaluate(&self, input: &<P2::Domain as Domain>::Element) -> (r: Result<
        PolifunctionValue<<P1::Codomain as Codomain>::Element>,
        PolifunctionError,
    >) {
        Err(
            PolifunctionError::Other(
                String::from_str("ComposedPolifunction evaluation not implemented"),
            ),
        )
    }

    fn in_domain(&self, input: &<P2::Domain as Domain>::Element) -> (r: bool) {
        self.p2.in_domain(input)
    }
}

} // verus!
