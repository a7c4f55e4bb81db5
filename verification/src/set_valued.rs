//! Set-valued polifunctions: the capability contract for functions whose
//! output is a finite set, a basic mapping-backed implementation, and the
//! union combinator.
//!
//! The union tolerates a domain error from exactly one branch — the branch
//! simply contributes nothing — while every other error is fatal and
//! propagates at once. Evaluation and `value_set` follow one and the same
//! fallback rule; only when both branches report a domain error does the
//! union itself report one.

use vstd::prelude::*;

verus! {

use crate::element::EqElement;
use crate::value_set::ValueSet;
use crate::polifunction::{PolifunctionBase, PolifunctionValue, PolifunctionError, ErrorModel,
    ValueModel, Domain, Codomain, value_set_models, domain_guarded, set_outcome_to_value,
    set_outcome_cardinality, set_outcome_contains};

/// The union's combination rule: a domain error from one branch only removes
/// that branch's contribution, any other error is fatal, and only two domain
/// errors make the union itself report one.
pub open spec fn union_set_outcome<T>(
    in_dom: bool,
    r1: Result<Set<T>, ErrorModel>,
    r2: Result<Set<T>, ErrorModel>,
) -> Result<Set<T>, ErrorModel> {
    if !in_dom {
        Err(ErrorModel::DomainError)
    } else {
        match (r1, r2) {
            (Ok(s1), Ok(s2)) => Ok(s1 + s2),
            (Ok(s1), Err(ErrorModel::DomainError)) => Ok(s1),
            (Err(ErrorModel::DomainError), Ok(s2)) => Ok(s2),
            (Err(ErrorModel::DomainError), Err(ErrorModel::DomainError)) => Err(
                ErrorModel::DomainError,
            ),
            (Err(ErrorModel::DomainError), Err(e2)) => Err(e2),
            (Err(e1), _) => Err(e1),
            (Ok(_), Err(e2)) => Err(e2),
        }
    }
}

/// The union's membership rule: a value found in the first branch settles the
/// question; otherwise — also when the first branch is out of domain — the
/// second branch's answer stands as given.
pub open spec fn union_contains_outcome(
    in_dom: bool,
    r1: Result<bool, ErrorModel>,
    r2: Result<bool, ErrorModel>,
) -> Result<bool, ErrorModel> {
    if !in_dom {
        Err(ErrorModel::DomainError)
    } else {
        match r1 {
            Ok(true) => Ok(true),
            Ok(false) | Err(ErrorModel::DomainError) => r2,
            Err(e1) => Err(e1),
        }
    }
}

/// Mapping interface for set-valued functions: the caller-supplied rule that
/// assigns each input a finite set of outputs, or an error. The rule is a
/// pure function of its input.
pub trait SetMapping<E, T> {
    /// The outcome of the rule at `input`.
    spec fn spec_map(&self, input: &E) -> Result<Set<T>, ErrorModel>;

    /// Apply the rule at `input`.
    fn map_at(&self, input: &E) -> (r: Result<ValueSet<T>, PolifunctionError>)
        ensures
            value_set_models(r, self.spec_map(input)),
    ;
}

/// Trait for set-valued polifunctions.
pub trait SetValuedPolifunction: PolifunctionBase where
    <Self::Codomain as Codomain>::Element: EqElement,
 {
    /// The outcome of `value_set`, as a function of the input alone.
    spec fn spec_value_set(&self, input: &<Self::Domain as Domain>::Element) -> Result<
        Set<<Self::Codomain as Codomain>::Element>,
        ErrorModel,
    >;

    /// The outcome of `contains_value`, as a function of input and value.
    spec fn spec_contains_value(
        &self,
        input: &<Self::Domain as Domain>::Element,
        value: &<Self::Codomain as Codomain>::Element,
    ) -> Result<bool, ErrorModel>;

    /// The outcome of `cardinality`, as a function of the input alone.
    spec fn spec_cardinality(&self, input: &<Self::Domain as Domain>::Element) -> Result<
        usize,
        ErrorModel,
    >;

    /// Get the set of values at the given input.
    fn value_set(&self, input: &<Self::Domain as Domain>::Element) -> (r: Result<
        ValueSet<<Self::Codomain as Codomain>::Element>,
        PolifunctionError,
    >)
        ensures
            value_set_models(r, self.spec_value_set(input)),
    ;

    /// Check if a specific value is in the output set for a given input.
    fn contains_value(
        &self,
        input: &<Self::Domain as Domain>::Element,
        value: &<Self::Codomain as Codomain>::Element,
    ) -> (r: Result<bool, PolifunctionError>)
        ensures
            (match (r, self.spec_contains_value(input, value)) {
                (Ok(b), Ok(bm)) => b == bm,
                (Err(e), Err(em)) => e@ == em,
                _ => false,
            }),
    ;

    /// Get the cardinality of the output set for a given input.
    fn cardinality(&self, input: &<Self::Domain as Domain>::Element) -> (r: Result<
        usize,
        PolifunctionError,
    >)
        ensures
            (match (r, self.spec_cardinality(input)) {
                (Ok(n), Ok(nm)) => n == nm,
                (Err(e), Err(em)) => e@ == em,
                _ => false,
            }),
    ;

    /// An input outside the domain always yields the domain error: the domain
    /// check comes before any computation.
    proof fn value_set_checks_domain(&self, input: &<Self::Domain as Domain>::Element)
        ensures
            !self.spec_in_domain(input) ==> self.spec_value_set(input) == Err::<
                Set<<Self::Codomain as Codomain>::Element>,
                ErrorModel,
            >(ErrorModel::DomainError),
    ;

    /// The same domain-check-first rule, for `evaluate`.
    proof fn evaluate_checks_domain(&self, input: &<Self::Domain as Domain>::Element)
        ensures
            !self.spec_in_domain(input) ==> self.spec_evaluate(input) == Err::<
                ValueModel<<Self::Codomain as Codomain>::Element>,
                ErrorModel,
            >(ErrorModel::DomainError),
    ;
}

/// Basic implementation of a set-valued polifunction: a caller-supplied
/// mapping rule together with a declared domain and codomain.
pub struct BasicSetValuedPolifunction<D, C, M> {
    /// Rule that maps inputs to sets of outputs
    pub mapping_function: M,
    /// Domain of the function
    pub domain: D,
    /// Codomain of the function
    pub codomain: C,
}

impl<D, C, M> BasicSetValuedPolifunction<D, C, M> {
    /// Create a new set-valued polifunction with the given mapping rule.
    pub fn new(mapping_function: M, domain: D, codomain: C) -> (r: Self)
        ensures
            r == (BasicSetValuedPolifunction { mapping_function, domain, codomain }),
    {
        BasicSetValuedPolifunction { mapping_function, domain, codomain }
    }
}

impl<D, C, M> PolifunctionBase for BasicSetValuedPolifunction<D, C, M> where
    D: Domain,
    C: Codomain,
    M: SetMapping<D::Element, C::Element>,
    C::Element: EqElement,
 {
    type Domain = D;

    type Codomain = C;

    open spec fn spec_in_domain(&self, input: &D::Element) -> bool {
        self.domain.spec_contains(input)
    }

    open spec fn spec_evaluate(&self, input: &D::Element) -> Result<
        ValueModel<C::Element>,
        ErrorModel,
    > {
        set_outcome_to_value(
            domain_guarded(
                self.domain.spec_contains(input),
                self.mapping_function.spec_map(input),
            ),
        )
    }

    fn evaluate(&self, input: &D::Element) -> (r: Result<
        PolifunctionValue<C::Element>,
        PolifunctionError,
    >) {
        match self.value_set(input) {
            Ok(result_set) => Ok(PolifunctionValue::ValueSet(result_set)),
            Err(e) => Err(e),
        }
    }

    fn in_domain(&self, input: &D::Element) -> (r: bool) {
        self.domain.contains(input)
    }
}

impl<D, C, M> SetValuedPolifunction for BasicSetValuedPolifunction<D, C, M> where
    D: Domain,
    C: Codomain,
    M: SetMapping<D::Element, C::Element>,
    C::Element: EqElement,
 {
    open spec fn spec_value_set(&self, input: &D::Element) -> Result<Set<C::Element>, ErrorModel> {
        domain_guarded(self.domain.spec_contains(input), self.mapping_function.spec_map(input))
    }

    open spec fn spec_contains_value(&self, input: &D::Element, value: &C::Element) -> Result<
        bool,
        ErrorModel,
    > {
        set_outcome_contains(
            domain_guarded(
                self.domain.spec_contains(input),
                self.mapping_function.spec_map(input),
            ),
            *value,
        )
    }

    open spec fn spec_cardinality(&self, input: &D::Element) -> Result<usize, ErrorModel> {
        set_outcome_cardinality(
            domain_guarded(
                self.domain.spec_contains(input),
                self.mapping_function.spec_map(input),
            ),
        )
    }

    fn value_set(&self, input: &D::Element) -> (r: Result<
        ValueSet<C::Element>,
        PolifunctionError,
    >) {
        if !self.in_domain(input) {
            return Err(PolifunctionError::DomainError);
        }
        self.mapping_function.map_at(input)
    }

    fn contains_value(&self, input: &D::Element, value: &C::Element) -> (r: Result<
        bool,
        PolifunctionError,
    >) {
        match self.value_set(input) {
            Ok(set) => Ok(set.contains(value)),
            Err(e) => Err(e),
        }
    }

    fn cardinality(&self, input: &D::Element) -> (r: Result<usize, PolifunctionError>) {
        match self.value_set(input) {
            Ok(set) => Ok(set.len()),
            Err(e) => Err(e),
        }
    }

    proof fn value_set_checks_domain(&self, input: &D::Element) {
    }

    proof fn evaluate_checks_domain(&self, input: &D::Element) {
    }
}

/// Union of two set-valued polifunctions over the same domain and codomain.
pub struct UnionPolifunction<P1, P2> {
    pub p1: P1,
    pub p2: P2,
}

impl<P1, P2> UnionPolifunction<P1, P2> {
    /// Create a new union of two set-valued polifunctions.
    pub fn new(p1: P1, p2: P2) -> (r: Self)
        ensures
            r == (UnionPolifunction { p1, p2 }),
    {
        UnionPolifunction { p1, p2 }
    }
}

impl<P1, P2> PolifunctionBase for UnionPolifunction<P1, P2> where
    P1: SetValuedPolifunction,
    P2: SetValuedPolifunction<Domain = P1::Domain, Codomain = P1::Codomain>,
    <P1::Codomain as Codomain>::Element: EqElement,
 {
    type Domain = P1::Domain;

    type Codomain = P1::Codomain;

    open spec fn spec_in_domain(&self, input: &<P1::Domain as Domain>::Element) -> bool {
        self.p1.spec_in_domain(input) || self.p2.spec_in_domain(input)
    }

    open spec fn spec_evaluate(&self, input: &<P1::Domain as Domain>::Element) -> Result<
        ValueModel<<P1::Codomain as Codomain>::Element>,
        ErrorModel,
    > {
        set_outcome_to_value(
            union_set_outcome(
                self.p1.spec_in_domain(input) || self.p2.spec_in_domain(input),
                self.p1.spec_value_set(input),
                self.p2.spec_value_set(input),
            ),
        )
    }

    fn evaluate(&self, input: &<P1::Domain as Domain>::Element) -> (r: Result<
        PolifunctionValue<<P1::Codomain as Codomain>::Element>,
        PolifunctionError,
    >) {
        match self.value_set(input) {
            Ok(result_set) => Ok(PolifunctionValue::ValueSet(result_set)),
            Err(e) => Err(e),
        }
    }

    fn in_domain(&self, input: &<P1::Domain as Domain>::Element) -> (r: bool) {
        self.p1.in_domain(input) || self.p2.in_domain(input)
    }
}

impl<P1, P2> SetValuedPolifunction for UnionPolifunction<P1, P2> where
    P1: SetValuedPolifunction,
    P2: SetValuedPolifunction<Domain = P1::Domain, Codomain = P1::Codomain>,
    <P1::Codomain as Codomain>::Element: EqElement,
 {
    open spec fn spec_value_set(&self, input: &<P1::Domain as Domain>::Element) -> Result<
        Set<<P1::Codomain as Codomain>::Element>,
        ErrorModel,
    > {
        union_set_outcome(
            self.p1.spec_in_domain(input) || self.p2.spec_in_domain(input),
            self.p1.spec_value_set(input),
            self.p2.spec_value_set(input),
        )
    }

    open spec fn spec_contains_value(
        &self,
        input: &<P1::Domain as Domain>::Element,
        value: &<P1::Codomain as Codomain>::Element,
    ) -> Result<bool, ErrorModel> {
        union_contains_outcome(
            self.p1.spec_in_domain(input) || self.p2.spec_in_domain(input),
            self.p1.spec_contains_value(input, value),
            self.p2.spec_contains_value(input, value),
        )
    }

    open spec fn spec_cardinality(&self, input: &<P1::Domain as Domain>::Element) -> Result<
        usize,
        ErrorModel,
    > {
        set_outcome_cardinality(
            union_set_outcome(
                self.p1.spec_in_domain(input) || self.p2.spec_in_domain(input),
                self.p1.spec_value_set(input),
                self.p2.spec_value_set(input),
            ),
        )
    }

    fn value_set(&self, input: &<P1::Domain as Domain>::Element) -> (r: Result<
        ValueSet<<P1::Codomain as Codomain>::Element>,
        PolifunctionError,
    >) {
        if !self.in_domain(input) {
            return Err(PolifunctionError::DomainError);
        }
        match self.p1.value_set(input) {
            Ok(set1) => match self.p2.value_set(input) {
                Ok(set2) => Ok(set1.merged(set2)),
                Err(e2) => match e2 {
                    // a domain error in one branch only narrows the union
                    PolifunctionError::DomainError => Ok(set1),
                    _ => Err(e2),
                },
            },
            // if the first branch is out of domain, the second one decides
            Err(PolifunctionError::DomainError) => self.p2.value_set(input),
            Err(e1) => Err(e1),
        }
    }

    fn contains_value(
        &self,
        input: &<P1::Domain as Domain>::Element,
        value: &<P1::Codomain as Codomain>::Element,
    ) -> (r: Result<bool, PolifunctionError>) {
        if !self.in_domain(input) {
            return Err(PolifunctionError::DomainError);
        }
        match self.p1.contains_value(input, value) {
            Ok(true) => Ok(true),
            Ok(false) => self.p2.contains_value(input, value),
            Err(e1) => match e1 {
                PolifunctionError::DomainError => self.p2.contains_value(input, value),
                _ => Err(e1),
            },
        }
    }

    fn cardinality(&self, input: &<P1::Domain as Domain>::Element) -> (r: Result<
        usize,
        PolifunctionError,
    >) {
        match self.value_set(input) {
            Ok(set) => Ok(set.len()),
            Err(e) => Err(e),
        }
    }

    proof fn value_set_checks_domain(&self, input: &<P1::Domain as Domain>::Element) {
    }

    proof fn evaluate_checks_domain(&self, input: &<P1::Domain as Domain>::Element) {
    }
}

/// The union's domain is the union of the constituent domains: membership in
/// either branch suffices.
pub proof fn lemma_union_domain_widening<P1, P2>(
    u: &UnionPolifunction<P1, P2>,
    x: &<P1::Domain as Domain>::Element,
) where
    P1: SetValuedPolifunction,
    P2: SetValuedPolifunction<Domain = P1::Domain, Codomain = P1::Codomain>,
    <P1::Codomain as Codomain>::Element: EqElement,

    ensures
        u.spec_in_domain(x) == (u.p1.spec_in_domain(x) || u.p2.spec_in_domain(x)),
{
}

} // verus!
