//! Behavioural tests for the combinator algebra: domain-check ordering,
//! union and sum domains, hull bounds, composition and inversion.

use polifunctions::domains::{FiniteDomain, FullDomain};
use polifunctions::interval_valued::{
    BasicIntervalValuedPolifunction, HullPolifunction, IntervalValuedPolifunction,
};
use polifunctions::mappings::{TableIntervalMapping, TablePointMapping, TableSetMapping};
use polifunctions::operations::{compose, constant, LiftedPolifunction, SumPolifunction};
use polifunctions::operations::InvertedPolifunction;
use polifunctions::polifunction::{
    ComposedPolifunction, Interval, PolifunctionBase, PolifunctionError, PolifunctionValue,
};
use polifunctions::set_valued::{
    BasicSetValuedPolifunction, SetValuedPolifunction, UnionPolifunction,
};
use polifunctions::value_set::ValueSet;

fn ints(values: &[i64]) -> ValueSet<i64> {
    let mut s = ValueSet::new();
    for v in values {
        s = s.insert(*v);
    }
    s
}

#[test]
fn set_valued_evaluate_checks_domain_first() {
    // the mapping knows input 2, but the declared domain is {1}: the domain
    // check must win
    let p = BasicSetValuedPolifunction::new(
        TableSetMapping::new(vec![(2, Ok(ints(&[5])))]),
        FiniteDomain::new(vec![1]),
        FullDomain::<i64>::new(),
    );
    assert!(!p.in_domain(&2));
    assert!(matches!(p.evaluate(&2), Err(PolifunctionError::DomainError)));
    assert!(matches!(p.value_set(&2), Err(PolifunctionError::DomainError)));
    assert!(matches!(p.contains_value(&2, &5), Err(PolifunctionError::DomainError)));
    assert!(matches!(p.cardinality(&2), Err(PolifunctionError::DomainError)));
}

#[test]
fn interval_valued_evaluate_checks_domain_first() {
    let p = BasicIntervalValuedPolifunction::new(
        TableIntervalMapping::new(vec![(
            2,
            Ok(Interval { lower: 0, upper: 9, lower_inclusive: true, upper_inclusive: true }),
        )]),
        FiniteDomain::new(vec![1]),
        FullDomain::<i64>::new(),
    );
    assert!(!p.in_domain(&2));
    assert!(matches!(p.evaluate(&2), Err(PolifunctionError::DomainError)));
    assert!(matches!(p.value_interval(&2), Err(PolifunctionError::DomainError)));
    assert!(matches!(p.interval_width(&2), Err(PolifunctionError::DomainError)));
}

#[test]
fn lifted_evaluate_checks_domain_first() {
    let p = LiftedPolifunction::new(
        TablePointMapping::new(vec![(2, Ok(7))]),
        FiniteDomain::new(vec![1]),
        FullDomain::<i64>::new(),
    );
    assert!(!p.in_domain(&2));
    assert!(matches!(p.evaluate(&2), Err(PolifunctionError::DomainError)));
}

#[test]
fn union_widens_the_domain() {
    let p1 = BasicSetValuedPolifunction::new(
        TableSetMapping::new(vec![(1, Ok(ints(&[10])))]),
        FiniteDomain::new(vec![1]),
        FullDomain::<i64>::new(),
    );
    let p2 = BasicSetValuedPolifunction::new(
        TableSetMapping::new(vec![(2, Ok(ints(&[20])))]),
        FiniteDomain::new(vec![2]),
        FullDomain::<i64>::new(),
    );
    let u = UnionPolifunction::new(p1, p2);
    assert!(u.in_domain(&1));
    assert!(u.in_domain(&2));
    assert!(!u.in_domain(&3));
}

#[test]
fn sum_narrows_the_domain() {
    let p1 = constant(1, FiniteDomain::new(vec![1, 2]), FullDomain::<i64>::new());
    let p2 = constant(2, FiniteDomain::new(vec![2, 3]), FullDomain::<i64>::new());
    let s = SumPolifunction::new(p1, p2);
    assert!(s.in_domain(&2));
    assert!(!s.in_domain(&1));
    assert!(!s.in_domain(&3));
    assert!(matches!(s.evaluate(&1), Err(PolifunctionError::DomainError)));
}

fn interval_fn(
    table: Vec<(i64, Result<Interval<i64>, PolifunctionError>)>,
    domain: Vec<i64>,
) -> BasicIntervalValuedPolifunction<FiniteDomain<i64>, FullDomain<i64>, TableIntervalMapping<i64, i64>>
{
    BasicIntervalValuedPolifunction::new(
        TableIntervalMapping::new(table),
        FiniteDomain::new(domain),
        FullDomain::<i64>::new(),
    )
}

#[test]
fn hull_contains_both_operands() {
    let p1 = interval_fn(
        vec![(0, Ok(Interval { lower: 0, upper: 5, lower_inclusive: true, upper_inclusive: true }))],
        vec![0],
    );
    let p2 = interval_fn(
        vec![(0, Ok(Interval { lower: 3, upper: 10, lower_inclusive: true, upper_inclusive: true }))],
        vec![0],
    );
    let h = HullPolifunction::new(p1, p2);
    let i = h.value_interval(&0).unwrap_or_else(|_| panic!("hull failed"));
    assert_eq!(i.lower, 0);
    assert_eq!(i.upper, 10);
    assert!(i.lower_inclusive);
    assert!(i.upper_inclusive);
    assert_eq!(h.contains_value(&0, &0).unwrap_or(false), true);
    assert_eq!(h.contains_value(&0, &5).unwrap_or(false), true);
    assert_eq!(h.contains_value(&0, &10).unwrap_or(false), true);
    assert_eq!(h.contains_value(&0, &11).unwrap_or(true), false);
}

#[test]
fn hull_tie_keeps_inclusivity() {
    // both lower bounds are 5; one is exclusive, one inclusive: the hull's
    // lower bound is 5 inclusive
    let p1 = interval_fn(
        vec![(0, Ok(Interval { lower: 5, upper: 10, lower_inclusive: false, upper_inclusive: true }))],
        vec![0],
    );
    let p2 = interval_fn(
        vec![(0, Ok(Interval { lower: 5, upper: 8, lower_inclusive: true, upper_inclusive: true }))],
        vec![0],
    );
    let h = HullPolifunction::new(p1, p2);
    let i = h.value_interval(&0).unwrap_or_else(|_| panic!("hull failed"));
    assert_eq!(i.lower, 5);
    assert!(i.lower_inclusive);
    assert_eq!(h.contains_value(&0, &5).unwrap_or(false), true);
}

#[test]
fn hull_falls_back_to_one_branch() {
    let p1 = interval_fn(
        vec![(1, Ok(Interval { lower: 0, upper: 5, lower_inclusive: true, upper_inclusive: true }))],
        vec![1],
    );
    let p2 = interval_fn(
        vec![(2, Ok(Interval { lower: 3, upper: 4, lower_inclusive: true, upper_inclusive: true }))],
        vec![2],
    );
    let h = HullPolifunction::new(p1, p2);
    let i1 = h.value_interval(&1).unwrap_or_else(|_| panic!("branch one failed"));
    assert_eq!((i1.lower, i1.upper), (0, 5));
    let i2 = h.value_interval(&2).unwrap_or_else(|_| panic!("branch two failed"));
    assert_eq!((i2.lower, i2.upper), (3, 4));
    assert!(matches!(h.value_interval(&3), Err(PolifunctionError::DomainError)));
}

#[test]
fn hull_propagates_fatal_error() {
    let p1 = interval_fn(vec![(1, Err(PolifunctionError::ConvergenceError))], vec![1]);
    let p2 = interval_fn(
        vec![(1, Ok(Interval { lower: 0, upper: 1, lower_inclusive: true, upper_inclusive: true }))],
        vec![1],
    );
    let h = HullPolifunction::new(p1, p2);
    assert!(matches!(h.value_interval(&1), Err(PolifunctionError::ConvergenceError)));
}

#[test]
fn union_falls_back_per_branch() {
    let p1 = BasicSetValuedPolifunction::new(
        TableSetMapping::new(vec![(1, Ok(ValueSet::new().insert('a')))]),
        FiniteDomain::new(vec![1]),
        FullDomain::<char>::new(),
    );
    let p2 = BasicSetValuedPolifunction::new(
        TableSetMapping::new(vec![(2, Ok(ValueSet::new().insert('b')))]),
        FiniteDomain::new(vec![2]),
        FullDomain::<char>::new(),
    );
    let u = UnionPolifunction::new(p1, p2);
    let s1 = u.value_set(&1).unwrap_or_else(|_| panic!("union lost branch one"));
    assert_eq!(s1.len(), 1);
    assert!(s1.contains(&'a'));
    let s2 = u.value_set(&2).unwrap_or_else(|_| panic!("union lost branch two"));
    assert_eq!(s2.len(), 1);
    assert!(s2.contains(&'b'));
    assert!(matches!(u.value_set(&3), Err(PolifunctionError::DomainError)));
}

#[test]
fn union_merges_overlapping_sets() {
    let p1 = BasicSetValuedPolifunction::new(
        TableSetMapping::new(vec![(1, Ok(ints(&[1, 2])))]),
        FiniteDomain::new(vec![1]),
        FullDomain::<i64>::new(),
    );
    let p2 = BasicSetValuedPolifunction::new(
        TableSetMapping::new(vec![(1, Ok(ints(&[2, 3])))]),
        FiniteDomain::new(vec![1]),
        FullDomain::<i64>::new(),
    );
    let u = UnionPolifunction::new(p1, p2);
    assert_eq!(u.cardinality(&1).unwrap_or(0), 3);
    let s = u.value_set(&1).unwrap_or_else(|_| panic!("union failed"));
    assert!(s.contains(&1) && s.contains(&2) && s.contains(&3));
    match u.evaluate(&1) {
        Ok(PolifunctionValue::ValueSet(vs)) => assert_eq!(vs.len(), 3),
        _ => panic!("expected a set-shaped result"),
    }
}

#[test]
fn union_propagates_fatal_error() {
    let p1 = BasicSetValuedPolifunction::new(
        TableSetMapping::new(vec![(1, Err(PolifunctionError::ComputationError))]),
        FiniteDomain::new(vec![1]),
        FullDomain::<i64>::new(),
    );
    let p2 = BasicSetValuedPolifunction::new(
        TableSetMapping::new(vec![(1, Ok(ints(&[9])))]),
        FiniteDomain::new(vec![1]),
        FullDomain::<i64>::new(),
    );
    let u = UnionPolifunction::new(p1, p2);
    assert!(matches!(u.value_set(&1), Err(PolifunctionError::ComputationError)));
    assert!(matches!(u.evaluate(&1), Err(PolifunctionError::ComputationError)));
}

#[test]
fn union_reports_domain_error_when_both_branches_do() {
    // 1 is in both declared domains, but neither table knows it: both
    // branches fail with the domain error, so the union does too
    let p1 = BasicSetValuedPolifunction::new(
        TableSetMapping::new(vec![(9, Ok(ints(&[1])))]),
        FiniteDomain::new(vec![1, 9]),
        FullDomain::<i64>::new(),
    );
    let p2 = BasicSetValuedPolifunction::new(
        TableSetMapping::new(vec![(8, Ok(ints(&[2])))]),
        FiniteDomain::new(vec![1, 8]),
        FullDomain::<i64>::new(),
    );
    let u = UnionPolifunction::new(p1, p2);
    assert!(u.in_domain(&1));
    assert!(matches!(u.value_set(&1), Err(PolifunctionError::DomainError)));
}

#[test]
fn union_contains_value_checks_both_branches() {
    let p1 = BasicSetValuedPolifunction::new(
        TableSetMapping::new(vec![(1, Ok(ValueSet::new().insert('a')))]),
        FiniteDomain::new(vec![1]),
        FullDomain::<char>::new(),
    );
    let p2 = BasicSetValuedPolifunction::new(
        TableSetMapping::new(vec![(1, Ok(ValueSet::new().insert('b')))]),
        FiniteDomain::new(vec![1]),
        FullDomain::<char>::new(),
    );
    let u = UnionPolifunction::new(p1, p2);
    assert_eq!(u.contains_value(&1, &'a').unwrap_or(false), true);
    assert_eq!(u.contains_value(&1, &'b').unwrap_or(false), true);
    assert_eq!(u.contains_value(&1, &'c').unwrap_or(true), false);
}

#[test]
fn compose_rejects_set_shaped_intermediate() {
    let inner = BasicSetValuedPolifunction::new(
        TableSetMapping::new(vec![(1, Ok(ints(&[1, 2])))]),
        FiniteDomain::new(vec![1]),
        FullDomain::<i64>::new(),
    );
    let outer = constant(99, FullDomain::<i64>::new(), FullDomain::<i64>::new());
    let c = compose(outer, inner);
    match c.evaluate(&1) {
        Err(PolifunctionError::Other(msg)) => {
            assert_eq!(msg, "Complex composition not yet implemented");
        },
        _ => panic!("expected the unsupported-shape error"),
    }
}

#[test]
fn compose_chains_single_values() {
    let inner = LiftedPolifunction::new(
        TablePointMapping::new(vec![(1, Ok(2))]),
        FiniteDomain::new(vec![1]),
        FullDomain::<i64>::new(),
    );
    let outer = LiftedPolifunction::new(
        TablePointMapping::new(vec![(2, Ok(10))]),
        FiniteDomain::new(vec![2]),
        FullDomain::<i64>::new(),
    );
    let c = compose(outer, inner);
    assert!(c.in_domain(&1));
    match c.evaluate(&1) {
        Ok(PolifunctionValue::Single(v)) => assert_eq!(v, 10),
        _ => panic!("expected a single value"),
    }
    // the inner value 3 converts fine, but lies outside the outer domain:
    // the outer evaluation surfaces its own domain error lazily
    let inner2 = LiftedPolifunction::new(
        TablePointMapping::new(vec![(1, Ok(3))]),
        FiniteDomain::new(vec![1]),
        FullDomain::<i64>::new(),
    );
    let outer2 = LiftedPolifunction::new(
        TablePointMapping::new(vec![(2, Ok(10))]),
        FiniteDomain::new(vec![2]),
        FullDomain::<i64>::new(),
    );
    let c2 = compose(outer2, inner2);
    assert!(matches!(c2.evaluate(&1), Err(PolifunctionError::DomainError)));
}

#[test]
fn invert_always_fails() {
    let base = constant(4, FullDomain::<i64>::new(), FullDomain::<i64>::new());
    let inv = InvertedPolifunction::new(base);
    assert!(!inv.in_domain(&4));
    assert!(!inv.in_domain(&0));
    match inv.evaluate(&4) {
        Err(PolifunctionError::Other(msg)) => assert_eq!(msg, "Not implemented yet"),
        _ => panic!("inversion must stay unimplemented"),
    }
}

#[test]
fn sum_adds_single_values() {
    let p1 = constant(3, FullDomain::<i64>::new(), FullDomain::<i64>::new());
    let p2 = constant(4, FullDomain::<i64>::new(), FullDomain::<i64>::new());
    let s = SumPolifunction::new(p1, p2);
    match s.evaluate(&0) {
        Ok(PolifunctionValue::Single(v)) => assert_eq!(v, 7),
        _ => panic!("expected a single value"),
    }
}

#[test]
fn sum_rejects_other_shapes() {
    let p1 = BasicSetValuedPolifunction::new(
        TableSetMapping::new(vec![(1, Ok(ints(&[1, 2])))]),
        FiniteDomain::new(vec![1]),
        FullDomain::<i64>::new(),
    );
    let p2 = BasicSetValuedPolifunction::new(
        TableSetMapping::new(vec![(1, Ok(ints(&[3])))]),
        FiniteDomain::new(vec![1]),
        FullDomain::<i64>::new(),
    );
    let s = SumPolifunction::new(p1, p2);
    match s.evaluate(&1) {
        Err(PolifunctionError::Other(msg)) => {
            assert_eq!(msg, "Complex operation not yet implemented");
        },
        _ => panic!("expected the unsupported-shape error"),
    }
}

#[test]
fn composed_placeholder_stays_unimplemented() {
    let p1 = constant(1, FullDomain::<i64>::new(), FullDomain::<i64>::new());
    let p2 = constant(2, FiniteDomain::new(vec![5]), FullDomain::<i64>::new());
    let stub = ComposedPolifunction { p1, p2 };
    assert!(stub.in_domain(&5));
    assert!(!stub.in_domain(&6));
    match stub.evaluate(&5) {
        Err(PolifunctionError::Other(msg)) => {
            assert_eq!(msg, "ComposedPolifunction evaluation not implemented");
        },
        _ => panic!("the placeholder must not evaluate"),
    }
}

#[test]
fn sum_propagates_operand_errors() {
    let p1 = LiftedPolifunction::new(
        TablePointMapping::new(vec![(1, Err(PolifunctionError::ComputationError))]),
        FiniteDomain::new(vec![1]),
        FullDomain::<i64>::new(),
    );
    let p2 = constant(4, FiniteDomain::new(vec![1]), FullDomain::<i64>::new());
    let s = SumPolifunction::new(p1, p2);
    assert!(matches!(s.evaluate(&1), Err(PolifunctionError::ComputationError)));
}

#[test]
fn union_contains_value_propagates_fatal_error() {
    let p1 = BasicSetValuedPolifunction::new(
        TableSetMapping::new(vec![(1, Err(PolifunctionError::ConvergenceError))]),
        FiniteDomain::new(vec![1]),
        FullDomain::<i64>::new(),
    );
    let p2 = BasicSetValuedPolifunction::new(
        TableSetMapping::new(vec![(1, Ok(ints(&[2])))]),
        FiniteDomain::new(vec![1]),
        FullDomain::<i64>::new(),
    );
    let u = UnionPolifunction::new(p1, p2);
    assert!(matches!(u.contains_value(&1, &2), Err(PolifunctionError::ConvergenceError)));
}
