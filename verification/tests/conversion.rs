//! Tests for representation conversion, lifting, interval semantics, the
//! value-set container, and the error taxonomy.

use polifunctions::domains::{FiniteDomain, FullDomain};
use polifunctions::interval_valued::{
    BasicIntervalValuedPolifunction, IntervalValuedPolifunction,
};
use polifunctions::mappings::{TableIntervalMapping, TablePointMapping, TableSetMapping};
use polifunctions::operations::{lift_to_set, to_interval};
use polifunctions::polifunction::{
    Interval, PolifunctionBase, PolifunctionError, PolifunctionValue,
};
use polifunctions::set_valued::{BasicSetValuedPolifunction, SetValuedPolifunction};
use polifunctions::value_set::ValueSet;

fn ints(values: &[i64]) -> ValueSet<i64> {
    let mut s = ValueSet::new();
    for v in values {
        s = s.insert(*v);
    }
    s
}

#[test]
fn to_interval_takes_the_extrema() {
    let p = BasicSetValuedPolifunction::new(
        TableSetMapping::new(vec![(0, Ok(ints(&[3, 7, 1])))]),
        FiniteDomain::new(vec![0]),
        FullDomain::<i64>::new(),
    );
    let q = to_interval(p);
    let i = q.value_interval(&0).unwrap_or_else(|_| panic!("conversion failed"));
    assert_eq!(i.lower, 1);
    assert_eq!(i.upper, 7);
    assert!(i.lower_inclusive);
    assert!(i.upper_inclusive);
    match q.evaluate(&0) {
        Ok(PolifunctionValue::Interval(iv)) => {
            assert_eq!((iv.lower, iv.upper), (1, 7));
        },
        _ => panic!("expected an interval-shaped result"),
    }
    assert_eq!(q.interval_width(&0).unwrap_or(-1), 6);
    assert_eq!(q.contains_value(&0, &4).unwrap_or(false), true);
    assert_eq!(q.contains_value(&0, &8).unwrap_or(true), false);
}

#[test]
fn to_interval_rejects_an_empty_set() {
    let p = BasicSetValuedPolifunction::new(
        TableSetMapping::new(vec![(0, Ok(ValueSet::new()))]),
        FiniteDomain::new(vec![0]),
        FullDomain::<i64>::new(),
    );
    let q = to_interval(p);
    assert!(matches!(q.value_interval(&0), Err(PolifunctionError::ComputationError)));
    assert!(matches!(q.evaluate(&0), Err(PolifunctionError::ComputationError)));
}

#[test]
fn interval_width_is_never_clamped() {
    // a malformed interval with its bounds reversed keeps a negative width
    let p = BasicIntervalValuedPolifunction::new(
        TableIntervalMapping::new(vec![(
            0,
            Ok(Interval { lower: 10, upper: 4, lower_inclusive: true, upper_inclusive: true }),
        )]),
        FiniteDomain::new(vec![0]),
        FullDomain::<i64>::new(),
    );
    assert_eq!(p.interval_width(&0).unwrap_or(0), -6);
}

#[test]
fn interval_width_measures_the_span() {
    let p = BasicIntervalValuedPolifunction::new(
        TableIntervalMapping::new(vec![(
            0,
            Ok(Interval { lower: 3, upper: 10, lower_inclusive: true, upper_inclusive: false }),
        )]),
        FiniteDomain::new(vec![0]),
        FullDomain::<i64>::new(),
    );
    assert_eq!(p.interval_width(&0).unwrap_or(0), 7);
}

#[test]
fn interval_bounds_honour_inclusivity() {
    let p = BasicIntervalValuedPolifunction::new(
        TableIntervalMapping::new(vec![(
            0,
            Ok(Interval { lower: 2, upper: 8, lower_inclusive: false, upper_inclusive: true }),
        )]),
        FiniteDomain::new(vec![0]),
        FullDomain::<i64>::new(),
    );
    assert_eq!(p.contains_value(&0, &2).unwrap_or(true), false);
    assert_eq!(p.contains_value(&0, &3).unwrap_or(false), true);
    assert_eq!(p.contains_value(&0, &8).unwrap_or(false), true);
    assert_eq!(p.contains_value(&0, &9).unwrap_or(true), false);
    match p.evaluate(&0) {
        Ok(PolifunctionValue::Interval(iv)) => {
            assert!(!iv.lower_inclusive && iv.upper_inclusive);
        },
        _ => panic!("expected an interval-shaped result"),
    }
}

#[test]
fn lift_to_set_wraps_single_values() {
    let p = lift_to_set(
        TablePointMapping::new(vec![(1, Ok(42))]),
        FiniteDomain::new(vec![1]),
        FullDomain::<i64>::new(),
    );
    let s = p.value_set(&1).unwrap_or_else(|_| panic!("lift failed"));
    assert_eq!(s.len(), 1);
    assert!(s.contains(&42));
    assert_eq!(p.cardinality(&1).unwrap_or(0), 1);
    assert_eq!(p.contains_value(&1, &42).unwrap_or(false), true);
    assert_eq!(p.contains_value(&1, &41).unwrap_or(true), false);
    match p.evaluate(&1) {
        Ok(PolifunctionValue::ValueSet(vs)) => {
            assert_eq!(vs.len(), 1);
            assert!(vs.contains(&42));
        },
        _ => panic!("expected a set-shaped result"),
    }
    assert!(matches!(p.value_set(&2), Err(PolifunctionError::DomainError)));
}

#[test]
fn lift_to_set_counts_one_even_when_the_function_fails() {
    // cardinality answers from the domain check alone: a lifted ordinary
    // function is single-valued by construction
    let p = lift_to_set(
        TablePointMapping::new(vec![(1, Err(PolifunctionError::ComputationError))]),
        FiniteDomain::new(vec![1]),
        FullDomain::<i64>::new(),
    );
    assert_eq!(p.cardinality(&1).unwrap_or(0), 1);
    assert!(matches!(p.value_set(&1), Err(PolifunctionError::ComputationError)));
}

#[test]
fn error_messages_describe_each_kind() {
    assert_eq!(
        PolifunctionError::DomainError.message(),
        "Input is outside the function's domain"
    );
    assert_eq!(PolifunctionError::ComputationError.message(), "Error during computation");
    assert_eq!(
        PolifunctionError::ConvergenceError.message(),
        "Failed to converge to a result"
    );
    assert_eq!(
        PolifunctionError::InvalidOperation.message(),
        "Invalid operation for this polifunction type"
    );
    assert_eq!(PolifunctionError::Other("boom".to_string()).message(), "boom");
}

#[test]
fn value_sets_ignore_duplicates_and_order() {
    let s = ValueSet::new().insert(2).insert(1).insert(2);
    assert_eq!(s.len(), 2);
    assert!(s.contains(&1));
    assert!(s.contains(&2));
    assert!(!s.contains(&3));
    assert!(!s.is_empty());
    match s.extrema() {
        Some((lo, hi)) => {
            assert_eq!(lo, 1);
            assert_eq!(hi, 2);
        },
        None => panic!("the set is not empty"),
    }
    assert!(ValueSet::<i64>::new().is_empty());
    assert!(ValueSet::<i64>::new().extrema().is_none());
}

#[test]
fn basic_set_valued_reports_its_set() {
    let p = BasicSetValuedPolifunction::new(
        TableSetMapping::new(vec![(1, Ok(ints(&[4, 6])))]),
        FiniteDomain::new(vec![1]),
        FullDomain::<i64>::new(),
    );
    assert_eq!(p.cardinality(&1).unwrap_or(0), 2);
    assert_eq!(p.contains_value(&1, &4).unwrap_or(false), true);
    assert_eq!(p.contains_value(&1, &5).unwrap_or(true), false);
    match p.evaluate(&1) {
        Ok(PolifunctionValue::ValueSet(vs)) => {
            assert!(vs.contains(&4) && vs.contains(&6));
        },
        _ => panic!("expected a set-shaped result"),
    }
}
