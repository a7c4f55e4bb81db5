//! Table-backed mapping rules: finite associations from inputs to outcomes,
//! the simplest way to build concrete polifunctions from data. A key that is
//! absent from the table counts as outside the rule's reach and yields the
//! domain error.

use vstd::prelude::*;

verus! {

use crate::element::{Element, EqElement};
use crate::value_set::ValueSet;
use crate::polifunction::{PolifunctionError, ErrorModel, Interval, PointMapping};
use crate::set_valued::SetMapping;
use crate::interval_valued::IntervalMapping;

/// The first outcome associated with `key`, scanning the table in order.
pub open spec fn table_lookup<E, R>(entries: Seq<(E, R)>, key: E) -> Option<R>
    decreases entries.len(),
{
    if entries.len() == 0 {
        None
    } else if entries[0].0 == key {
        Some(entries[0].1)
    } else {
        table_lookup(entries.drop_first(), key)
    }
}

proof fn lemma_table_lookup_skip<E, R>(entries: Seq<(E, R)>, key: E, i: int)
    requires
        0 <= i <= entries.len(),
        forall|j: int| 0 <= j < i ==> (#[trigger] entries[j]).0 != key,
    ensures
        table_lookup(entries, key) == table_lookup(entries.skip(i), key),
    decreases i,
{
    if i > 0 {
        lemma_table_lookup_skip(entries.drop_first(), key, i - 1);
        assert(entries.drop_first().skip(i - 1) =~= entries.skip(i));
        assert forall|j: int| 0 <= j < i - 1 implies (#[trigger] entries.drop_first()[j]).0
            != key by {
            assert(entries[j + 1].0 != key);
        };
        assert(table_lookup(entries.drop_first(), key) == table_lookup(
            entries.drop_first().skip(i - 1),
            key,
        ));
    } else {
        assert(entries.skip(0) =~= entries);
    }
}

proof fn lemma_table_lookup_found<E, R>(entries: Seq<(E, R)>, key: E, i: int)
    requires
        0 <= i < entries.len(),
        forall|j: int| 0 <= j < i ==> (#[trigger] entries[j]).0 != key,
        entries[i].0 == key,
    ensures
        table_lookup(entries, key) == Some(entries[i].1),
{
    lemma_table_lookup_skip(entries, key, i);
    assert(entries.skip(i)[0] == entries[i]);
}

proof fn lemma_table_lookup_missing<E, R>(entries: Seq<(E, R)>, key: E)
    requires
        forall|j: int| 0 <= j < entries.len() ==> (#[trigger] entries[j]).0 != key,
    ensures
        table_lookup(entries, key) == None::<R>,
{
    lemma_table_lookup_skip(entries, key, entries.len() as int);
    assert(entries.skip(entries.len() as int) =~= Seq::<(E, R)>::empty());
}

/// A single-valued rule given by a finite table of outcomes.
pub struct TablePointMapping<E, T> {
    pub entries: Vec<(E, Result<T, PolifunctionError>)>,
}

impl<E, T> TablePointMapping<E, T> {
    pub fn new(entries: Vec<(E, Result<T, PolifunctionError>)>) -> (r: Self)
        ensures
            r == (TablePointMapping { entries }),
    {
        TablePointMapping { entries }
    }
}

/// The model of a stored single-valued outcome.
pub open spec fn point_entry_model<T>(entry: Option<Result<T, PolifunctionError>>) -> Result<
    T,
    ErrorModel,
> {
    match entry {
        None => Err(ErrorModel::DomainError),
        Some(Ok(v)) => Ok(v),
        Some(Err(e)) => Err(e@),
    }
}

impl<E: EqElement, T: Element> PointMapping<E, T> for TablePointMapping<E, T> {
    open spec fn spec_map(&self, input: &E) -> Result<T, ErrorModel> {
        point_entry_model(table_lookup(self.entries@, *input))
    }

    fn map_at(&self, input: &E) -> (r: Result<T, PolifunctionError>) {
        let mut i: usize = 0;
        while i < self.entries.len()
            invariant
                i <= self.entries@.len(),
                forall|j: int| 0 <= j < i ==> (#[trigger] self.entries@[j]).0 != *input,
            decreases self.entries@.len() - i,
        {
            if self.entries[i].0.eq_elem(input) {
                proof {
                    lemma_table_lookup_found(self.entries@, *input, i as int);
                }
                return match &self.entries[i].1 {
                    Ok(v) => Ok(v.dup()),
                    Err(e) => Err(e.dup()),
                };
            }
            i += 1;
        }
        proof {
            lemma_table_lookup_missing(self.entries@, *input);
        }
        Err(PolifunctionError::DomainError)
    }
}

/// A set-valued rule given by a finite table of outcomes.
pub struct TableSetMapping<E, T> {
    pub entries: Vec<(E, Result<ValueSet<T>, PolifunctionError>)>,
}

impl<E, T> TableSetMapping<E, T> {
    pub fn new(entries: Vec<(E, Result<ValueSet<T>, PolifunctionError>)>) -> (r: Self)
        ensures
            r == (TableSetMapping { entries }),
    {
        TableSetMapping { entries }
    }
}

/// The model of a stored set-valued outcome.
pub open spec fn set_entry_model<T>(
    entry: Option<Result<ValueSet<T>, PolifunctionError>>,
) -> Result<Set<T>, ErrorModel> {
    match entry {
        None => Err(ErrorModel::DomainError),
        Some(Ok(s)) => Ok(s@),
        Some(Err(e)) => Err(e@),
    }
}

impl<E: EqElement, T: Element> SetMapping<E, T> for TableSetMapping<E, T> {
    open spec fn spec_map(&self, input: &E) -> Result<Set<T>, ErrorModel> {
        set_entry_model(table_lookup(self.entries@, *input))
    }

    fn map_at(&self, input: &E) -> (r: Result<ValueSet<T>, PolifunctionError>) {
        let mut i: usize = 0;
        while i < self.entries.len()
            invariant
                i <= self.entries@.len(),
                forall|j: int| 0 <= j < i ==> (#[trigger] self.entries@[j]).0 != *input,
            decreases self.entries@.len() - i,
        {
            if self.entries[i].0.eq_elem(input) {
                proof {
                    lemma_table_lookup_found(self.entries@, *input, i as int);
                }
                return match &self.entries[i].1 {
                    Ok(s) => Ok(s.dup()),
                    Err(e) => Err(e.dup()),
                };
            }
            i += 1;
        }
        proof {
            lemma_table_lookup_missing(self.entries@, *input);
        }
        Err(PolifunctionError::DomainError)
    }
}

/// An interval-valued rule given by a finite table of outcomes.
pub struct TableIntervalMapping<E, T> {
    pub entries: Vec<(E, Result<Interval<T>, PolifunctionError>)>,
}

impl<E, T> TableIntervalMapping<E, T> {
    pub fn new(entries: Vec<(E, Result<Interval<T>, PolifunctionError>)>) -> (r: Self)
        ensures
            r == (TableIntervalMapping { entries }),
    {
        TableIntervalMapping { entries }
    }
}

/// The model of a stored interval-valued outcome.
pub open spec fn interval_entry_model<T>(
    entry: Option<Result<Interval<T>, PolifunctionError>>,
) -> Result<Interval<T>, ErrorModel> {
    match entry {
        None => Err(ErrorModel::DomainError),
        Some(Ok(i)) => Ok(i),
        Some(Err(e)) => Err(e@),
    }
}

impl<E: EqElement, T: Element> IntervalMapping<E, T> for TableIntervalMapping<E, T> {
    open spec fn spec_map(&self, input: &E) -> Result<Interval<T>, ErrorModel> {
        interval_entry_model(table_lookup(self.entries@, *input))
    }

    fn map_at(&self, input: &E) -> (r: Result<Interval<T>, PolifunctionError>) {
        let mut i: usize = 0;
        while i < self.entries.len()
            invariant
                i <= self.entries@.len(),
                forall|j: int| 0 <= j < i ==> (#[trigger] self.entries@[j]).0 != *input,
            decreases self.entries@.len() - i,
        {
            if self.entries[i].0.eq_elem(input) {
                proof {
                    lemma_table_lookup_found(self.entries@, *input, i as int);
                }
                return match &self.entries[i].1 {
                    Ok(iv) => Ok(iv.dup()),
                    Err(e) => Err(e.dup()),
                };
            }
            i += 1;
        }
        proof {
            lemma_table_lookup_missing(self.entries@, *input);
        }
        Err(PolifunctionError::DomainError)
    }
}

} // verus!
