//! A finite set of output values, the executable counterpart of a
//! mathematical `Set`. Backed by a duplicate-free vector; the order of the
//! backing vector is not observable through the contracts.

use vstd::prelude::*;

verus! {

use crate::element::{Element, EqElement, TotalOrdElement, cmp_le, cmp_ge, is_least_of,
    is_greatest_of, least_of, greatest_of, lemma_least_unique, lemma_greatest_unique};
use core::cmp::Ordering;

/// A finite collection of distinct values.
pub struct ValueSet<T> {
    elems: Vec<T>,
}

impl<T> View for ValueSet<T> {
    type V = Set<T>;

    closed spec fn view(&self) -> Set<T> {
        self.elems@.to_set()
    }
}

impl<T> ValueSet<T> {
    #[verifier::type_invariant]
    spec fn inv(self) -> bool {
        self.elems@.no_duplicates()
    }

    pub fn new() -> (r: Self)
        ensures
            r@ == Set::<T>::empty(),
    {
        let r = ValueSet { elems: Vec::new() };
        proof {
            assert(r.elems@.to_set() =~= Set::<T>::empty());
        }
        r
    }

    pub fn singleton(value: T) -> (r: Self)
        ensures
            r@ == Set::<T>::empty().insert(value),
    {
        let mut elems: Vec<T> = Vec::new();
        elems.push(value);
        let r = ValueSet { elems };
        proof {
            assert(r.elems@[0] == value);
            assert(r.elems@.contains(value));
            assert(r.elems@.to_set() =~= Set::<T>::empty().insert(value)) by {
                assert forall|x: T| r.elems@.to_set().contains(x) implies Set::<T>::empty().insert(
                    value,
                ).contains(x) by {
                    let j = choose|j: int| 0 <= j < r.elems@.len() && r.elems@[j] == x;
                    assert(j == 0);
                };
            };
        }
        r
    }

    pub fn len(&self) -> (r: usize)
        ensures
            r == self@.len(),
    {
        proof {
            use_type_invariant(self);
            self.elems@.unique_seq_to_set();
        }
        self.elems.len()
    }

    pub fn is_empty(&self) -> (r: bool)
        ensures
            r == (self@.len() == 0),
    {
        proof {
            use_type_invariant(self);
            self.elems@.unique_seq_to_set();
        }
        self.elems.len() == 0
    }
}

impl<T: EqElement> ValueSet<T> {
    pub fn contains(&self, value: &T) -> (r: bool)
        ensures
            r == self@.contains(*value),
    {
        let mut i: usize = 0;
        while i < self.elems.len()
            invariant
                i <= self.elems@.len(),
                forall|j: int| 0 <= j < i ==> self.elems@[j] != *value,
            decreases self.elems@.len() - i,
        {
            if self.elems[i].eq_elem(value) {
                assert(self@.contains(*value)) by {
                    assert(self.elems@.contains(*value));
                };
                return true;
            }
            i += 1;
        }
        assert(!self@.contains(*value)) by {
            if self.elems@.contains(*value) {
                let j = self.elems@.index_of(*value);
                assert(self.elems@[j] == *value);
            }
        };
        false
    }

    /// Add a value, keeping the collection duplicate-free.
    pub fn insert(self, value: T) -> (r: Self)
        ensures
            r@ == self@.insert(value),
    {
        proof {
            use_type_invariant(&self);
        }
        if self.contains(&value) {
            proof {
                assert(self@.insert(value) =~= self@);
            }
            self
        } else {
            let ghost old_view = self@;
            let ValueSet { mut elems } = self;
            let ghost old_seq = elems@;
            proof {
                assert(!old_seq.contains(value)) by {
                    if old_seq.contains(value) {
                        let j = choose|j: int| 0 <= j < old_seq.len() && old_seq[j] == value;
                        assert(old_seq.to_set().contains(value));
                    }
                };
            }
            elems.push(value);
            let r = ValueSet { elems };
            proof {
                assert(r.elems@ == old_seq.push(value));
                assert(r.elems@.no_duplicates()) by {
                    assert forall|i: int, j: int|
                        0 <= i < r.elems@.len() && 0 <= j < r.elems@.len() && i != j
                        implies r.elems@[i] != r.elems@[j] by {
                        if i < old_seq.len() && j < old_seq.len() {
                        } else if j == old_seq.len() {
                            assert(old_seq.contains(old_seq[i])) by {
                                assert(old_seq[i] == old_seq[i]);
                            };
                        } else {
                            assert(old_seq.contains(old_seq[j]));
                        }
                    };
                };
                assert(r.elems@.to_set() =~= old_view.insert(value)) by {
                    assert forall|x: T| r.elems@.to_set().contains(x)
                        implies old_view.insert(value).contains(x) by {
                        let j = choose|j: int| 0 <= j < r.elems@.len() && r.elems@[j] == x;
                        if j < old_seq.len() {
                            assert(old_seq[j] == x);
                            assert(old_seq.contains(x));
                            assert(old_view.contains(x));
                        }
                    };
                    assert forall|x: T| old_view.insert(value).contains(x)
                        implies r.elems@.to_set().contains(x) by {
                        if old_view.contains(x) {
                            let j = choose|j: int| 0 <= j < old_seq.len() && old_seq[j] == x;
                            assert(r.elems@[j] == x);
                            assert(r.elems@.contains(x));
                        } else {
                            assert(r.elems@[old_seq.len() as int] == value);
                            assert(r.elems@.contains(value));
                        }
                    };
                };
            }
            r
        }
    }

    /// The union of two collections, consuming both.
    pub fn merged(self, other: Self) -> (r: Self)
        ensures
            r@ == self@ + other@,
    {
        proof {
            use_type_invariant(&other);
        }
        let ValueSet { elems: other_elems } = other;
        let mut r = self;
        let mut i: usize = 0;
        let ghost other_seq = other_elems@;
        while i < other_elems.len()
            invariant
                i <= other_seq.len(),
                other_elems@ == other_seq,
                r@ == self@ + other_seq.take(i as int).to_set(),
            decreases other_seq.len() - i,
        {
            let v = other_elems[i].dup();
            r = r.insert(v);
            proof {
                assert(other_seq.take(i + 1).drop_last() =~= other_seq.take(i as int));
                assert(other_seq.take(i + 1).to_set() =~= other_seq.take(
                    i as int,
                ).to_set().insert(other_seq[i as int])) by {
                    let s1 = other_seq.take(i + 1);
                    assert forall|x: T| s1.to_set().contains(x)
                        implies other_seq.take(i as int).to_set().insert(
                        other_seq[i as int],
                    ).contains(x) by {
                        let j = s1.index_of(x);
                        if j < i {
                            assert(other_seq.take(i as int)[j] == x);
                            assert(other_seq.take(i as int).contains(x));
                        }
                    };
                    assert forall|x: T| other_seq.take(i as int).to_set().insert(
                        other_seq[i as int],
                    ).contains(x) implies s1.to_set().contains(x) by {
                        if other_seq.take(i as int).to_set().contains(x) {
                            let j = other_seq.take(i as int).index_of(x);
                            assert(s1[j] == x);
                            assert(s1.contains(x));
                        } else {
                            assert(s1[i as int] == x);
                            assert(s1.contains(x));
                        }
                    };
                };
                assert(r@ =~= self@ + other_seq.take(i + 1).to_set());
            }
            i += 1;
        }
        proof {
            assert(other_seq.take(other_seq.len() as int) =~= other_seq);
            assert(r@ =~= self@ + other_seq.to_set());
        }
        r
    }
}

impl<T: Element> ValueSet<T> {
    /// Duplicate the collection, value by value.
    pub fn dup(&self) -> (r: Self)
        ensures
            r@ == self@,
    {
        proof {
            use_type_invariant(self);
        }
        let mut elems: Vec<T> = Vec::new();
        let mut i: usize = 0;
        while i < self.elems.len()
            invariant
                i <= self.elems@.len(),
                elems@ =~= self.elems@.take(i as int),
            decreases self.elems@.len() - i,
        {
            elems.push(self.elems[i].dup());
            i += 1;
        }
        proof {
            assert(elems@ =~= self.elems@);
        }
        let r = ValueSet { elems };
        proof {
            assert(r@ =~= self@);
        }
        r
    }
}

impl<T: TotalOrdElement> ValueSet<T> {
    /// The least and greatest members, when the collection is not empty.
    pub fn extrema(&self) -> (r: Option<(T, T)>)
        ensures
            match r {
                Some(p) => self@.len() != 0 && p.0 == least_of(self@) && p.1 == greatest_of(
                    self@,
                ),
                None => self@.len() == 0,
            },
    {
        proof {
            use_type_invariant(self);
            self.elems@.unique_seq_to_set();
        }
        if self.elems.len() == 0 {
            return None;
        }
        let mut min_idx: usize = 0;
        let mut max_idx: usize = 0;
        let mut i: usize = 1;
        proof {
            T::lemma_cmp_total(&self.elems@[0], &self.elems@[0]);
        }
        while i < self.elems.len()
            invariant
                1 <= i <= self.elems@.len(),
                min_idx < i,
                max_idx < i,
                forall|j: int|
                    0 <= j < i ==> cmp_le(self.elems@[min_idx as int], #[trigger] self.elems@[j]),
                forall|j: int|
                    0 <= j < i ==> cmp_ge(self.elems@[max_idx as int], #[trigger] self.elems@[j]),
            decreases self.elems@.len() - i,
        {
            proof {
                T::lemma_cmp_total(&self.elems@[i as int], &self.elems@[min_idx as int]);
                T::lemma_cmp_total(&self.elems@[i as int], &self.elems@[max_idx as int]);
            }
            let min_cmp = self.elems[i].cmp_elem(&self.elems[min_idx]);
            proof {
                assert(min_cmp == self.elems@[i as int].cmp_spec(&self.elems@[min_idx as int]));
            }
            match min_cmp {
                Some(Ordering::Less) => {
                    proof {
                        let ghost new_min = self.elems@[i as int];
                        let ghost old_min = self.elems@[min_idx as int];
                        assert forall|j: int| 0 <= j < i + 1 implies cmp_le(
                            new_min,
                            #[trigger] self.elems@[j],
                        ) by {
                            if j < i {
                                T::lemma_cmp_transitive(&new_min, &old_min, &self.elems@[j]);
                            } else {
                                T::lemma_cmp_total(&new_min, &new_min);
                            }
                        };
                    }
                    min_idx = i;
                },
                _ => {
                    proof {
                        let ghost old_min = self.elems@[min_idx as int];
                        let ghost here = self.elems@[i as int];
                        T::lemma_cmp_total(&old_min, &here);
                        T::lemma_cmp_flip(&here, &old_min);
                        assert(cmp_le(old_min, here));
                    }
                },
            }
            let max_cmp = self.elems[i].cmp_elem(&self.elems[max_idx]);
            proof {
                assert(max_cmp == self.elems@[i as int].cmp_spec(&self.elems@[max_idx as int]));
            }
            match max_cmp {
                Some(Ordering::Greater) => {
                    proof {
                        let ghost new_max = self.elems@[i as int];
                        let ghost old_max = self.elems@[max_idx as int];
                        T::lemma_cmp_flip(&old_max, &new_max);
                        assert forall|j: int| 0 <= j < i + 1 implies cmp_ge(
                            new_max,
                            #[trigger] self.elems@[j],
                        ) by {
                            if j < i {
                                let other = self.elems@[j];
                                T::lemma_cmp_flip(&other, &old_max);
                                T::lemma_cmp_transitive(&other, &old_max, &new_max);
                                T::lemma_cmp_flip(&other, &new_max);
                            } else {
                                T::lemma_cmp_total(&new_max, &new_max);
                            }
                        };
                    }
                    max_idx = i;
                },
                _ => {
                    proof {
                        let ghost old_max = self.elems@[max_idx as int];
                        let ghost here = self.elems@[i as int];
                        T::lemma_cmp_total(&old_max, &here);
                        T::lemma_cmp_flip(&here, &old_max);
                        assert(cmp_ge(old_max, here));
                    }
                },
            }
            i += 1;
        }
        let lo = self.elems[min_idx].dup();
        let hi = self.elems[max_idx].dup();
        proof {
            assert(is_least_of(lo, self@)) by {
                assert(self.elems@.contains(lo)) by {
                    assert(self.elems@[min_idx as int] == lo);
                };
                assert forall|x: T| self@.contains(x) implies cmp_le(lo, x) by {
                    let j = self.elems@.index_of(x);
                    assert(self.elems@[j] == x);
                };
            };
            assert(is_greatest_of(hi, self@)) by {
                assert(self.elems@.contains(hi)) by {
                    assert(self.elems@[max_idx as int] == hi);
                };
                assert forall|x: T| self@.contains(x) implies cmp_ge(hi, x) by {
                    let j = self.elems@.index_of(x);
                    assert(self.elems@[j] == x);
                };
            };
            lemma_least_unique(self@, lo, least_of(self@));
            lemma_greatest_unique(self@, hi, greatest_of(self@));
        }
        Some((lo, hi))
    }
}

} // verus!
