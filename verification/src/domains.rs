//! Ready-made domains and codomains: the whole element type, and a finite
//! enumeration of members.

use vstd::prelude::*;

verus! {

use core::marker::PhantomData;
use crate::element::EqElement;
use crate::polifunction::{Domain, Codomain};

/// The domain that contains every element of its type.
pub struct FullDomain<T> {
    marker: PhantomData<T>,
}

impl<T> FullDomain<T> {
    pub fn new() -> Self {
        FullDomain { marker: PhantomData }
    }
}

impl<T> Domain for FullDomain<T> {
    type Element = T;

    open spec fn spec_contains(&self, element: &T) -> bool {
        true
    }

    fn contains(&self, element: &T) -> (r: bool) {
        true
    }
}

impl<T> Codomain for FullDomain<T> {
    type Element = T;

    open spec fn spec_contains(&self, element: &T) -> bool {
        true
    }

    fn contains(&self, element: &T) -> (r: bool) {
        true
    }
}

/// A domain given by a finite list of members.
pub struct FiniteDomain<T> {
    pub members: Vec<T>,
}

impl<T> FiniteDomain<T> {
    pub fn new(members: Vec<T>) -> (r: Self)
        ensures
            r == (FiniteDomain { members }),
    {
        FiniteDomain { members }
    }
}

impl<T: EqElement> FiniteDomain<T> {
    fn member_search(&self, element: &T) -> (r: bool)
        ensures
            r == self.members@.contains(*element),
    {
        let mut i: usize = 0;
        while i < self.members.len()
            invariant
                i <= self.members@.len(),
                forall|j: int| 0 <= j < i ==> self.members@[j] != *element,
            decreases self.members@.len() - i,
        {
            if self.members[i].eq_elem(element) {
                assert(self.members@.contains(*element));
                return true;
            }
            i += 1;
        }
        assert(!self.members@.contains(*element)) by {
            if self.members@.contains(*element) {
                let j = choose|j: int|
                    0 <= j < self.members@.len() && self.members@[j] == *element;
            }
        };
        false
    }
}

impl<T: EqElement> Domain for FiniteDomain<T> {
    type Element = T;

    open spec fn spec_contains(&self, element: &T) -> bool {
        self.members@.contains(*element)
    }

    fn contains(&self, element: &T) -> (r: bool) {
        self.member_search(element)
    }
}

impl<T: EqElement> Codomain for FiniteDomain<T> {
    type Element = T;

    open spec fn spec_contains(&self, element: &T) -> bool {
        self.members@.contains(*element)
    }

    fn contains(&self, element: &T) -> (r: bool) {
        self.member_search(element)
    }
}

} // verus!
