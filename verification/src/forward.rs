use vstd::prelude::*;

use crate::container::Invariant;
use std::cmp::Ordering;
use vstd::std_specs::cmp::OrdSpec;
use vstd::std_specs::cmp::PartialEqSpec;
use vstd::std_specs::cmp::PartialOrdSpec;

verus! {

// Equality of containers is equality of the guarded values: the rules take no
// part in it, so containers guarding equal values under different rules
// compare equal, exactly as the bare values would.
impl<T: PartialEq<U>, U, F, G> vstd::std_specs::cmp::PartialEqSpecImpl<Invariant<U, G>> for Invariant<T, F> {
    open spec fn obeys_eq_spec() -> bool {
        <T as PartialEqSpec<U>>::obeys_eq_spec()
    }

    open spec fn eq_spec(&self, other: &Invariant<U, G>) -> bool {
        self@.eq_spec(&other@)
    }
}

impl<T: PartialEq<U>, U, F, G> PartialEq<Invariant<U, G>> for Invariant<T, F> {
    fn eq(&self, other: &Invariant<U, G>) -> (r: bool) {
        self.as_inner_ref().eq(other.as_inner_ref())
    }

    fn ne(&self, other: &Invariant<U, G>) -> (r: bool) {
        self.as_inner_ref().ne(other.as_inner_ref())
    }
}

impl<T: Eq, F> Eq for Invariant<T, F> {

}

// Ordering of containers is ordering of the guarded values.
impl<T: PartialOrd<U>, U, F, G> vstd::std_specs::cmp::PartialOrdSpecImpl<Invariant<U, G>> for Invariant<T, F> {
    open spec fn obeys_partial_cmp_spec() -> bool {
        <T as PartialOrdSpec<U>>::obeys_partial_cmp_spec()
    }

    open spec fn partial_cmp_spec(&self, other: &Invariant<U, G>) -> Option<Ordering> {
        self@.partial_cmp_spec(&other@)
    }
}

impl<T: PartialOrd<U>, U, F, G> PartialOrd<Invariant<U, G>> for Invariant<T, F> {
    fn partial_cmp(&self, other: &Invariant<U, G>) -> (r: Option<Ordering>) {
        self.as_inner_ref().partial_cmp(other.as_inner_ref())
    }

    fn lt(&self, other: &Invariant<U, G>) -> (r: bool) {
        self.as_inner_ref().lt(other.as_inner_ref())
    }

    fn le(&self, other: &Invariant<U, G>) -> (r: bool) {
        self.as_inner_ref().le(other.as_inner_ref())
    }

    fn gt(&self, other: &Invariant<U, G>) -> (r: bool) {
        self.as_inner_ref().gt(other.as_inner_ref())
    }

    fn ge(&self, other: &Invariant<U, G>) -> (r: bool) {
        self.as_inner_ref().ge(other.as_inner_ref())
    }
}

impl<T: Ord, F> Invariant<T, F> {
    /// Total-order comparison forwarded to the guarded values.
    pub fn cmp_inner(&self, other: &Self) -> (r: Ordering)
        ensures
            <T as OrdSpec>::obeys_cmp_spec() ==> r == self@.cmp_spec(&other@),
    {
        self.as_inner_ref().cmp(other.as_inner_ref())
    }
}

// Indexed access forwards to the guarded value, under the value's own
// conditions, and yields a borrowed view of the indexed element.
impl<T: core::ops::Index<Idx>, Idx, F> vstd::std_specs::core::IndexSpecImpl<Idx> for Invariant<T, F> {
    open spec fn index_req(&self, index: &Idx) -> bool {
        <T as vstd::std_specs::core::IndexSpec<Idx>>::index_req(&self@, index)
    }
}

impl<T: core::ops::Index<Idx>, Idx, F> core::ops::Index<Idx> for Invariant<T, F> {
    type Output = T::Output;

    fn index(&self, index: Idx) -> (r: &T::Output) {
        self.as_inner_ref().index(index)
    }
}

// A container may stand wherever a read-only view of the guarded value is
// wanted: dereferencing yields the same view `as_inner_ref` yields.
impl<T, F> core::ops::Deref for Invariant<T, F> {
    type Target = T;

    fn deref(&self) -> (r: &T)
        ensures
            *r == self@,
    {
        self.as_inner_ref()
    }
}

} // verus!
