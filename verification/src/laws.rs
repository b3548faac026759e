use vstd::prelude::*;

use crate::container::Invariant;
use crate::rule::Rule;
use vstd::std_specs::cmp::PartialEqSpec;
use vstd::std_specs::cmp::PartialOrdSpec;

verus! {

/// Forwarding fidelity, equality: containers compare exactly as the bare
/// values they guard, whatever rules guard them — the container's `==` means
/// the guarded values' `==`, and it is faithful to that meaning precisely
/// when the value type's own `==` is faithful to its.
pub proof fn lemma_eq_forwards<T: PartialEq<U>, U, F, G>(a: Invariant<T, F>, b: Invariant<U, G>)
    ensures
        a.eq_spec(&b) == a@.eq_spec(&b@),
        <Invariant<T, F> as PartialEqSpec<Invariant<U, G>>>::obeys_eq_spec()
            == <T as PartialEqSpec<U>>::obeys_eq_spec(),
{
}

/// Forwarding fidelity, ordering: containers order exactly as the bare values
/// they guard, whatever rules guard them.
pub proof fn lemma_ord_forwards<T: PartialOrd<U>, U, F, G>(a: Invariant<T, F>, b: Invariant<U, G>)
    ensures
        a.partial_cmp_spec(&b) == a@.partial_cmp_spec(&b@),
        <Invariant<T, F> as PartialOrdSpec<Invariant<U, G>>>::obeys_partial_cmp_spec()
            == <T as PartialOrdSpec<U>>::obeys_partial_cmp_spec(),
{
}

/// Ownership round-trip: the value a well-formed container hands out through
/// `into_inner` still satisfies the rule that guarded it. By the contract of
/// `try_from_inner`, wrapping that value again under the same rule is
/// therefore guaranteed to produce a container guarding an equal value under
/// an equal rule.
pub proof fn lemma_round_trip<T, F: Rule<T>>(c: Invariant<T, F>)
    requires
        c.wf(),
    ensures
        c.rule().holds(c@),
{
}

} // verus!
