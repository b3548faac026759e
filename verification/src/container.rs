use vstd::prelude::*;

use crate::rule::Duplicate;
use crate::rule::Rule;

verus! {

/// A value bound to the rule it must satisfy.
///
/// A container comes into existence only through [`Invariant::try_from_inner`],
/// which rejects a value the rule does not accept, and the only mutating entry
/// points re-check the rule and keep the previous value when the check fails.
/// So wherever a container is observed from outside its own methods, the value
/// it guards satisfies its rule — with the one deliberate exception of a failed
/// [`Invariant::with_inner_mut_check`], which installs the adjusted rule even
/// though the rolled-back value may not satisfy it.
#[derive(Debug, Clone, Copy)]
pub struct Invariant<T, F> {
    check: F,
    inner: T,
}

impl<T, F> View for Invariant<T, F> {
    type V = T;

    /// The guarded value.
    closed spec fn view(&self) -> T {
        self.inner
    }
}

impl<T, F> Invariant<T, F> {
    /// The rule guarding the value.
    pub closed spec fn rule(&self) -> F {
        self.check
    }
}

impl<T, F: Rule<T>> Invariant<T, F> {
    /// The guarded value satisfies the rule.
    pub open spec fn wf(&self) -> bool {
        self.rule().holds(self@)
    }
}

impl<T, F> Invariant<T, F> {
    /// A read-only view of the guarded value; the single path by which every
    /// read-only capability reaches it.
    pub fn as_inner_ref(&self) -> (r: &T)
        ensures
            *r == self@,
    {
        &self.inner
    }

    /// Consume the container, discard the rule and hand the bare value back.
    pub fn into_inner(self) -> (r: T)
        ensures
            r == self@,
    {
        self.inner
    }
}

impl<T: Duplicate, F: Rule<T>> Invariant<T, F> {
    /// Take ownership of a value and a rule; hand a container back exactly
    /// when the rule accepts an owned snapshot of the value.
    pub fn try_from_inner(inner: T, check: F) -> (r: Option<Self>)
        ensures
            r is Some <==> check.holds(inner),
            r matches Some(c) ==> c@ == inner && c.rule() == check && c.wf(),
    {
        if check.check(inner.duplicate()) {
            Some(Invariant { check, inner })
        } else {
            None
        }
    }

    /// Apply `op` to the guarded value as a transaction: the new value is
    /// installed and the operation's result returned exactly when the rule
    /// accepts the new value; otherwise the previous value stays and the
    /// result is discarded. The rule itself is never touched.
    pub fn with_inner_mut<R, Op: FnOnce(T) -> (T, R)>(&mut self, op: Op) -> (res: Option<R>)
        requires
            call_requires(op, (old(self)@,)),
        ensures
            final(self).rule() == old(self).rule(),
            match res {
                Some(r) => {
                    &&& call_ensures(op, (old(self)@,), (final(self)@, r))
                    &&& old(self).rule().holds(final(self)@)
                },
                None => {
                    &&& final(self)@ == old(self)@
                    &&& exists|m: T, r: R|
                        #[trigger] call_ensures(op, (old(self)@,), (m, r))
                            && !old(self).rule().holds(m)
                },
            },
    {
        let snapshot = self.inner.duplicate();
        let (cand, r) = op(snapshot);
        if self.check.check(cand.duplicate()) {
            self.inner = cand;
            Some(r)
        } else {
            proof {
                assert(call_ensures(op, (old(self)@,), (cand, r)));
            }
            None
        }
    }
}

impl<T: Duplicate, F: Rule<T> + Duplicate> Invariant<T, F> {
    /// Apply `op` to the guarded value and to the rule in one transaction.
    /// Only the value is transactional: a failed re-check rolls the value back
    /// but leaves the adjusted rule installed, and the adjusted rule is what
    /// the re-check runs against.
    pub fn with_inner_mut_check<R, Op: FnOnce(T, F) -> (T, F, R)>(&mut self, op: Op) -> (res:
        Option<R>)
        requires
            call_requires(op, (old(self)@, old(self).rule())),
        ensures
            match res {
                Some(r) => {
                    &&& call_ensures(
                        op,
                        (old(self)@, old(self).rule()),
                        (final(self)@, final(self).rule(), r),
                    )
                    &&& final(self).wf()
                },
                None => {
                    &&& final(self)@ == old(self)@
                    &&& exists|m: T, r: R|
                        #[trigger] call_ensures(
                            op,
                            (old(self)@, old(self).rule()),
                            (m, final(self).rule(), r),
                        ) && !final(self).rule().holds(m)
                },
            },
    {
        let snapshot = self.inner.duplicate();
        let rule_copy = self.check.duplicate();
        let (cand, new_check, r) = op(snapshot, rule_copy);
        let ok = new_check.check(cand.duplicate());
        self.check = new_check;
        if ok {
            self.inner = cand;
            Some(r)
        } else {
            proof {
                assert(call_ensures(
                    op,
                    (old(self)@, old(self).rule()),
                    (cand, self.check, r),
                ));
            }
            None
        }
    }
}

impl<T: Duplicate, F: Duplicate> Invariant<T, F> {
    /// A new container guarding an owned copy of the value under an owned
    /// copy of the rule. The check is not re-run: a duplicate is equal to its
    /// original, so it satisfies exactly the rules the original satisfies.
    pub fn to_owned_inner(&self) -> (r: Self)
        ensures
            r@ == self@,
            r.rule() == self.rule(),
    {
        Invariant { check: self.check.duplicate(), inner: self.inner.duplicate() }
    }
}

} // verus!
