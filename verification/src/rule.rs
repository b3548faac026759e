use vstd::prelude::*;

verus! {

/// A rule that a guarded value must satisfy.
///
/// `holds` is the mathematical meaning of the rule; `check` is the executable
/// test, and every implementation must make the two agree. The rule consumes
/// an owned snapshot of the value, so implementations may normalize or take
/// the value apart freely. A rule is assumed deterministic for a given
/// snapshot, which the agreement with `holds` enforces here.
pub trait Rule<T> {
    /// What the rule means.
    spec fn holds(&self, v: T) -> bool;

    /// Decide the rule on an owned snapshot of the value.
    fn check(&self, v: T) -> (r: bool)
        ensures
            r == self.holds(v),
    ;
}

/// Exact duplication of a value: the copy is equal to the original.
///
/// Containers take their defensive snapshots (the copy handed to the rule,
/// and the rollback copy of a mutation) through this trait.
pub trait Duplicate: Sized {
    /// Produce an owned copy equal to `self`.
    fn duplicate(&self) -> (r: Self)
        ensures
            r == *self,
    ;
}

impl<T: Copy> Duplicate for T {
    fn duplicate(&self) -> (r: Self) {
        *self
    }
}

/// The rule "the value is strictly positive".
#[derive(Clone, Copy, Debug)]
pub struct IsPositive;

impl Rule<i64> for IsPositive {
    open spec fn holds(&self, v: i64) -> bool {
        v > 0
    }

    fn check(&self, v: i64) -> (r: bool) {
        v > 0
    }
}

/// The rule "the value is at least `min`".
#[derive(Clone, Copy, Debug)]
pub struct AtLeast {
    pub min: i64,
}

impl Rule<i64> for AtLeast {
    open spec fn holds(&self, v: i64) -> bool {
        v >= self.min
    }

    fn check(&self, v: i64) -> (r: bool) {
        v >= self.min
    }
}

/// The rule "every component of the triple is strictly positive".
#[derive(Clone, Copy, Debug)]
pub struct AllPositiveTriple;

impl Rule<[i64; 3]> for AllPositiveTriple {
    open spec fn holds(&self, v: [i64; 3]) -> bool {
        v@[0] > 0 && v@[1] > 0 && v@[2] > 0
    }

    fn check(&self, v: [i64; 3]) -> (r: bool) {
        v[0] > 0 && v[1] > 0 && v[2] > 0
    }
}

/// The rule "the value lies between `lo` and `hi`, both included".
#[derive(Clone, Copy, Debug)]
pub struct Between {
    pub lo: i64,
    pub hi: i64,
}

impl Rule<i64> for Between {
    open spec fn holds(&self, v: i64) -> bool {
        self.lo <= v <= self.hi
    }

    fn check(&self, v: i64) -> (r: bool) {
        self.lo <= v && v <= self.hi
    }
}

} // verus!
