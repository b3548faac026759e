use vstd::prelude::*;

verus! {

broadcast use vstd::string::to_string_from_display_ensures_for_str;

/// A two-case failure report for facilities that share one result channel:
/// either the guarded rule was violated, or an unrelated error of type `E`
/// occurred. The invariant-failure case carries no payload.
#[derive(Debug, Hash, PartialEq, Eq, Clone, Copy)]
pub enum InvariantError<E> {
    InvariantFailure,
    OtherError(E),
}

impl<E> Default for InvariantError<E> {
    /// The default report is the invariant-failure case.
    fn default() -> (r: Self)
        ensures
            r == InvariantError::<E>::InvariantFailure,
    {
        InvariantError::InvariantFailure
    }
}

impl<E> InvariantError<E> {
    /// True exactly on the invariant-failure case.
    pub fn is_invariant_failure(&self) -> (r: bool)
        ensures
            r <==> (*self matches InvariantError::InvariantFailure),
    {
        match self {
            InvariantError::InvariantFailure => true,
            InvariantError::OtherError(_) => false,
        }
    }

    /// Invariant failure maps to absent; the other error maps to present.
    pub fn into_other(self) -> (r: Option<E>)
        ensures
            match self {
                InvariantError::InvariantFailure => r is None,
                InvariantError::OtherError(e) => r == Some(e),
            },
    {
        match self {
            InvariantError::InvariantFailure => None,
            InvariantError::OtherError(e) => Some(e),
        }
    }

    /// A short description of the failure case; the wrapped error is named,
    /// not rendered, since rendering belongs to `E` itself.
    pub fn describe(&self) -> (s: String)
        ensures
            (*self matches InvariantError::InvariantFailure) ==> s@ == "An invariant failed to hold"@,
            (*self matches InvariantError::OtherError(_)) ==> s@ == "Another error occurred"@,
    {
        match self {
            InvariantError::InvariantFailure => "An invariant failed to hold".to_string(),
            InvariantError::OtherError(_) => "Another error occurred".to_string(),
        }
    }
}

} // verus!
