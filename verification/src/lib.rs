//! A generic value container that binds a value to the rule it must satisfy.
//!
//! A container is built only by a validating constructor, every mutation is
//! re-checked against the rule, and a failed mutation leaves the previously
//! valid value in place. For everything except mutation — equality, ordering,
//! dereferencing, indexing — the container forwards to the guarded value and
//! behaves as the bare value would.

pub mod container;
pub mod error;
pub mod forward;
pub mod laws;
pub mod rule;

pub use crate::container::Invariant;
pub use crate::error::InvariantError;
pub use crate::rule::AllPositiveTriple;
pub use crate::rule::AtLeast;
pub use crate::rule::Between;
pub use crate::rule::Duplicate;
pub use crate::rule::IsPositive;
pub use crate::rule::Rule;
