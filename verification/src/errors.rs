//! Errors surfaced by the client cache.

use vstd::prelude::*;

verus! {

/// Why a requested client handle could not be produced.
///
/// Every error is reported synchronously to the caller of
/// [`crate::cache::ClientCache::get_or_create`]; a failed call leaves the
/// cache exactly as it was.
#[derive(Clone, Copy, Debug, PartialEq, Eq, Structural)]
pub enum ConstructionError {
    /// The account identifier is malformed: it is the empty string.
    EmptyAccountId,
    /// No usable credential could be acquired from the ambient environment.
    AuthenticationFailed,
}

impl ConstructionError {
    /// A short human-readable description of the error.
    pub fn message(&self) -> (r: &'static str)
        ensures
            *self is EmptyAccountId ==> r@ == "account identifier must not be empty"@,
            *self is AuthenticationFailed ==> r@ == "no usable credential source was available"@,
    {
        match self {
            ConstructionError::EmptyAccountId => "account identifier must not be empty",
            ConstructionError::AuthenticationFailed => "no usable credential source was available",
        }
    }
}

} // verus!
