//! The ways in which an operation on the registry is rejected.

use vstd::prelude::*;

verus! {

/// Why an operation was rejected. A rejected operation changes nothing.
#[derive(Clone, Copy, Debug, PartialEq, Eq, Structural)]
pub enum DelinkError {
    /// The caller lacks the identity or the relationship that the operation asks for.
    AuthorizationError,
    /// The two relations offered for an acknowledgment do not point at one profile.
    ProfilesNotLinkedError,
    /// A relation from a profile to itself was asked for.
    CyclicLinkError,
    /// The address derived for the new record is already occupied.
    AlreadyExists,
    /// The parent's attachment counter cannot advance any further.
    Overflow,
    /// A profile, relation or attachment that the operation refers to does not exist.
    NotFound,
    /// No disambiguator gives the key fields a usable address.
    AddressNotDerivable,
}

} // verus!
