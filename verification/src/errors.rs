//! The error taxonomy shared by every operation of the marketplace.

use vstd::prelude::*;

verus! {

/// Why an operation was refused. Every check is made before any state
/// mutation, so an operation that returns an error has changed nothing.
#[derive(Clone, Copy, Debug, PartialEq, Eq, Structural)]
pub enum RentalError {
    /// The presented capability does not match the required identity or role.
    AuthorizationFailure,
    /// The car is already rented out.
    UnavailableResource,
    /// The payment offered is below the computed rental price.
    InsufficientPayment,
    /// A referenced badge, escrow or owner record is absent.
    NotFound,
    /// A vault was asked for more than it holds.
    InsufficientFunds,
}

impl RentalError {
    /// A human-readable name for the error.
    pub fn describe(&self) -> (r: &'static str)
        ensures
            r@ == self.describe_spec(),
    {
        match self {
            RentalError::AuthorizationFailure => "authorization failure",
            RentalError::UnavailableResource => "unavailable resource",
            RentalError::InsufficientPayment => "insufficient payment",
            RentalError::NotFound => "not found",
            RentalError::InsufficientFunds => "insufficient funds",
        }
    }

    /// What `describe` returns for each variant.
    pub open spec fn describe_spec(&self) -> Seq<char> {
        match self {
            RentalError::AuthorizationFailure => "authorization failure"@,
            RentalError::UnavailableResource => "unavailable resource"@,
            RentalError::InsufficientPayment => "insufficient payment"@,
            RentalError::NotFound => "not found"@,
            RentalError::InsufficientFunds => "insufficient funds"@,
        }
    }
}

} // verus!
