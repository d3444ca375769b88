//! Capability tokens: identities of non-fungible badges and the structural
//! proof checks that gate privileged operations.

use vstd::prelude::*;

use crate::errors::RentalError;

verus! {

/// The global identity of a capability token: the registry that minted it
/// and the token's local serial number within that registry.
///
/// Authorization is structural: an operation compares a presented identity
/// against the registry (and, for singleton checks, the local id) it expects.
#[derive(Clone, Copy, Debug, PartialEq, Eq, Structural)]
pub struct TokenId {
    pub registry: u64,
    pub local: u64,
}

/// An identity badge held by a car owner. Minted once at registration and
/// never mutated afterwards.
#[derive(Debug)]
pub struct OwnerBadge {
    pub id: TokenId,
    pub owner_name: String,
    pub owner_number: u64,
}

/// An identity badge held by a registered user (a renter). Minted once at
/// registration and never mutated afterwards.
#[derive(Debug)]
pub struct UserBadge {
    pub id: TokenId,
    pub user_name: String,
    pub user_number: u64,
    pub driving_license: String,
}

/// The data of one rental episode: which badge was minted for it, the car it
/// references, when it started and for how long it was booked.
#[derive(Clone, Copy, Debug, PartialEq, Eq, Structural)]
pub struct RentalEpisode {
    pub badge_id: u64,
    pub car_id: u64,
    pub start_time: u64,
    pub duration_in_hours: u32,
}

/// The capability token for one active rental episode. Only the rental
/// engine mints one, and returning the car consumes it, so a badge in a
/// caller's hands always stands for an episode the engine opened.
#[derive(Debug)]
pub struct RentalBadge {
    data: RentalEpisode,
}

impl View for RentalBadge {
    type V = RentalEpisode;

    closed spec fn view(&self) -> RentalEpisode {
        self.data
    }
}

impl RentalBadge {
    /// Seals episode data into a badge. Only the engine mints badges.
    pub(crate) fn mint(data: RentalEpisode) -> (badge: RentalBadge)
        ensures
            badge@ == data,
    {
        RentalBadge { data }
    }

    /// The badge's serial number within its engine.
    pub fn badge_id(&self) -> (r: u64)
        ensures
            r == self@.badge_id,
    {
        self.data.badge_id
    }

    /// The car this badge rents.
    pub fn car_id(&self) -> (r: u64)
        ensures
            r == self@.car_id,
    {
        self.data.car_id
    }

    /// When the episode started, as a timestamp supplied by the caller's clock.
    pub fn start_time(&self) -> (r: u64)
        ensures
            r == self@.start_time,
    {
        self.data.start_time
    }

    /// How many hours the episode was booked for.
    pub fn duration_in_hours(&self) -> (r: u32)
        ensures
            r == self@.duration_in_hours,
    {
        self.data.duration_in_hours
    }

    /// The episode data carried by this badge.
    pub fn episode(&self) -> (r: RentalEpisode)
        ensures
            r == self@,
    {
        self.data
    }
}

/// Checks that a presented token was minted by the expected registry and,
/// on success, yields the token's local id as the caller's verified identity.
pub fn check_proof(presented: TokenId, expected_registry: u64) -> (r: Result<u64, RentalError>)
    ensures
        r is Ok <==> presented.registry == expected_registry,
        r matches Ok(local) ==> local == presented.local,
        r is Err ==> r == Err::<u64, RentalError>(RentalError::AuthorizationFailure),
{
    if presented.registry == expected_registry {
        Ok(presented.local)
    } else {
        Err(RentalError::AuthorizationFailure)
    }
}

} // verus!
