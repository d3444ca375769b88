//! The marketplace: registers owner and user identities, verifies
//! car-ownership proofs, and lists cars by instantiating one rental engine
//! per listing. After listing, callers drive the engines through the
//! marketplace's delegating operations, addressed by car identifier.

use vstd::prelude::*;

use std::collections::hash_map::RandomState;

use crate::car_set::{car_set_contents, car_set_insert, car_set_new};
use crate::engine::{
    initial_engine, rent_transition, return_transition, withdraw_transition, collect_transition,
    Car, CarRental, EngineV,
};
use crate::errors::RentalError;
use crate::registry::{RegistryV, TokenRegistry};
use crate::tokens::{check_proof, OwnerBadge, RentalBadge, TokenId, UserBadge};
use crate::vault::Payment;

verus! {

/// The registry identity of the deployment's root credential.
pub const ROOT_BADGE_REGISTRY: u64 = 1;

/// The registry identity of the marketplace component's own credential,
/// the minting authority of both badge registries.
pub const COMPONENT_REGISTRY: u64 = 2;

/// The registry identity of car owner badges.
pub const OWNER_BADGE_REGISTRY: u64 = 3;

/// The registry identity of user badges.
pub const USER_BADGE_REGISTRY: u64 = 4;

/// The abstract state of a marketplace.
#[verifier::ext_equal]
pub ghost struct MarketV {
    /// The root credential issued once at instantiation.
    pub root: TokenId,
    /// The component's own credential, the badge registries' authority.
    pub credential: TokenId,
    /// The platform fee every listed engine charges per rental.
    pub fee_per_rental: u64,
    /// The registry of car owner badges.
    pub owner_registry: RegistryV,
    /// The registry of user badges.
    pub user_registry: RegistryV,
    /// One rental engine per listed car, in listing order.
    pub engines: Seq<EngineV>,
}

impl MarketV {
    /// The marketplace's invariant: the credentials and registries carry
    /// their declared identities, and every listed engine is well-formed,
    /// numbered by its listing position, charges the marketplace fee,
    /// answers to the marketplace root, and is bound to a registered owner.
    pub open spec fn wf(self) -> bool {
        &&& self.root.registry == ROOT_BADGE_REGISTRY
        &&& self.credential.registry == COMPONENT_REGISTRY
        &&& self.owner_registry.wf()
        &&& self.user_registry.wf()
        &&& self.owner_registry.id == OWNER_BADGE_REGISTRY
        &&& self.user_registry.id == USER_BADGE_REGISTRY
        &&& self.owner_registry.authority == self.credential
        &&& self.user_registry.authority == self.credential
        &&& forall|i: int|
            0 <= i < self.engines.len() ==> {
                &&& (#[trigger] self.engines[i]).wf()
                &&& self.engines[i].car_id == i
                &&& self.engines[i].fee == self.fee_per_rental
                &&& self.engines[i].root == self.root
                &&& self.engines[i].owner.registry == OWNER_BADGE_REGISTRY
                &&& self.owner_registry.minted.contains(self.engines[i].owner.local)
            }
    }

    /// The identifiers of the cars that are available right now.
    pub open spec fn available_car_ids(self) -> Set<u64> {
        Set::new(
            |id: u64| id < self.engines.len() && self.engines[id as int].car_in_inventory,
        )
    }
}

/// A delegated operation touches one engine and nothing else: every other
/// engine and all marketplace state besides the engines stay as they were.
pub open spec fn delegated_to_engine(pre: MarketV, post: MarketV, car_id: u64) -> bool {
    &&& post.root == pre.root
    &&& post.credential == pre.credential
    &&& post.fee_per_rental == pre.fee_per_rental
    &&& post.owner_registry == pre.owner_registry
    &&& post.user_registry == pre.user_registry
    &&& post.engines == pre.engines.update(car_id as int, post.engines[car_id as int])
}

/// Pushing a fresh serial number keeps every number already minted.
proof fn lemma_contains_after_push(m: Seq<u64>, pushed: u64, l: u64)
    requires
        m.contains(l),
    ensures
        m.push(pushed).contains(l),
{
    let k = choose|k: int| 0 <= k < m.len() && m[k] == l;
    assert(m.push(pushed)[k] == l);
}

/// Borrows one engine of the catalog for mutation.
fn engine_at_mut(engines: &mut Vec<CarRental>, i: usize) -> (engine: &mut CarRental)
    requires
        i < old(engines).len(),
    ensures
        *engine == old(engines)@[i as int],
        final(engines)@ == old(engines)@.update(i as int, *final(engine)),
{
    &mut engines[i]
}

/// The marketplace component.
pub struct CarSharing {
    root: TokenId,
    credential: TokenId,
    fee_per_rental: u64,
    owner_registry: TokenRegistry,
    user_registry: TokenRegistry,
    engines: Vec<CarRental>,
}

impl View for CarSharing {
    type V = MarketV;

    closed spec fn view(&self) -> MarketV {
        MarketV {
            root: self.root,
            credential: self.credential,
            fee_per_rental: self.fee_per_rental,
            owner_registry: self.owner_registry@,
            user_registry: self.user_registry@,
            engines: self.engines@.map_values(|e: CarRental| e@),
        }
    }
}

impl CarSharing {
    /// Deploys a marketplace charging `fee_per_rental` per rental, and
    /// issues its root credential to the deployer. The badge registries
    /// start empty and no car is listed.
    pub fn instantiate_car_sharing(fee_per_rental: u64) -> (r: (CarSharing, TokenId))
        ensures
            r.0@ == (MarketV {
                root: (TokenId { registry: ROOT_BADGE_REGISTRY, local: 1 }),
                credential: (TokenId { registry: COMPONENT_REGISTRY, local: 1 }),
                fee_per_rental,
                owner_registry: (RegistryV {
                    id: OWNER_BADGE_REGISTRY,
                    authority: (TokenId { registry: COMPONENT_REGISTRY, local: 1 }),
                    minted: Seq::<u64>::empty(),
                }),
                user_registry: (RegistryV {
                    id: USER_BADGE_REGISTRY,
                    authority: (TokenId { registry: COMPONENT_REGISTRY, local: 1 }),
                    minted: Seq::<u64>::empty(),
                }),
                engines: Seq::<EngineV>::empty(),
            }),
            r.0@.wf(),
            r.1 == r.0@.root,
    {
        let credential = TokenId { registry: COMPONENT_REGISTRY, local: 1 };
        let root = TokenId { registry: ROOT_BADGE_REGISTRY, local: 1 };
        let market = CarSharing {
            root,
            credential,
            fee_per_rental,
            owner_registry: TokenRegistry::new(OWNER_BADGE_REGISTRY, credential),
            user_registry: TokenRegistry::new(USER_BADGE_REGISTRY, credential),
            engines: Vec::new(),
        };
        proof {
            assert(market@.engines =~= Seq::<EngineV>::empty());
        }
        (market, root)
    }

    /// Registers a car owner: the presented ownership proof must be the
    /// expected attestation, else the registration fails with
    /// `AuthorizationFailure` and mints nothing. On success a fresh owner
    /// badge with the given serial number is minted and handed out.
    pub fn create_car_owner_account(
        &mut self,
        name: String,
        number: u64,
        car_proof: String,
    ) -> (r: Result<OwnerBadge, RentalError>)
        requires
            old(self)@.wf(),
            car_proof@ == "Valid Car"@ ==> !old(self)@.owner_registry.minted.contains(number),
        ensures
            final(self)@.wf(),
            r is Ok <==> car_proof@ == "Valid Car"@,
            r is Ok ==> final(self)@.owner_registry.minted.contains(number),
            (match r {
                Ok(badge) => badge.id == (TokenId { registry: OWNER_BADGE_REGISTRY, local: number })
                    && badge.owner_name == name && badge.owner_number == number && final(self)@
                    == (MarketV {
                    owner_registry: (RegistryV {
                        minted: old(self)@.owner_registry.minted.push(number),
                        ..old(self)@.owner_registry
                    }),
                    ..old(self)@
                }),
                Err(e) => e == RentalError::AuthorizationFailure && final(self)@ == old(self)@,
            }),
    {
        let ghost pre = self@;
        let expected: String = "Valid Car".to_owned();
        if !(car_proof == expected) {
            return Err(RentalError::AuthorizationFailure);
        }
        let cred = self.credential;
        match self.owner_registry.mint(cred, number) {
            Ok(id) => {
                proof {
                    assert forall|i: int|
                        0 <= i < self@.engines.len() implies self@.owner_registry.minted.contains(
                        #[trigger] self@.engines[i].owner.local,
                    ) by {
                        lemma_contains_after_push(
                            pre.owner_registry.minted,
                            number,
                            pre.engines[i].owner.local,
                        );
                    }
                }
                Ok(OwnerBadge { id, owner_name: name, owner_number: number })
            },
            Err(e) => Err(e),
        }
    }

    /// Registers a user: the presented driving-license proof must be the
    /// expected attestation, else the registration fails with
    /// `AuthorizationFailure` and mints nothing. On success a fresh user
    /// badge with the given serial number is minted, recording the license.
    pub fn create_user_account(
        &mut self,
        name: String,
        number: u64,
        driving_license_proof: String,
    ) -> (r: Result<UserBadge, RentalError>)
        requires
            old(self)@.wf(),
            driving_license_proof@ == "Valid Driving License"@ ==> !old(
                self,
            )@.user_registry.minted.contains(number),
        ensures
            final(self)@.wf(),
            r is Ok <==> driving_license_proof@ == "Valid Driving License"@,
            r is Ok ==> final(self)@.user_registry.minted.contains(number),
            (match r {
                Ok(badge) => badge.id == (TokenId { registry: USER_BADGE_REGISTRY, local: number })
                    && badge.user_name == name && badge.user_number == number
                    && badge.driving_license == driving_license_proof && final(self)@ == (MarketV {
                    user_registry: (RegistryV {
                        minted: old(self)@.user_registry.minted.push(number),
                        ..old(self)@.user_registry
                    }),
                    ..old(self)@
                }),
                Err(e) => e == RentalError::AuthorizationFailure && final(self)@ == old(self)@,
            }),
    {
        let expected: String = "Valid Driving License".to_owned();
        if !(driving_license_proof == expected) {
            return Err(RentalError::AuthorizationFailure);
        }
        let cred = self.credential;
        match self.user_registry.mint(cred, number) {
            Ok(id) => Ok(
                UserBadge {
                    id,
                    user_name: name,
                    user_number: number,
                    driving_license: driving_license_proof,
                },
            ),
            Err(e) => Err(e),
        }
    }

    /// Mints an owner badge under the root credential, for administrative
    /// onboarding. Any other presented identity fails with
    /// `AuthorizationFailure` and mints nothing.
    pub fn mint_car_owner_badge(&mut self, presented: TokenId, name: String, number: u64) -> (r:
        Result<OwnerBadge, RentalError>)
        requires
            old(self)@.wf(),
            presented == old(self)@.root ==> !old(self)@.owner_registry.minted.contains(number),
        ensures
            final(self)@.wf(),
            r is Ok <==> presented == old(self)@.root,
            r is Ok ==> final(self)@.owner_registry.minted.contains(number),
            (match r {
                Ok(badge) => badge.id == (TokenId { registry: OWNER_BADGE_REGISTRY, local: number })
                    && badge.owner_name == name && badge.owner_number == number && final(self)@
                    == (MarketV {
                    owner_registry: (RegistryV {
                        minted: old(self)@.owner_registry.minted.push(number),
                        ..old(self)@.owner_registry
                    }),
                    ..old(self)@
                }),
                Err(e) => e == RentalError::AuthorizationFailure && final(self)@ == old(self)@,
            }),
    {
        let ghost pre = self@;
        if !(presented == self.root) {
            return Err(RentalError::AuthorizationFailure);
        }
        let cred = self.credential;
        match self.owner_registry.mint(cred, number) {
            Ok(id) => {
                proof {
                    assert forall|i: int|
                        0 <= i < self@.engines.len() implies self@.owner_registry.minted.contains(
                        #[trigger] self@.engines[i].owner.local,
                    ) by {
                        lemma_contains_after_push(
                            pre.owner_registry.minted,
                            number,
                            pre.engines[i].owner.local,
                        );
                    }
                }
                Ok(OwnerBadge { id, owner_name: name, owner_number: number })
            },
            Err(e) => Err(e),
        }
    }

    /// Mints a user badge under the root credential, for administrative
    /// onboarding; no driving license is recorded. Any other presented
    /// identity fails with `AuthorizationFailure` and mints nothing.
    pub fn mint_user_badge(&mut self, presented: TokenId, name: String, number: u64) -> (r: Result<
        UserBadge,
        RentalError,
    >)
        requires
            old(self)@.wf(),
            presented == old(self)@.root ==> !old(self)@.user_registry.minted.contains(number),
        ensures
            final(self)@.wf(),
            r is Ok <==> presented == old(self)@.root,
            r is Ok ==> final(self)@.user_registry.minted.contains(number),
            (match r {
                Ok(badge) => badge.id == (TokenId { registry: USER_BADGE_REGISTRY, local: number })
                    && badge.user_name == name && badge.user_number == number
                    && badge.driving_license@ == Seq::<char>::empty() && final(self)@ == (MarketV {
                    user_registry: (RegistryV {
                        minted: old(self)@.user_registry.minted.push(number),
                        ..old(self)@.user_registry
                    }),
                    ..old(self)@
                }),
                Err(e) => e == RentalError::AuthorizationFailure && final(self)@ == old(self)@,
            }),
    {
        if !(presented == self.root) {
            return Err(RentalError::AuthorizationFailure);
        }
        let cred = self.credential;
        match self.user_registry.mint(cred, number) {
            Ok(id) => Ok(
                UserBadge {
                    id,
                    user_name: name,
                    user_number: number,
                    driving_license: String::new(),
                },
            ),
            Err(e) => Err(e),
        }
    }

    /// Lists a car: the presented proof must identify a registered owner —
    /// its registry must be the owner-badge registry and its serial number
    /// must have been minted — else the listing fails with
    /// `AuthorizationFailure`. On success a fresh engine is instantiated,
    /// bound to that owner, charging the given rate and the marketplace
    /// fee, with the new car available.
    pub fn add_car(&mut self, car_owner_proof: TokenId, car: Car, price_per_hour: u64) -> (r:
        Result<(), RentalError>)
        requires
            old(self)@.wf(),
        ensures
            final(self)@.wf(),
            r is Ok <==> (car_owner_proof.registry == OWNER_BADGE_REGISTRY && old(
                self,
            )@.owner_registry.minted.contains(car_owner_proof.local)),
            (match r {
                Ok(()) => final(self)@ == (MarketV {
                    engines: old(self)@.engines.push(
                        initial_engine(
                            car,
                            old(self)@.engines.len() as u64,
                            car_owner_proof,
                            price_per_hour,
                            old(self)@.fee_per_rental,
                            old(self)@.root,
                        ),
                    ),
                    ..old(self)@
                }),
                Err(e) => e == RentalError::AuthorizationFailure && final(self)@ == old(self)@,
            }),
    {
        let ghost pre = self@;
        let local = match check_proof(car_owner_proof, OWNER_BADGE_REGISTRY) {
            Ok(local) => local,
            Err(e) => {
                return Err(e);
            },
        };
        if !self.owner_registry.was_minted(local) {
            return Err(RentalError::AuthorizationFailure);
        }
        let car_id = self.engines.len() as u64;
        let fee = self.fee_per_rental;
        let root = self.root;
        let engine = CarRental::instantiate_car_rental(
            car,
            car_id,
            car_owner_proof,
            price_per_hour,
            fee,
            root,
        );
        self.engines.push(engine);
        proof {
            assert(self@.engines =~= pre.engines.push(
                initial_engine(
                    car,
                    pre.engines.len() as u64,
                    car_owner_proof,
                    price_per_hour,
                    pre.fee_per_rental,
                    pre.root,
                ),
            ));
        }
        Ok(())
    }

    /// How many cars are listed.
    pub fn car_count(&self) -> (r: u64)
        ensures
            r == self@.engines.len(),
    {
        self.engines.len() as u64
    }

    /// The platform fee charged per rental.
    pub fn fee_per_rental(&self) -> (r: u64)
        ensures
            r == self@.fee_per_rental,
    {
        self.fee_per_rental
    }

    /// Whether an owner badge with this serial number was already minted.
    pub fn owner_number_taken(&self, number: u64) -> (r: bool)
        ensures
            r == self@.owner_registry.minted.contains(number),
    {
        self.owner_registry.was_minted(number)
    }

    /// Whether a user badge with this serial number was already minted.
    pub fn user_number_taken(&self, number: u64) -> (r: bool)
        ensures
            r == self@.user_registry.minted.contains(number),
    {
        self.user_registry.was_minted(number)
    }

    /// Read access to one listed car's engine.
    pub fn engine(&self, car_id: u64) -> (r: &CarRental)
        requires
            car_id < self@.engines.len(),
        ensures
            r@ == self@.engines[car_id as int],
    {
        let n = self.engines.len();
        &self.engines[car_id as usize]
    }

    /// Whether the listed car with this identifier can be rented right now.
    pub fn is_available(&self, car_id: u64) -> (r: bool)
        requires
            car_id < self@.engines.len(),
        ensures
            r == self@.engines[car_id as int].car_in_inventory,
    {
        let n = self.engines.len();
        self.engines[car_id as usize].is_available()
    }

    /// The identifiers of all cars available right now, iterable in listing
    /// order.
    pub fn list_available_cars(&self) -> (r: indexmap::IndexSet<u64, RandomState>)
        ensures
            car_set_contents(r) == self@.available_car_ids(),
    {
        let mut available = car_set_new();
        let n = self.engines.len();
        let mut i: usize = 0;
        while i < n
            invariant
                i <= n,
                n == self@.engines.len(),
                forall|id: u64|
                    car_set_contents(available).contains(id) <==> (id < i && self@.engines[id as int].car_in_inventory),
            decreases n - i,
        {
            if self.engines[i].is_available() {
                car_set_insert(&mut available, i as u64);
            }
            i = i + 1;
        }
        proof {
            assert(car_set_contents(available) =~= self@.available_car_ids());
        }
        available
    }

    /// Rents the listed car with this identifier; see the engine's
    /// `rent_car` for the pricing and escrow contract. The attempt touches
    /// that car's engine and nothing else.
    pub fn rent_car(&mut self, car_id: u64, duration_in_hours: u32, payment: Payment, now: u64) -> (r:
        Result<RentalBadge, (RentalError, Payment)>)
        requires
            old(self)@.wf(),
            car_id < old(self)@.engines.len(),
            old(self)@.engines[car_id as int].rent_accepted(payment@, duration_in_hours) ==> old(
                self,
            )@.engines[car_id as int].rent_fits(payment@),
        ensures
            final(self)@.wf(),
            delegated_to_engine(old(self)@, final(self)@, car_id),
            r is Ok <==> old(self)@.engines[car_id as int].rent_accepted(
                payment@,
                duration_in_hours,
            ),
            (match r {
                Ok(badge) => rent_transition(
                    old(self)@.engines[car_id as int],
                    final(self)@.engines[car_id as int],
                    badge@,
                    payment@,
                    duration_in_hours,
                    now,
                ),
                Err((e, refund)) => final(self)@ == old(self)@ && refund@ == payment@ && (e
                    == RentalError::UnavailableResource <==> !old(self)@.engines[car_id as int].car_in_inventory)
                    && (e == RentalError::InsufficientPayment <==> old(
                    self,
                )@.engines[car_id as int].car_in_inventory && payment@ < old(
                    self,
                )@.engines[car_id as int].rental_price(duration_in_hours)),
            }),
    {
        let ghost pre = self@;
        let n = self.engines.len();
        let i = car_id as usize;
        let engine = engine_at_mut(&mut self.engines, i);
        let r = engine.rent_car(duration_in_hours, payment, now);
        proof {
            assert(self@.engines =~= pre.engines.update(
                car_id as int,
                self@.engines[car_id as int],
            ));
            if self@.engines[car_id as int] == pre.engines[car_id as int] {
                assert(self@.engines =~= pre.engines);
            }
        }
        r
    }

    /// Returns the rented car with this identifier against its badge; see
    /// the engine's `return_car` for the contract. The attempt touches that
    /// car's engine and nothing else.
    pub fn return_car(&mut self, car_id: u64, rental_badge: RentalBadge) -> (r: Result<
        (),
        (RentalError, RentalBadge),
    >)
        requires
            old(self)@.wf(),
            car_id < old(self)@.engines.len(),
        ensures
            final(self)@.wf(),
            delegated_to_engine(old(self)@, final(self)@, car_id),
            r is Ok <==> old(self)@.engines[car_id as int].accepts_return(rental_badge@),
            (match r {
                Ok(()) => return_transition(
                    old(self)@.engines[car_id as int],
                    final(self)@.engines[car_id as int],
                ),
                Err((e, badge)) => final(self)@ == old(self)@ && badge@ == rental_badge@ && e
                    == RentalError::NotFound,
            }),
    {
        let ghost pre = self@;
        let n = self.engines.len();
        let i = car_id as usize;
        let engine = engine_at_mut(&mut self.engines, i);
        proof {
            assert(pre.engines[car_id as int].wf());
        }
        let r = engine.return_car(rental_badge);
        proof {
            assert(self@.engines =~= pre.engines.update(
                car_id as int,
                self@.engines[car_id as int],
            ));
            if self@.engines[car_id as int] == pre.engines[car_id as int] {
                assert(self@.engines =~= pre.engines);
            }
        }
        r
    }

    /// Empties the owner's earnings vault of the listed car with this
    /// identifier, gated on the owner's badge identity; see the engine's
    /// `withdraw_car_owner_vault` for the contract.
    pub fn withdraw_car_owner_vault(&mut self, car_id: u64, car_owner_proof: TokenId) -> (r: Result<
        Payment,
        RentalError,
    >)
        requires
            old(self)@.wf(),
            car_id < old(self)@.engines.len(),
        ensures
            final(self)@.wf(),
            delegated_to_engine(old(self)@, final(self)@, car_id),
            r is Ok <==> car_owner_proof == old(self)@.engines[car_id as int].owner,
            (match r {
                Ok(p) => p@ == old(self)@.engines[car_id as int].owner_balance
                    && withdraw_transition(
                    old(self)@.engines[car_id as int],
                    final(self)@.engines[car_id as int],
                ),
                Err(e) => final(self)@ == old(self)@ && e == RentalError::AuthorizationFailure,
            }),
    {
        let ghost pre = self@;
        let n = self.engines.len();
        let i = car_id as usize;
        let engine = engine_at_mut(&mut self.engines, i);
        let r = engine.withdraw_car_owner_vault(car_owner_proof);
        proof {
            assert(self@.engines =~= pre.engines.update(
                car_id as int,
                self@.engines[car_id as int],
            ));
            if self@.engines[car_id as int] == pre.engines[car_id as int] {
                assert(self@.engines =~= pre.engines);
            }
        }
        r
    }

    /// Empties the fee vault of the listed car with this identifier, gated
    /// on the root credential; see the engine's `collect_fees` for the
    /// contract.
    pub fn collect_fees(&mut self, car_id: u64, credential: TokenId) -> (r: Result<
        Payment,
        RentalError,
    >)
        requires
            old(self)@.wf(),
            car_id < old(self)@.engines.len(),
        ensures
            final(self)@.wf(),
            delegated_to_engine(old(self)@, final(self)@, car_id),
            r is Ok <==> credential == old(self)@.root,
            (match r {
                Ok(p) => p@ == old(self)@.engines[car_id as int].fee_balance && collect_transition(
                    old(self)@.engines[car_id as int],
                    final(self)@.engines[car_id as int],
                ),
                Err(e) => final(self)@ == old(self)@ && e == RentalError::AuthorizationFailure,
            }),
    {
        let ghost pre = self@;
        let n = self.engines.len();
        let i = car_id as usize;
        let engine = engine_at_mut(&mut self.engines, i);
        let r = engine.collect_fees(credential);
        proof {
            assert(self@.engines =~= pre.engines.update(
                car_id as int,
                self@.engines[car_id as int],
            ));
            if self@.engines[car_id as int] == pre.engines[car_id as int] {
                assert(self@.engines =~= pre.engines);
            }
        }
        r
    }
}

/// Over the whole catalog: a car's identifier is listed as available
/// exactly when no outstanding rental badge references that car.
pub proof fn lemma_listed_iff_no_outstanding(m: MarketV, car_id: u64)
    requires
        m.wf(),
        car_id < m.engines.len(),
    ensures
        m.available_car_ids().contains(car_id) <==> m.engines[car_id as int].outstanding is None,
{
    assert(m.engines[car_id as int].wf());
}

} // verus!
