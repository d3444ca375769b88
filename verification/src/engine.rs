//! The rental engine: one car's `Available` / `Rented` state machine,
//! together with the escrow vaults it owns.
//!
//! The engine owns the car's inventory slot, the car owner's earnings vault
//! and the platform's fee vault. Funds are split at rental time: the
//! platform fee goes to the fee vault and the remainder of the payment goes
//! to the owner's earnings; returning the car moves no funds. Each rental
//! episode mints a fresh badge, and returning the car consumes it.

use vstd::prelude::*;

use crate::errors::RentalError;
use crate::tokens::{RentalBadge, RentalEpisode, TokenId};
use crate::vault::{Payment, Vault};

verus! {

/// The record of one listed car. Created at listing and immutable
/// afterwards; the owning identity is referenced by badge serial number.
#[derive(Debug)]
pub struct Car {
    pub make: String,
    pub model: String,
    pub year: u32,
    pub vin: String,
    pub mileage: u32,
    pub location: String,
    pub price_per_hour: u64,
    pub owner_badge_id: u64,
}

/// The abstract state of a rental engine: what the contracts speak of.
pub ghost struct EngineV {
    /// The listed car's record.
    pub car: Car,
    /// The car's identifier within its marketplace.
    pub car_id: u64,
    /// The rental rate, in settlement units per hour.
    pub price_per_hour: u64,
    /// The platform fee charged once per rental.
    pub fee: u64,
    /// The global identity of the car owner's badge.
    pub owner: TokenId,
    /// The platform's root credential, required to collect fees.
    pub root: TokenId,
    /// Whether the car's unit sits in the inventory container.
    pub car_in_inventory: bool,
    /// The open rental episode, if the car is rented out.
    pub outstanding: Option<RentalEpisode>,
    /// The balance of the owner's earnings vault.
    pub owner_balance: u64,
    /// The balance of the platform's fee vault.
    pub fee_balance: u64,
    /// The serial number the next rental badge will carry.
    pub next_badge_id: u64,
    /// Every unit of payment this engine ever accepted.
    pub total_received: int,
    /// Every unit withdrawn by the owner or collected by the platform.
    pub total_withdrawn: int,
}

impl EngineV {
    /// The engine's invariant: the car is available exactly when its unit
    /// sits in inventory and no episode is open; an open episode carries a
    /// serial number already issued and references this engine's car; and
    /// funds are conserved: everything received is still escrowed in the
    /// two vaults or was explicitly withdrawn.
    pub open spec fn wf(self) -> bool {
        &&& self.car_in_inventory <==> self.outstanding is None
        &&& self.outstanding matches Some(ep) ==> ep.badge_id < self.next_badge_id
            && ep.car_id == self.car_id
        &&& self.total_withdrawn >= 0
        &&& self.total_received == self.owner_balance + self.fee_balance + self.total_withdrawn
    }

    /// What a rental of the given duration costs.
    pub open spec fn rental_price(self, duration_in_hours: u32) -> int {
        self.price_per_hour * duration_in_hours + self.fee
    }

    /// Whether a rental attempt with this payment succeeds.
    pub open spec fn rent_accepted(self, amount: u64, duration_in_hours: u32) -> bool {
        self.car_in_inventory && amount >= self.rental_price(duration_in_hours)
    }

    /// The machine limits a successful rental must respect: the escrow
    /// balances and the badge serial number stay within their word size.
    pub open spec fn rent_fits(self, amount: u64) -> bool {
        &&& self.owner_balance + amount - self.fee <= u64::MAX
        &&& self.fee_balance + self.fee <= u64::MAX
        &&& self.next_badge_id < u64::MAX
    }

    /// Whether presenting a badge with this episode data closes the open
    /// rental.
    pub open spec fn accepts_return(self, episode: RentalEpisode) -> bool {
        self.outstanding == Some(episode)
    }
}

/// The state a freshly listed car's engine starts in: available, with both
/// vaults empty and no badge issued yet.
pub open spec fn initial_engine(
    car: Car,
    car_id: u64,
    owner: TokenId,
    price_per_hour: u64,
    fee: u64,
    root: TokenId,
) -> EngineV {
    EngineV {
        car,
        car_id,
        price_per_hour,
        fee,
        owner,
        root,
        car_in_inventory: true,
        outstanding: None,
        owner_balance: 0u64,
        fee_balance: 0u64,
        next_badge_id: 0u64,
        total_received: 0int,
        total_withdrawn: 0int,
    }
}

/// How a successful rental changes the engine: the car's unit leaves
/// inventory, a fresh badge is minted for the episode, the fee moves to the
/// fee vault and the remainder of the payment to the owner's earnings, all
/// in one atomic step.
pub open spec fn rent_transition(
    pre: EngineV,
    post: EngineV,
    episode: RentalEpisode,
    amount: u64,
    duration_in_hours: u32,
    now: u64,
) -> bool {
    &&& episode == (RentalEpisode {
        badge_id: pre.next_badge_id,
        car_id: pre.car_id,
        start_time: now,
        duration_in_hours,
    })
    &&& post.car == pre.car
    &&& post.car_id == pre.car_id
    &&& post.price_per_hour == pre.price_per_hour
    &&& post.fee == pre.fee
    &&& post.owner == pre.owner
    &&& post.root == pre.root
    &&& post.car_in_inventory == false
    &&& post.outstanding == Some(episode)
    &&& post.owner_balance == pre.owner_balance + amount - pre.fee
    &&& post.fee_balance == pre.fee_balance + pre.fee
    &&& post.next_badge_id == pre.next_badge_id + 1
    &&& post.total_received == pre.total_received + amount
    &&& post.total_withdrawn == pre.total_withdrawn
}

/// How a successful return changes the engine: the car's unit goes back to
/// inventory and the episode closes; no funds move.
pub open spec fn return_transition(pre: EngineV, post: EngineV) -> bool {
    post == (EngineV { car_in_inventory: true, outstanding: None, ..pre })
}

/// How a successful owner withdrawal changes the engine: the earnings vault
/// is emptied and its whole balance leaves as one payment.
pub open spec fn withdraw_transition(pre: EngineV, post: EngineV) -> bool {
    post == (EngineV {
        owner_balance: 0,
        total_withdrawn: pre.total_withdrawn + pre.owner_balance,
        ..pre
    })
}

/// How a successful fee collection changes the engine: the fee vault is
/// emptied and its whole balance leaves as one payment.
pub open spec fn collect_transition(pre: EngineV, post: EngineV) -> bool {
    post == (EngineV {
        fee_balance: 0,
        total_withdrawn: pre.total_withdrawn + pre.fee_balance,
        ..pre
    })
}

/// The rental engine for one listed car.
pub struct CarRental {
    car: Car,
    car_id: u64,
    price_per_hour: u64,
    fee: u64,
    owner: TokenId,
    root: TokenId,
    car_in_inventory: bool,
    outstanding: Option<RentalEpisode>,
    car_owner_vault: Vault,
    fees_vault: Vault,
    next_badge_id: u64,
    total_received: Ghost<int>,
    total_withdrawn: Ghost<int>,
}

impl View for CarRental {
    type V = EngineV;

    closed spec fn view(&self) -> EngineV {
        EngineV {
            car: self.car,
            car_id: self.car_id,
            price_per_hour: self.price_per_hour,
            fee: self.fee,
            owner: self.owner,
            root: self.root,
            car_in_inventory: self.car_in_inventory,
            outstanding: self.outstanding,
            owner_balance: self.car_owner_vault@,
            fee_balance: self.fees_vault@,
            next_badge_id: self.next_badge_id,
            total_received: self.total_received@,
            total_withdrawn: self.total_withdrawn@,
        }
    }
}

impl CarRental {
    /// Lists a car: binds a fresh engine to the car's record, its owner's
    /// identity and the platform's root credential. The car starts
    /// available, both vaults start empty.
    pub fn instantiate_car_rental(
        car: Car,
        car_id: u64,
        car_owner: TokenId,
        price_per_hour: u64,
        fee: u64,
        root: TokenId,
    ) -> (engine: CarRental)
        ensures
            engine@ == initial_engine(car, car_id, car_owner, price_per_hour, fee, root),
            engine@.wf(),
    {
        CarRental {
            car,
            car_id,
            price_per_hour,
            fee,
            owner: car_owner,
            root,
            car_in_inventory: true,
            outstanding: None,
            car_owner_vault: Vault::new(),
            fees_vault: Vault::new(),
            next_badge_id: 0,
            total_received: Ghost(0int),
            total_withdrawn: Ghost(0int),
        }
    }

    /// Whether the car can be rented right now: a pure read of the
    /// inventory container, with no side effect.
    pub fn is_available(&self) -> (r: bool)
        ensures
            r == self@.car_in_inventory,
    {
        self.car_in_inventory
    }

    /// Rents the car for `duration_in_hours`, paid from `payment`, with the
    /// caller's clock reading `now`.
    ///
    /// The price is `price_per_hour * duration_in_hours + fee`. On success
    /// the whole payment is escrowed — the fee into the fee vault, the rest
    /// into the owner's earnings — and a badge for the fresh episode is
    /// returned. If the car is rented out, or the payment is short, the
    /// attempt fails with the payment refunded in full and nothing changed.
    pub fn rent_car(&mut self, duration_in_hours: u32, payment: Payment, now: u64) -> (r: Result<
        RentalBadge,
        (RentalError, Payment),
    >)
        requires
            old(self)@.wf(),
            old(self)@.rent_accepted(payment@, duration_in_hours) ==> old(self)@.rent_fits(
                payment@,
            ),
        ensures
            final(self)@.wf(),
            r is Ok <==> old(self)@.rent_accepted(payment@, duration_in_hours),
            (match r {
                Ok(badge) => rent_transition(
                    old(self)@,
                    final(self)@,
                    badge@,
                    payment@,
                    duration_in_hours,
                    now,
                ),
                Err((e, refund)) => final(self)@ == old(self)@ && refund@ == payment@ && (e
                    == RentalError::UnavailableResource <==> !old(self)@.car_in_inventory) && (e
                    == RentalError::InsufficientPayment <==> old(self)@.car_in_inventory
                    && payment@ < old(self)@.rental_price(duration_in_hours)),
            }),
    {
        if !self.car_in_inventory {
            return Err((RentalError::UnavailableResource, payment));
        }
        let gross = self.price_per_hour.checked_mul(duration_in_hours as u64);
        let price = match gross {
            Some(g) => g.checked_add(self.fee),
            None => None,
        };
        let affordable = match price {
            Some(p) => payment.amount() >= p,
            None => false,
        };
        if !affordable {
            return Err((RentalError::InsufficientPayment, payment));
        }
        let mut payment = payment;
        let amount = payment.amount();
        let fee_part = payment.split(self.fee);
        self.fees_vault.deposit(fee_part);
        self.car_owner_vault.deposit(payment);
        let episode = RentalEpisode {
            badge_id: self.next_badge_id,
            car_id: self.car_id,
            start_time: now,
            duration_in_hours,
        };
        self.next_badge_id = self.next_badge_id + 1;
        self.outstanding = Some(episode);
        self.car_in_inventory = false;
        self.total_received = Ghost(self.total_received@ + amount);
        Ok(RentalBadge::mint(episode))
    }

    /// Returns the car: the presented badge must carry exactly the open
    /// episode's data, else the attempt fails with `NotFound`, the badge
    /// handed back and nothing changed. On success the badge is consumed,
    /// the car goes back to inventory and no funds move.
    pub fn return_car(&mut self, rental_badge: RentalBadge) -> (r: Result<
        (),
        (RentalError, RentalBadge),
    >)
        requires
            old(self)@.wf(),
        ensures
            final(self)@.wf(),
            r is Ok <==> old(self)@.accepts_return(rental_badge@),
            (match r {
                Ok(()) => return_transition(old(self)@, final(self)@),
                Err((e, badge)) => final(self)@ == old(self)@ && badge@ == rental_badge@ && e
                    == RentalError::NotFound,
            }),
    {
        let open_matches = match &self.outstanding {
            Some(ep) => *ep == rental_badge.episode(),
            None => false,
        };
        if open_matches {
            self.outstanding = None;
            self.car_in_inventory = true;
            Ok(())
        } else {
            Err((RentalError::NotFound, rental_badge))
        }
    }

    /// Empties the owner's earnings vault into a payment for the caller,
    /// provided the presented proof is exactly the registered owner's badge
    /// identity. A mismatched proof fails with `AuthorizationFailure` and
    /// leaves the balance unchanged.
    pub fn withdraw_car_owner_vault(&mut self, car_owner_proof: TokenId) -> (r: Result<
        Payment,
        RentalError,
    >)
        requires
            old(self)@.wf(),
        ensures
            final(self)@.wf(),
            r is Ok <==> car_owner_proof == old(self)@.owner,
            (match r {
                Ok(p) => p@ == old(self)@.owner_balance && withdraw_transition(
                    old(self)@,
                    final(self)@,
                ),
                Err(e) => final(self)@ == old(self)@ && e == RentalError::AuthorizationFailure,
            }),
    {
        if car_owner_proof == self.owner {
            let taken = self.car_owner_vault.take_all();
            self.total_withdrawn = Ghost(self.total_withdrawn@ + taken@);
            Ok(taken)
        } else {
            Err(RentalError::AuthorizationFailure)
        }
    }

    /// Empties the platform's fee vault into a payment for the caller,
    /// provided the presented credential is exactly the root credential
    /// issued at marketplace instantiation. Anything else fails with
    /// `AuthorizationFailure` and leaves the balance unchanged.
    pub fn collect_fees(&mut self, credential: TokenId) -> (r: Result<Payment, RentalError>)
        requires
            old(self)@.wf(),
        ensures
            final(self)@.wf(),
            r is Ok <==> credential == old(self)@.root,
            (match r {
                Ok(p) => p@ == old(self)@.fee_balance && collect_transition(
                    old(self)@,
                    final(self)@,
                ),
                Err(e) => final(self)@ == old(self)@ && e == RentalError::AuthorizationFailure,
            }),
    {
        if credential == self.root {
            let taken = self.fees_vault.take_all();
            self.total_withdrawn = Ghost(self.total_withdrawn@ + taken@);
            Ok(taken)
        } else {
            Err(RentalError::AuthorizationFailure)
        }
    }

    /// The listed car's record.
    pub fn car(&self) -> (r: &Car)
        ensures
            *r == self@.car,
    {
        &self.car
    }

    /// The car's identifier within its marketplace.
    pub fn car_id(&self) -> (r: u64)
        ensures
            r == self@.car_id,
    {
        self.car_id
    }

    /// The rental rate, in settlement units per hour.
    pub fn price_per_hour(&self) -> (r: u64)
        ensures
            r == self@.price_per_hour,
    {
        self.price_per_hour
    }

    /// The platform fee charged once per rental.
    pub fn fee(&self) -> (r: u64)
        ensures
            r == self@.fee,
    {
        self.fee
    }

    /// The registered owner's badge identity.
    pub fn owner_id(&self) -> (r: TokenId)
        ensures
            r == self@.owner,
    {
        self.owner
    }

    /// The balance escrowed for the car's owner.
    pub fn owner_vault_balance(&self) -> (r: u64)
        ensures
            r == self@.owner_balance,
    {
        self.car_owner_vault.balance()
    }

    /// The balance escrowed for the platform.
    pub fn fees_vault_balance(&self) -> (r: u64)
        ensures
            r == self@.fee_balance,
    {
        self.fees_vault.balance()
    }

    /// The open rental episode, if the car is rented out.
    pub fn outstanding_episode(&self) -> (r: Option<RentalEpisode>)
        ensures
            r == self@.outstanding,
    {
        self.outstanding
    }
}

/// A car is available exactly when no outstanding rental badge references
/// it: the inventory slot and the open episode are two views of one state.
pub proof fn lemma_available_iff_no_outstanding(v: EngineV)
    requires
        v.wf(),
    ensures
        v.car_in_inventory <==> v.outstanding is None,
{
}

/// Funds are conserved: at every well-formed state, everything the engine
/// ever received is exactly what its two vaults hold plus what was
/// explicitly withdrawn.
pub proof fn lemma_funds_conserved(v: EngineV)
    requires
        v.wf(),
    ensures
        v.total_received == v.owner_balance + v.fee_balance + v.total_withdrawn,
{
}

/// A badge cannot be returned twice: once a return closes the episode, the
/// engine accepts no badge at all until a new rental opens one.
pub proof fn lemma_no_double_return(pre: EngineV, post: EngineV)
    requires
        return_transition(pre, post),
    ensures
        forall|episode: RentalEpisode| !post.accepts_return(episode),
{
}

/// Of two rental attempts serialized on one car, exactly one succeeds:
/// after a successful rental the engine observes `Rented` and refuses
/// every further attempt, whatever its payment, until the car is returned.
pub proof fn lemma_second_rent_refused(
    pre: EngineV,
    post: EngineV,
    episode: RentalEpisode,
    amount: u64,
    duration_in_hours: u32,
    now: u64,
)
    requires
        rent_transition(pre, post, episode, amount, duration_in_hours, now),
    ensures
        forall|amount2: u64, duration2: u32| !post.rent_accepted(amount2, duration2),
{
}

/// Renting and then returning restores the car to `Available` with the same
/// car record, identifiers and owner as before the rental; only the escrow
/// balances have grown, by the split payment. The starting state is any
/// well-formed state, so the round trip holds no matter how many cycles
/// came before it.
pub proof fn lemma_rent_return_round_trip(
    s0: EngineV,
    s1: EngineV,
    s2: EngineV,
    episode: RentalEpisode,
    amount: u64,
    duration_in_hours: u32,
    now: u64,
)
    requires
        s0.wf(),
        rent_transition(s0, s1, episode, amount, duration_in_hours, now),
        return_transition(s1, s2),
    ensures
        s2.wf(),
        s2.car_in_inventory,
        s2.outstanding is None,
        s2.car == s0.car,
        s2.car_id == s0.car_id,
        s2.owner == s0.owner,
        s2.root == s0.root,
        s2.price_per_hour == s0.price_per_hour,
        s2.fee == s0.fee,
        s2.owner_balance == s0.owner_balance + amount - s0.fee,
        s2.fee_balance == s0.fee_balance + s0.fee,
{
}

} // verus!
