//! A verified peer-to-peer car-rental marketplace.
//!
//! The crate models ledger-resident rental logic: capability tokens prove
//! identity, vaults hold escrowed funds, and a rental engine drives each
//! car through the `Available` / `Rented` state machine. Every public
//! operation is an atomic transition: it either commits all of its state
//! and fund changes together or fails with an error and changes nothing.

pub mod car_set;
pub mod engine;
pub mod errors;
pub mod marketplace;
pub mod registry;
pub mod tokens;
pub mod vault;

pub use engine::{Car, CarRental, EngineV};
pub use errors::RentalError;
pub use marketplace::{CarSharing, MarketV};
pub use registry::{RegistryV, TokenRegistry};
pub use tokens::{OwnerBadge, RentalBadge, RentalEpisode, TokenId, UserBadge};
pub use vault::{Payment, Vault};
