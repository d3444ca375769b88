//! Fungible value: payment buckets and the vaults that escrow them.
//!
//! Amounts are integral units of the settlement token. A `Payment` moves
//! funds between parties; a `Vault` is the exclusive holder of a balance for
//! one party. Funds change hands only through explicit withdraw / deposit
//! pairs, never through aliasing.

use vstd::prelude::*;

use crate::errors::RentalError;

verus! {

/// A bucket of the fungible settlement token. A payment is consumed when
/// deposited, and cannot be duplicated: the type is neither `Copy` nor
/// `Clone`, so each unit of value has exactly one holder.
#[derive(Debug)]
pub struct Payment {
    amount: u64,
}

impl View for Payment {
    type V = u64;

    closed spec fn view(&self) -> u64 {
        self.amount
    }
}

impl Payment {
    /// Issues a fresh bucket holding `amount` units.
    pub fn new(amount: u64) -> (p: Payment)
        ensures
            p@ == amount,
    {
        Payment { amount }
    }

    /// How many units this bucket holds.
    pub fn amount(&self) -> (r: u64)
        ensures
            r == self@,
    {
        self.amount
    }

    /// Splits `take` units out of this bucket into a new one.
    pub fn split(&mut self, take: u64) -> (taken: Payment)
        requires
            take <= old(self)@,
        ensures
            taken@ == take,
            final(self)@ == old(self)@ - take,
    {
        self.amount = self.amount - take;
        Payment { amount: take }
    }
}

/// The exclusive holder of a balance of the settlement token for one party.
#[derive(Debug)]
pub struct Vault {
    balance: u64,
}

impl View for Vault {
    type V = u64;

    closed spec fn view(&self) -> u64 {
        self.balance
    }
}

impl Vault {
    /// Creates an empty vault.
    pub fn new() -> (v: Vault)
        ensures
            v@ == 0,
    {
        Vault { balance: 0 }
    }

    /// The balance held.
    pub fn balance(&self) -> (r: u64)
        ensures
            r == self@,
    {
        self.balance
    }

    /// Whether the vault holds nothing.
    pub fn is_empty(&self) -> (r: bool)
        ensures
            r == (self@ == 0),
    {
        self.balance == 0
    }

    /// Deposits a payment, consuming it.
    pub fn deposit(&mut self, p: Payment)
        requires
            old(self)@ + p@ <= u64::MAX,
        ensures
            final(self)@ == old(self)@ + p@,
    {
        let units = p.amount();
        self.balance = self.balance + units;
    }

    /// Empties the vault, returning everything it held.
    pub fn take_all(&mut self) -> (p: Payment)
        ensures
            p@ == old(self)@,
            final(self)@ == 0,
    {
        let taken = Payment { amount: self.balance };
        self.balance = 0;
        taken
    }

    /// Withdraws exactly `amount` units, or fails with `InsufficientFunds`
    /// and leaves the balance unchanged.
    pub fn withdraw(&mut self, amount: u64) -> (r: Result<Payment, RentalError>)
        ensures
            amount <= old(self)@ ==> (r matches Ok(p) && p@ == amount && final(self)@ == old(
                self,
            )@ - amount),
            amount > old(self)@ ==> r == Err::<Payment, RentalError>(
                RentalError::InsufficientFunds,
            ) && final(self)@ == old(self)@,
    {
        if amount <= self.balance {
            self.balance = self.balance - amount;
            Ok(Payment { amount })
        } else {
            Err(RentalError::InsufficientFunds)
        }
    }
}

} // verus!
