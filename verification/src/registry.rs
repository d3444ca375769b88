//! The asset registry for one family of capability tokens.
//!
//! A registry mints tokens under a declared authority: every mint must
//! present the authority identity fixed at registry creation, and each
//! local serial number is issued at most once.

use vstd::prelude::*;

use crate::errors::RentalError;
use crate::tokens::TokenId;

verus! {

/// The abstract state of a token registry.
pub ghost struct RegistryV {
    /// The registry's own identity; every token it mints carries it.
    pub id: u64,
    /// The identity that must be presented to mint.
    pub authority: TokenId,
    /// The local serial numbers minted so far, in order of minting.
    pub minted: Seq<u64>,
}

impl RegistryV {
    /// The registry's invariant: each serial number is minted at most once.
    pub open spec fn wf(self) -> bool {
        forall|i: int, j: int|
            0 <= i < j < self.minted.len() ==> self.minted[i] != self.minted[j]
    }
}

/// A registry of non-fungible capability tokens with a declared minting
/// authority.
pub struct TokenRegistry {
    id: u64,
    authority: TokenId,
    minted: Vec<u64>,
}

impl View for TokenRegistry {
    type V = RegistryV;

    closed spec fn view(&self) -> RegistryV {
        RegistryV { id: self.id, authority: self.authority, minted: self.minted@ }
    }
}

impl TokenRegistry {
    /// Creates a registry that has minted nothing yet.
    pub fn new(id: u64, authority: TokenId) -> (r: TokenRegistry)
        ensures
            r@ == (RegistryV { id, authority, minted: Seq::<u64>::empty() }),
            r@.wf(),
    {
        TokenRegistry { id, authority, minted: Vec::new() }
    }

    /// Whether a token with this local serial number was ever minted here.
    pub fn was_minted(&self, local: u64) -> (r: bool)
        ensures
            r == self@.minted.contains(local),
    {
        let mut i: usize = 0;
        while i < self.minted.len()
            invariant
                i <= self.minted.len(),
                forall|j: int| 0 <= j < i ==> self@.minted[j] != local,
            decreases self.minted.len() - i,
        {
            if self.minted[i] == local {
                return true;
            }
            i = i + 1;
        }
        false
    }

    /// Mints the token with the given serial number, provided the presented
    /// identity is the registry's authority; anything else fails with
    /// `AuthorizationFailure` and mints nothing. A serial number can be
    /// minted only once; re-minting one is a sequencing bug, so the caller
    /// must rule it out.
    pub fn mint(&mut self, presented: TokenId, local: u64) -> (r: Result<TokenId, RentalError>)
        requires
            old(self)@.wf(),
            presented == old(self)@.authority ==> !old(self)@.minted.contains(local),
        ensures
            final(self)@.wf(),
            r is Ok <==> presented == old(self)@.authority,
            r is Ok ==> final(self)@.minted.contains(local),
            (match r {
                Ok(token) => token == (TokenId { registry: old(self)@.id, local }) && final(self)@
                    == (RegistryV { minted: old(self)@.minted.push(local), ..old(self)@ }),
                Err(e) => e == RentalError::AuthorizationFailure && final(self)@ == old(self)@,
            }),
    {
        if presented == self.authority {
            self.minted.push(local);
            proof {
                assert(self@.minted[self@.minted.len() - 1] == local);
            }
            Ok(TokenId { registry: self.id, local })
        } else {
            Err(RentalError::AuthorizationFailure)
        }
    }

    /// The registry's own identity.
    pub fn id(&self) -> (r: u64)
        ensures
            r == self@.id,
    {
        self.id
    }
}

} // verus!
