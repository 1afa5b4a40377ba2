//! The system module: the current block number and a nonce per account.

use vstd::prelude::*;
use crate::accounts::AccountMap;
use crate::arith::{one_u32, zero_u32};
use crate::types::{AccountId, BlockNumber, Nonce};

verus! {

/// The nonce that `nonces` gives to `who`: what is recorded, or zero where
/// nothing is.
pub open spec fn nonce_in(nonces: Map<Seq<char>, Nonce>, who: Seq<char>) -> Nonce {
    if nonces.contains_key(who) {
        nonces[who]
    } else {
        0
    }
}

/// The low-level state of the chain.
#[derive(Debug)]
pub struct Pallet {
    /// The current block number.
    block_number: BlockNumber,
    /// The nonce of each account that has submitted an extrinsic.
    nonce: AccountMap<Nonce>,
}

impl Pallet {
    /// The current block number, as a specification.
    pub closed spec fn number(&self) -> BlockNumber {
        self.block_number
    }

    /// The recorded nonces.
    pub closed spec fn nonces(&self) -> Map<Seq<char>, Nonce> {
        self.nonce@
    }

    /// The nonce of `who`.
    pub open spec fn nonce_of(&self, who: Seq<char>) -> Nonce {
        nonce_in(self.nonces(), who)
    }

    /// The state at genesis: block number zero and no nonce recorded.
    pub fn new() -> (pallet: Self)
        ensures
            pallet.number() == 0,
            pallet.nonces() == Map::<Seq<char>, Nonce>::empty(),
            forall|who: Seq<char>| pallet.nonce_of(who) == 0,
    {
        Self { block_number: zero_u32(), nonce: AccountMap::new() }
    }

    /// The current block number.
    pub fn block_number(&self) -> (number: BlockNumber)
        ensures
            number == self.number(),
    {
        self.block_number
    }

    /// The nonce of `who`: zero until the account's first extrinsic.
    pub fn nonce(&self, who: &AccountId) -> (nonce: Nonce)
        ensures
            nonce == self.nonce_of(who@),
    {
        match self.nonce.get(who) {
            Some(n) => n,
            None => zero_u32(),
        }
    }

    /// Advances the block number by one.
    pub fn inc_block_number(&mut self)
        requires
            old(self).number() < BlockNumber::MAX,
        ensures
            final(self).number() == old(self).number() + 1,
            final(self).nonces() == old(self).nonces(),
    {
        self.block_number = self.block_number + one_u32();
    }

    /// Advances the nonce of `who` by one.
    pub fn inc_nonce(&mut self, who: &AccountId)
        requires
            old(self).nonce_of(who@) < Nonce::MAX,
        ensures
            final(self).number() == old(self).number(),
            final(self).nonces() == old(self).nonces().insert(
                who@,
                (old(self).nonce_of(who@) + 1) as Nonce,
            ),
    {
        let next: Nonce = self.nonce(who) + one_u32();
        self.nonce.insert(who, next);
    }
}

/// An account whose nonce was never advanced has nonce zero, and advancing
/// the nonce of one account by one leaves the nonce of every other account as
/// it was.
pub proof fn lemma_nonce_advance_is_local(
    nonces: Map<Seq<char>, Nonce>,
    who: Seq<char>,
    other: Seq<char>,
)
    requires
        nonce_in(nonces, who) < Nonce::MAX,
    ensures
        nonce_in(Map::<Seq<char>, Nonce>::empty(), other) == 0,
        nonce_in(nonces.insert(who, (nonce_in(nonces, who) + 1) as Nonce), who) == nonce_in(
            nonces,
            who,
        ) + 1,
        other != who ==> nonce_in(
            nonces.insert(who, (nonce_in(nonces, who) + 1) as Nonce),
            other,
        ) == nonce_in(nonces, other),
{
}

} // verus!
