//! The escrow account that holds one listing.
use vstd::prelude::*;

use crate::address::{zero_key, Address};

verus! {

/// Bytes that an escrow account takes on chain: the 8-byte account
/// discriminator, then the fields in their declared order.
pub const ESCROW_SPACE: usize = 8 + 1 + 32 + 32 + 32 + 32 + 8 + 1;

/// The state of one listing: who sells which NFT, at what price and royalty.
#[derive(Clone, Copy, Debug)]
pub struct Escrow {
    pub is_active: bool,
    pub seller: Address,
    pub creator: Address,
    pub creator_royalty: u8,
    pub mint: Address,
    pub token_account: Address,
    pub price: u64,
}

impl Escrow {
    /// A freshly created (or closed and re-created) escrow account: every
    /// byte of its data is zero, so it holds no listing.
    pub open spec fn is_vacant(self) -> bool {
        &&& !self.is_active
        &&& self.seller@ == zero_key()
        &&& self.creator@ == zero_key()
        &&& self.creator_royalty == 0
        &&& self.mint@ == zero_key()
        &&& self.token_account@ == zero_key()
        &&& self.price == 0
    }

    /// The escrow as a listing leaves it.
    pub open spec fn listed(
        self,
        seller: Address,
        creator: Address,
        mint: Address,
        token_account: Address,
        price: u64,
        creator_royalty: u8,
    ) -> Escrow {
        Escrow { is_active: true, seller, creator, creator_royalty, mint, token_account, price }
    }

    /// A vacant escrow account.
    pub fn vacant() -> (e: Escrow)
        ensures
            e.is_vacant(),
    {
        Escrow {
            is_active: false,
            seller: Address::zero(),
            creator: Address::zero(),
            creator_royalty: 0,
            mint: Address::zero(),
            token_account: Address::zero(),
            price: 0,
        }
    }
}

} // verus!
