//! Listing an NFT: the seller moves it into escrow at a price.
use vstd::prelude::*;

use crate::address::Address;
use crate::error::MarketplaceError;
use crate::instruction::{build_token_transfer, token_program_key, token_transfer_ix};
use crate::metadata::{metadata_program_id, metadata_program_key};
use crate::seeds::{
    check_associated_token_address, check_canonical_address, escrow_address_seeds,
    escrow_base_seeds, is_associated_token_address, is_canonical_address, metadata_account_seeds,
    metadata_seeds, token_account_seeds, token_account_signer_seeds,
};
use crate::state::Escrow;
use crate::step::{outcome_view, steps_view, HandlerError, Step, StepView};

verus! {

/// The accounts of a listing, by key, and the escrow's current state.
#[derive(Clone, Copy, Debug)]
pub struct ListNft {
    /// The escrow of this (creator, mint, seller) triple; vacant if new.
    pub escrow_account: Escrow,
    /// The escrow's own address, the canonical program address of the escrow seeds.
    pub escrow_account_key: Address,
    /// The escrow's token account, which receives the NFT.
    pub escrow_token_account: Address,
    /// The mint recorded in the escrow's token account.
    pub escrow_token_mint: Address,
    /// The owner recorded in the escrow's token account.
    pub escrow_token_owner: Address,
    pub nft_mint: Address,
    /// The NFT's metadata account, a program address of the metadata program.
    pub nft_metadata_account: Address,
    /// The seller's token account for the NFT.
    pub seller_nft_token_account: Address,
    /// The owner recorded in the seller's token account for the NFT.
    pub seller_nft_token_owner: Address,
    pub seller: Address,
    pub creator: Address,
    pub token_program: Address,
}

/// The first failing check on a listing's accounts, for the program
/// `program_id`, in the order they are checked: the escrow is the canonical
/// program address of its seeds; the escrow's token account holds the
/// NFT's mint, is owned by the escrow and is the canonical address of its
/// token account seeds; the metadata account is the metadata program's
/// address of the NFT's mint; the seller's token account is owned by the
/// seller and is the seller's associated token account for the mint.
pub open spec fn list_check(a: ListNft, program_id: Seq<u8>) -> Result<(), HandlerError> {
    if !is_canonical_address(
        a.escrow_account_key@,
        escrow_base_seeds(a.creator@, a.nft_mint@, a.seller@),
        program_id,
    ) {
        Err(HandlerError::ConstraintSeeds)
    } else if a.escrow_token_mint@ != a.nft_mint@ {
        Err(HandlerError::ConstraintTokenMint)
    } else if a.escrow_token_owner@ != a.escrow_account_key@ {
        Err(HandlerError::ConstraintTokenOwner)
    } else if !is_canonical_address(
        a.escrow_token_account@,
        token_account_seeds(a.escrow_account_key@),
        program_id,
    ) {
        Err(HandlerError::ConstraintSeeds)
    } else if !is_canonical_address(
        a.nft_metadata_account@,
        metadata_seeds(metadata_program_key(), a.nft_mint@),
        metadata_program_key(),
    ) {
        Err(HandlerError::ConstraintSeeds)
    } else if a.seller_nft_token_owner@ != a.seller@ {
        Err(HandlerError::ConstraintTokenOwner)
    } else if !is_associated_token_address(a.seller_nft_token_account@, a.seller@, a.nft_mint@) {
        Err(HandlerError::ConstraintAssociated)
    } else {
        Ok(())
    }
}

/// What a listing answers: refused if the escrow already holds a listing or
/// the token program is not the token program; else one transfer of the
/// NFT from the seller's token account into escrow, signed by the seller.
pub open spec fn list_outcome(a: ListNft, price: u64, creator_royalty: u8) -> Result<
    Seq<StepView>,
    HandlerError,
> {
    if a.escrow_account.is_active {
        Err(HandlerError::Marketplace(MarketplaceError::NftListed))
    } else if a.token_program@ != token_program_key() {
        Err(HandlerError::IncorrectProgramId)
    } else {
        Ok(
            seq![
                StepView::Invoke {
                    instruction: token_transfer_ix(
                        a.token_program@,
                        a.seller_nft_token_account@,
                        a.escrow_token_account@,
                        a.seller@,
                        seq![a.seller@],
                        1,
                    ),
                    accounts: seq![a.seller@, a.escrow_token_account@, a.seller_nft_token_account@],
                },
            ],
        )
    }
}

/// The accounts after a listing: on success the escrow records the seller,
/// creator, mint, escrow token account, price and royalty, and is active;
/// on failure nothing changes.
pub open spec fn list_effect(a: ListNft, price: u64, creator_royalty: u8) -> ListNft {
    if list_outcome(a, price, creator_royalty) is Ok {
        ListNft {
            escrow_account: Escrow {
                is_active: true,
                seller: a.seller,
                creator: a.creator,
                creator_royalty,
                mint: a.nft_mint,
                token_account: a.escrow_token_account,
                price,
            },
            ..a
        }
    } else {
        a
    }
}

impl ListNft {
    /// Checks the listing's accounts, for the program `program_id`, before it runs.
    pub fn validate(&self, program_id: &Address) -> (r: Result<(), HandlerError>)
        ensures
            r == list_check(*self, program_id@),
    {
        let escrow_seeds = escrow_address_seeds(&self.creator, &self.nft_mint, &self.seller);
        if !check_canonical_address(&self.escrow_account_key, &escrow_seeds, program_id) {
            return Err(HandlerError::ConstraintSeeds);
        }
        if !self.escrow_token_mint.same(&self.nft_mint) {
            return Err(HandlerError::ConstraintTokenMint);
        }
        if !self.escrow_token_owner.same(&self.escrow_account_key) {
            return Err(HandlerError::ConstraintTokenOwner);
        }
        let token_seeds = token_account_signer_seeds(&self.escrow_account_key);
        if !check_canonical_address(&self.escrow_token_account, &token_seeds, program_id) {
            return Err(HandlerError::ConstraintSeeds);
        }
        let metadata_program = metadata_program_id();
        let metadata_seeds = metadata_account_seeds(&metadata_program, &self.nft_mint);
        if !check_canonical_address(&self.nft_metadata_account, &metadata_seeds, &metadata_program) {
            return Err(HandlerError::ConstraintSeeds);
        }
        if !self.seller_nft_token_owner.same(&self.seller) {
            return Err(HandlerError::ConstraintTokenOwner);
        }
        if !check_associated_token_address(&self.seller_nft_token_account, &self.seller, &self.nft_mint) {
            return Err(HandlerError::ConstraintAssociated);
        }
        Ok(())
    }

    /// Lists the NFT at `price`, with `creator_royalty` percent of it for the creator.
    pub fn handler(&mut self, price: u64, creator_royalty: u8) -> (r: Result<Vec<Step>, HandlerError>)
        ensures
            outcome_view(r) == list_outcome(*old(self), price, creator_royalty),
            *final(self) == list_effect(*old(self), price, creator_royalty),
    {
        if self.escrow_account.is_active {
            return Err(HandlerError::Marketplace(MarketplaceError::NftListed));
        }
        let signers: Vec<Address> = vec![self.seller];
        let ix = match build_token_transfer(
            &self.token_program,
            &self.seller_nft_token_account,
            &self.escrow_token_account,
            &self.seller,
            &signers,
            1,
        ) {
            Ok(ix) => ix,
            Err(_) => return Err(HandlerError::IncorrectProgramId),
        };
        assert(signers@.map_values(|a: Address| a@) =~= seq![self.seller@]);
        let accounts: Vec<Address> = vec![
            self.seller,
            self.escrow_token_account,
            self.seller_nft_token_account,
        ];
        self.escrow_account.creator = self.creator;
        self.escrow_account.seller = self.seller;
        self.escrow_account.mint = self.nft_mint;
        self.escrow_account.token_account = self.escrow_token_account;
        self.escrow_account.price = price;
        self.escrow_account.creator_royalty = creator_royalty;
        self.escrow_account.is_active = true;
        let steps: Vec<Step> = vec![Step::Invoke { instruction: ix, accounts }];
        assert(accounts@.map_values(|a: Address| a@) =~= seq![
            self.seller@,
            self.escrow_token_account@,
            self.seller_nft_token_account@,
        ]);
        assert(steps_view(steps@) =~= list_outcome(*old(self), price, creator_royalty)->Ok_0);
        Ok(steps)
    }
}

} // verus!
