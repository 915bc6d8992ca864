//! Buying a listed NFT: the buyer pays the seller, the creator and the
//! marketplace, receives the NFT, and the escrow is closed.
use vstd::prelude::*;

use crate::address::Address;
use crate::error::MarketplaceError;
use crate::fees::{marketplace_fee, royalty_amount, sale_computable, sale_payment};
use crate::instruction::token_program_key;
use crate::instructions::process_delist_nft::{release_escrow, release_steps};
use crate::seeds::{
    check_associated_token_address, check_canonical_address, check_escrow_address, escrow_seeds,
    is_associated_token_address, is_canonical_address, is_escrow_address, token_account_seeds,
    token_account_signer_seeds,
};
use crate::state::Escrow;
use crate::step::{outcome_view, steps_view, HandlerError, Step, StepView};

verus! {

/// The accounts of a purchase, by key, and the escrow's current state.
#[derive(Clone, Copy, Debug)]
pub struct BuyNft {
    pub escrow_account: Escrow,
    /// The escrow's own address, a program address of the escrow seeds.
    pub escrow_account_key: Address,
    /// The escrow's token account, which holds the NFT.
    pub escrow_token_account: Address,
    pub nft_mint: Address,
    /// The buyer's token account for the NFT, which receives it.
    pub buyer_nft_token_account: Address,
    /// The mint recorded in the buyer's token account for the NFT.
    pub buyer_nft_token_mint: Address,
    /// The owner recorded in the buyer's token account for the NFT.
    pub buyer_nft_token_owner: Address,
    pub seller: Address,
    pub seller_usdc_account: Address,
    /// The owner recorded in the seller's USDC token account.
    pub seller_usdc_owner: Address,
    /// The account that buys, and signs.
    pub buyer: Address,
    pub buyer_usdc_account: Address,
    /// The owner recorded in the buyer's USDC token account.
    pub buyer_usdc_owner: Address,
    pub creator: Address,
    pub creator_usdc_account: Address,
    /// The owner recorded in the creator's USDC token account.
    pub creator_usdc_owner: Address,
    pub fee_usdc_account: Address,
    pub token_program: Address,
}

/// The first failing check on a purchase's accounts, for the program
/// `program_id`, in the order they are checked: the buyer's token account
/// (created if it did not exist) holds the NFT's mint, is owned by the
/// buyer and is the buyer's associated token account for the mint; the
/// escrow is the program address of the escrow seeds with `escrow_nonce`
/// as bump; the escrow's
/// token account is the canonical address of its token account seeds; the
/// seller's, the buyer's and the creator's USDC accounts belong to them.
pub open spec fn buy_check(a: BuyNft, program_id: Seq<u8>, escrow_nonce: u8) -> Result<
    (),
    HandlerError,
> {
    if a.buyer_nft_token_mint@ != a.nft_mint@ {
        Err(HandlerError::ConstraintTokenMint)
    } else if a.buyer_nft_token_owner@ != a.buyer@ {
        Err(HandlerError::ConstraintTokenOwner)
    } else if !is_associated_token_address(a.buyer_nft_token_account@, a.buyer@, a.nft_mint@) {
        Err(HandlerError::AccountNotAssociatedTokenAccount)
    } else if !is_escrow_address(
        a.escrow_account_key@,
        a.creator@,
        a.nft_mint@,
        a.seller@,
        escrow_nonce,
        program_id,
    ) {
        Err(HandlerError::ConstraintSeeds)
    } else if !is_canonical_address(
        a.escrow_token_account@,
        token_account_seeds(a.escrow_account_key@),
        program_id,
    ) {
        Err(HandlerError::ConstraintSeeds)
    } else if a.seller_usdc_owner@ != a.seller@ || a.buyer_usdc_owner@ != a.buyer@
        || a.creator_usdc_owner@ != a.creator@ {
        Err(HandlerError::ConstraintRaw)
    } else {
        Ok(())
    }
}

/// What a purchase answers: refused if nothing is listed or the token
/// program is not the token program; else three USDC payments from the
/// buyer (the price less the royalty to the seller, the royalty less the
/// marketplace's fee on it to the creator, that fee to the marketplace),
/// then the NFT to the buyer, the escrow's token account closed to the
/// seller and the escrow closed to the buyer.
pub open spec fn buy_outcome(a: BuyNft, escrow_nonce: u8) -> Result<Seq<StepView>, HandlerError> {
    if !a.escrow_account.is_active {
        Err(HandlerError::Marketplace(MarketplaceError::NftUnlisted))
    } else if a.token_program@ != token_program_key() {
        Err(HandlerError::IncorrectProgramId)
    } else {
        let price = a.escrow_account.price as int;
        let royalty = royalty_amount(price, a.escrow_account.creator_royalty as int);
        let fee = marketplace_fee(royalty);
        Ok(
            seq![
                StepView::TokenTransfer {
                    from: a.buyer_usdc_account@,
                    to: a.seller_usdc_account@,
                    authority: a.buyer@,
                    amount: (price - royalty) as u64,
                },
                StepView::TokenTransfer {
                    from: a.buyer_usdc_account@,
                    to: a.creator_usdc_account@,
                    authority: a.buyer@,
                    amount: (royalty - fee) as u64,
                },
                StepView::TokenTransfer {
                    from: a.buyer_usdc_account@,
                    to: a.fee_usdc_account@,
                    authority: a.buyer@,
                    amount: fee as u64,
                },
            ] + release_steps(
                a.token_program@,
                a.escrow_account_key@,
                a.escrow_token_account@,
                a.buyer_nft_token_account@,
                a.seller@,
                escrow_seeds(a.creator@, a.nft_mint@, a.seller@, escrow_nonce),
                a.buyer@,
            ),
        )
    }
}

/// Whether `after` is `before` with its escrow closed: vacant, every other
/// account as it was.
pub open spec fn buy_closed(before: BuyNft, after: BuyNft) -> bool {
    &&& after.escrow_account.is_vacant()
    &&& after == BuyNft { escrow_account: after.escrow_account, ..before }
}

impl BuyNft {
    /// Checks the purchase's accounts, for the program `program_id`, before it runs.
    pub fn validate(&self, program_id: &Address, escrow_nonce: u8) -> (r: Result<(), HandlerError>)
        ensures
            r == buy_check(*self, program_id@, escrow_nonce),
    {
        if !self.buyer_nft_token_mint.same(&self.nft_mint) {
            return Err(HandlerError::ConstraintTokenMint);
        }
        if !self.buyer_nft_token_owner.same(&self.buyer) {
            return Err(HandlerError::ConstraintTokenOwner);
        }
        if !check_associated_token_address(&self.buyer_nft_token_account, &self.buyer, &self.nft_mint) {
            return Err(HandlerError::AccountNotAssociatedTokenAccount);
        }
        if !check_escrow_address(
            &self.escrow_account_key,
            &self.creator,
            &self.nft_mint,
            &self.seller,
            escrow_nonce,
            program_id,
        ) {
            return Err(HandlerError::ConstraintSeeds);
        }
        let token_seeds = token_account_signer_seeds(&self.escrow_account_key);
        if !check_canonical_address(&self.escrow_token_account, &token_seeds, program_id) {
            return Err(HandlerError::ConstraintSeeds);
        }
        if self.seller_usdc_owner.same(&self.seller) && self.buyer_usdc_owner.same(&self.buyer)
            && self.creator_usdc_owner.same(&self.creator) {
            Ok(())
        } else {
            Err(HandlerError::ConstraintRaw)
        }
    }

    /// Buys the listed NFT at its listed price; `escrow_nonce` is the bump
    /// of the escrow's address.
    pub fn handler(&mut self, escrow_nonce: u8) -> (r: Result<Vec<Step>, HandlerError>)
        requires
            old(self).escrow_account.is_active ==> sale_computable(
                old(self).escrow_account.price,
                old(self).escrow_account.creator_royalty,
            ),
        ensures
            outcome_view(r) == buy_outcome(*old(self), escrow_nonce),
            r is Ok ==> buy_closed(*old(self), *final(self)),
            r is Err ==> *final(self) == *old(self),
    {
        if !self.escrow_account.is_active {
            return Err(HandlerError::Marketplace(MarketplaceError::NftUnlisted));
        }
        let payment = sale_payment(self.escrow_account.price, self.escrow_account.creator_royalty);
        let release = match release_escrow(
            &self.token_program,
            &self.escrow_account_key,
            &self.escrow_token_account,
            &self.buyer_nft_token_account,
            &self.seller,
            &self.creator,
            &self.nft_mint,
            escrow_nonce,
            &self.buyer,
        ) {
            Ok(steps) => steps,
            Err(e) => return Err(e),
        };
        let mut steps: Vec<Step> = vec![
            Step::TokenTransfer {
                from: self.buyer_usdc_account,
                to: self.seller_usdc_account,
                authority: self.buyer,
                amount: payment.seller_amount,
            },
            Step::TokenTransfer {
                from: self.buyer_usdc_account,
                to: self.creator_usdc_account,
                authority: self.buyer,
                amount: payment.creator_amount,
            },
            Step::TokenTransfer {
                from: self.buyer_usdc_account,
                to: self.fee_usdc_account,
                authority: self.buyer,
                amount: payment.fee_amount,
            },
        ];
        let ghost payments = steps_view(steps@);
        let ghost released = steps_view(release@);
        let mut release = release;
        steps.append(&mut release);
        assert(steps_view(steps@) =~= payments + released);
        assert(steps_view(steps@) =~= buy_outcome(*old(self), escrow_nonce)->Ok_0);
        self.escrow_account = Escrow::vacant();
        Ok(steps)
    }
}

} // verus!
