//! Withdrawing a listing: the NFT goes back to the seller who listed it and
//! the escrow is closed.
use vstd::prelude::*;

use crate::address::Address;
use crate::error::MarketplaceError;
use crate::instruction::{
    build_close_account, build_token_transfer, close_account_ix, token_program_key,
    token_transfer_ix,
};
use crate::seeds::{
    check_associated_token_address, check_canonical_address, check_escrow_address, escrow_seeds, escrow_signer_seeds,
    is_associated_token_address, is_canonical_address, is_escrow_address, token_account_seeds,
    token_account_signer_seeds,
};
use crate::state::Escrow;
use crate::step::{outcome_view, steps_view, HandlerError, Step, StepView};

verus! {

/// The accounts of a withdrawal, by key, and the escrow's current state.
#[derive(Clone, Copy, Debug)]
pub struct DelistNft {
    pub escrow_account: Escrow,
    /// The escrow's own address, a program address of the escrow seeds.
    pub escrow_account_key: Address,
    /// The escrow's token account, which holds the NFT.
    pub escrow_token_account: Address,
    pub nft_mint: Address,
    /// The seller's token account for the NFT, which receives it back.
    pub seller_nft_token_account: Address,
    /// The owner recorded in the seller's token account for the NFT.
    pub seller_nft_token_owner: Address,
    /// The account that asks to withdraw, and signs.
    pub seller: Address,
    pub creator: Address,
    pub token_program: Address,
}

/// The steps that give the NFT in escrow to `recipient_token_account`,
/// close the escrow's token account to `seller`, the program signing for
/// the escrow with its seeds, and close the escrow account to `escrow_recipient`.
pub open spec fn release_steps(
    token_program: Seq<u8>,
    escrow_account_key: Seq<u8>,
    escrow_token_account: Seq<u8>,
    recipient_token_account: Seq<u8>,
    seller: Seq<u8>,
    seeds: Seq<Seq<u8>>,
    escrow_recipient: Seq<u8>,
) -> Seq<StepView> {
    seq![
        StepView::InvokeSigned {
            instruction: token_transfer_ix(
                token_program,
                escrow_token_account,
                recipient_token_account,
                escrow_account_key,
                seq![],
                1,
            ),
            accounts: seq![escrow_account_key, escrow_token_account, recipient_token_account],
            seeds,
        },
        StepView::InvokeSigned {
            instruction: close_account_ix(
                token_program,
                escrow_token_account,
                seller,
                escrow_account_key,
                seq![],
            ),
            accounts: seq![escrow_account_key, escrow_token_account, seller],
            seeds,
        },
        StepView::CloseProgramAccount { account: escrow_account_key, destination: escrow_recipient },
    ]
}

/// What a withdrawal answers: refused if nothing is listed, if the one who
/// asks is not the seller who listed, or if the token program is not the
/// token program; else the NFT goes back to the seller's token account and
/// the escrow's token account and the escrow are closed to the seller.
pub open spec fn delist_outcome(a: DelistNft, escrow_nonce: u8) -> Result<
    Seq<StepView>,
    HandlerError,
> {
    if !a.escrow_account.is_active {
        Err(HandlerError::Marketplace(MarketplaceError::NftUnlisted))
    } else if a.escrow_account.seller@ != a.seller@ {
        Err(HandlerError::Marketplace(MarketplaceError::UnknownSeller))
    } else if a.token_program@ != token_program_key() {
        Err(HandlerError::IncorrectProgramId)
    } else {
        Ok(
            release_steps(
                a.token_program@,
                a.escrow_account_key@,
                a.escrow_token_account@,
                a.seller_nft_token_account@,
                a.seller@,
                escrow_seeds(a.creator@, a.nft_mint@, a.seller@, escrow_nonce),
                a.seller@,
            ),
        )
    }
}

/// The first failing check on a withdrawal's accounts, for the program
/// `program_id`, in the order they are checked: the escrow is the program
/// address of the escrow seeds with `escrow_nonce` as bump, and the
/// escrow's token account is the canonical address of its token account
/// seeds; the seller's token account is owned by the seller and is the
/// seller's associated token account for the mint.
pub open spec fn delist_check(a: DelistNft, program_id: Seq<u8>, escrow_nonce: u8) -> Result<
    (),
    HandlerError,
> {
    if !is_escrow_address(
        a.escrow_account_key@,
        a.creator@,
        a.nft_mint@,
        a.seller@,
        escrow_nonce,
        program_id,
    ) {
        Err(HandlerError::ConstraintSeeds)
    } else if !is_canonical_address(
        a.escrow_token_account@,
        token_account_seeds(a.escrow_account_key@),
        program_id,
    ) {
        Err(HandlerError::ConstraintSeeds)
    } else if a.seller_nft_token_owner@ != a.seller@ {
        Err(HandlerError::ConstraintTokenOwner)
    } else if !is_associated_token_address(a.seller_nft_token_account@, a.seller@, a.nft_mint@) {
        Err(HandlerError::ConstraintAssociated)
    } else {
        Ok(())
    }
}

/// Whether `after` is `before` with its escrow closed: vacant, every other
/// account as it was.
pub open spec fn delist_closed(before: DelistNft, after: DelistNft) -> bool {
    &&& after.escrow_account.is_vacant()
    &&& after == DelistNft { escrow_account: after.escrow_account, ..before }
}

impl DelistNft {
    /// Checks the withdrawal's accounts, for the program `program_id`, before it runs.
    pub fn validate(&self, program_id: &Address, escrow_nonce: u8) -> (r: Result<(), HandlerError>)
        ensures
            r == delist_check(*self, program_id@, escrow_nonce),
    {
        if !check_escrow_address(
            &self.escrow_account_key,
            &self.creator,
            &self.nft_mint,
            &self.seller,
            escrow_nonce,
            program_id,
        ) {
            return Err(HandlerError::ConstraintSeeds);
        }
        let token_seeds = token_account_signer_seeds(&self.escrow_account_key);
        if !check_canonical_address(&self.escrow_token_account, &token_seeds, program_id) {
            return Err(HandlerError::ConstraintSeeds);
        }
        if !self.seller_nft_token_owner.same(&self.seller) {
            return Err(HandlerError::ConstraintTokenOwner);
        }
        if !check_associated_token_address(&self.seller_nft_token_account, &self.seller, &self.nft_mint) {
            return Err(HandlerError::ConstraintAssociated);
        }
        Ok(())
    }

    /// Withdraws the listing; `escrow_nonce` is the bump of the escrow's address.
    pub fn handler(&mut self, escrow_nonce: u8) -> (r: Result<Vec<Step>, HandlerError>)
        ensures
            outcome_view(r) == delist_outcome(*old(self), escrow_nonce),
            r is Ok ==> delist_closed(*old(self), *final(self)),
            r is Err ==> *final(self) == *old(self),
    {
        if !self.escrow_account.is_active {
            return Err(HandlerError::Marketplace(MarketplaceError::NftUnlisted));
        }
        if !self.escrow_account.seller.same(&self.seller) {
            return Err(HandlerError::Marketplace(MarketplaceError::UnknownSeller));
        }
        let steps = match release_escrow(
            &self.token_program,
            &self.escrow_account_key,
            &self.escrow_token_account,
            &self.seller_nft_token_account,
            &self.seller,
            &self.creator,
            &self.nft_mint,
            escrow_nonce,
            &self.seller,
        ) {
            Ok(steps) => steps,
            Err(e) => return Err(e),
        };
        self.escrow_account = Escrow::vacant();
        Ok(steps)
    }
}

/// The two signed steps that empty and close the escrow's token account
/// (the NFT to `recipient_token_account`, the lamports to `seller`), then
/// the closing of the escrow account to `escrow_recipient`.
pub(crate) fn release_escrow(
    token_program: &Address,
    escrow_account_key: &Address,
    escrow_token_account: &Address,
    recipient_token_account: &Address,
    seller: &Address,
    creator: &Address,
    nft_mint: &Address,
    escrow_nonce: u8,
    escrow_recipient: &Address,
) -> (r: Result<Vec<Step>, HandlerError>)
    ensures
        token_program@ != token_program_key() ==> r == Err::<Vec<Step>, HandlerError>(
            HandlerError::IncorrectProgramId,
        ),
        token_program@ == token_program_key() ==> r is Ok && steps_view(r->Ok_0@) == release_steps(
            token_program@,
            escrow_account_key@,
            escrow_token_account@,
            recipient_token_account@,
            seller@,
            escrow_seeds(creator@, nft_mint@, seller@, escrow_nonce),
            escrow_recipient@,
        ),
{
    let no_signers: Vec<Address> = Vec::new();
    let transfer = match build_token_transfer(
        token_program,
        escrow_token_account,
        recipient_token_account,
        escrow_account_key,
        &no_signers,
        1,
    ) {
        Ok(ix) => ix,
        Err(_) => return Err(HandlerError::IncorrectProgramId),
    };
    let close = match build_close_account(
        token_program,
        escrow_token_account,
        seller,
        escrow_account_key,
        &no_signers,
    ) {
        Ok(ix) => ix,
        Err(_) => return Err(HandlerError::IncorrectProgramId),
    };
    assert(no_signers@.map_values(|a: Address| a@) =~= Seq::<Seq<u8>>::empty());
    let transfer_accounts: Vec<Address> = vec![
        *escrow_account_key,
        *escrow_token_account,
        *recipient_token_account,
    ];
    let close_accounts: Vec<Address> = vec![*escrow_account_key, *escrow_token_account, *seller];
    let transfer_seeds = escrow_signer_seeds(creator, nft_mint, seller, escrow_nonce);
    let close_seeds = escrow_signer_seeds(creator, nft_mint, seller, escrow_nonce);
    let steps: Vec<Step> = vec![
        Step::InvokeSigned {
            instruction: transfer,
            accounts: transfer_accounts,
            seeds: transfer_seeds,
        },
        Step::InvokeSigned { instruction: close, accounts: close_accounts, seeds: close_seeds },
        Step::CloseProgramAccount { account: *escrow_account_key, destination: *escrow_recipient },
    ];
    assert(transfer_accounts@.map_values(|a: Address| a@) =~= seq![
        escrow_account_key@,
        escrow_token_account@,
        recipient_token_account@,
    ]);
    assert(close_accounts@.map_values(|a: Address| a@) =~= seq![
        escrow_account_key@,
        escrow_token_account@,
        seller@,
    ]);
    assert(steps_view(steps@) =~= release_steps(
        token_program@,
        escrow_account_key@,
        escrow_token_account@,
        recipient_token_account@,
        seller@,
        escrow_seeds(creator@, nft_mint@, seller@, escrow_nonce),
        escrow_recipient@,
    ));
    Ok(steps)
}

} // verus!
