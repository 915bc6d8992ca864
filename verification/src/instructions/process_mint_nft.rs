//! Minting an NFT: the user pays in USDC, and a fresh mint with one token,
//! its metadata and its master edition are created.
use vstd::prelude::*;

use crate::address::Address;
use crate::fees::{marketplace_fee, mint_payment};
use crate::instruction::InstructionView;
use crate::metadata::{
    build_master_edition_v3, build_metadata_v2, creators_view, master_edition_v3_accounts,
    master_edition_v3_data, metadata_program_id, metadata_program_key, metadata_v2_accounts,
    metadata_v2_data, Creator,
};
use crate::step::{steps_view, HandlerError, Step, StepView};

verus! {

/// Lamports with which the new mint account is funded.
pub const MINT_ACCOUNT_LAMPORTS: u64 = 10000000;

/// Bytes of data of a mint account.
pub const MINT_ACCOUNT_SPACE: u64 = 82;

/// The accounts of a mint, by key.
#[derive(Clone, Copy, Debug)]
pub struct MintNft {
    pub metadata: Address,
    pub master_edition: Address,
    /// The new mint, a fresh account that signs.
    pub mint: Address,
    /// The user's token account for the new mint.
    pub token_account: Address,
    pub user_usdc_account: Address,
    /// The owner recorded in the user's USDC token account.
    pub user_usdc_owner: Address,
    /// The account that mints, pays and signs.
    pub user: Address,
    pub treasury_usdc_account: Address,
    /// The owner recorded in the treasury's USDC token account.
    pub treasury_usdc_owner: Address,
    pub fee_usdc_account: Address,
    pub treasury: Address,
    pub rent: Address,
    pub token_program: Address,
}

/// The checks on a mint's accounts: the user's USDC account belongs to
/// the user, the treasury's to the treasury.
pub open spec fn mint_constraints(a: MintNft) -> bool {
    &&& a.user_usdc_owner@ == a.user@
    &&& a.treasury_usdc_owner@ == a.treasury@
}

/// The creators recorded in a new NFT's metadata: the given creator with no
/// share, and the treasury with all of it, neither verified.
pub open spec fn mint_creators(creator_key: Seq<u8>, treasury: Seq<u8>) -> Seq<(Seq<u8>, bool, u8)> {
    seq![(creator_key, false, 0u8), (treasury, false, 100u8)]
}

/// What a mint asks, in order: the price less the marketplace's fee from
/// the user to the treasury, the fee to the marketplace; the mint account
/// created and made a mint with no decimals under the user's authority;
/// the user's token account created and one token minted into it; the
/// metadata (named `title`, no symbol, at `uri`, one basis point of
/// royalties, immutable) and the master edition (no further prints) created.
pub open spec fn mint_steps(
    a: MintNft,
    creator_key: Seq<u8>,
    title: Seq<char>,
    uri: Seq<char>,
    price: u64,
) -> Seq<StepView> {
    let fee = marketplace_fee(price as int);
    seq![
        StepView::TokenTransfer {
            from: a.user_usdc_account@,
            to: a.treasury_usdc_account@,
            authority: a.user@,
            amount: (price - fee) as u64,
        },
        StepView::TokenTransfer {
            from: a.user_usdc_account@,
            to: a.fee_usdc_account@,
            authority: a.user@,
            amount: fee as u64,
        },
        StepView::CreateAccount {
            from: a.user@,
            to: a.mint@,
            lamports: MINT_ACCOUNT_LAMPORTS,
            space: MINT_ACCOUNT_SPACE,
            owner: a.token_program@,
        },
        StepView::InitializeMint {
            mint: a.mint@,
            decimals: 0,
            mint_authority: a.user@,
            freeze_authority: Some(a.user@),
        },
        StepView::CreateAssociatedTokenAccount {
            payer: a.user@,
            associated_token: a.token_account@,
            authority: a.user@,
            mint: a.mint@,
        },
        StepView::MintTo { mint: a.mint@, to: a.token_account@, authority: a.user@, amount: 1 },
        StepView::Invoke {
            instruction: InstructionView {
                program_id: metadata_program_key(),
                accounts: metadata_v2_accounts(a.metadata@, a.mint@, a.user@, a.user@, a.user@, true),
                data: metadata_v2_data(
                    title,
                    Seq::empty(),
                    uri,
                    Some(mint_creators(creator_key, a.treasury@)),
                    1,
                    false,
                ),
            },
            accounts: seq![a.metadata@, a.mint@, a.token_account@, a.user@, a.rent@],
        },
        StepView::Invoke {
            instruction: InstructionView {
                program_id: metadata_program_key(),
                accounts: master_edition_v3_accounts(
                    a.master_edition@,
                    a.mint@,
                    a.user@,
                    a.user@,
                    a.metadata@,
                    a.user@,
                ),
                data: master_edition_v3_data(Some(0)),
            },
            accounts: seq![
                a.master_edition@,
                a.metadata@,
                a.mint@,
                a.token_account@,
                a.user@,
                a.rent@,
            ],
        },
    ]
}

impl MintNft {
    /// Checks the mint's accounts before it runs.
    pub fn validate(&self) -> (r: Result<(), HandlerError>)
        ensures
            r is Ok <==> mint_constraints(*self),
            r is Err ==> r == Err::<(), HandlerError>(HandlerError::ConstraintRaw),
    {
        if self.user_usdc_owner.same(&self.user) && self.treasury_usdc_owner.same(&self.treasury) {
            Ok(())
        } else {
            Err(HandlerError::ConstraintRaw)
        }
    }

    /// Mints an NFT named `title` with metadata at `uri`, for `price` USDC.
    pub fn handler(&self, creator_key: Address, title: String, uri: String, price: u64) -> (steps: Vec<
        Step,
    >)
        requires
            price * 15 <= u64::MAX,
        ensures
            steps_view(steps@) == mint_steps(*self, creator_key@, title@, uri@, price),
    {
        let payment = mint_payment(price);
        let creators: Vec<Creator> = vec![
            Creator { address: creator_key, verified: false, share: 0 },
            Creator { address: self.treasury, verified: false, share: 100 },
        ];
        assert(creators_view(Some(creators)) =~= Some(mint_creators(creator_key@, self.treasury@)));
        let program_id = metadata_program_id();
        let metadata_ix = build_metadata_v2(
            &program_id,
            &self.metadata,
            &self.mint,
            &self.user,
            &self.user,
            &self.user,
            title,
            String::new(),
            uri,
            Some(creators),
            1,
            true,
            false,
            None,
            None,
        );
        let edition_ix = build_master_edition_v3(
            &program_id,
            &self.master_edition,
            &self.mint,
            &self.user,
            &self.user,
            &self.metadata,
            &self.user,
            Some(0),
        );
        let metadata_accounts: Vec<Address> = vec![
            self.metadata,
            self.mint,
            self.token_account,
            self.user,
            self.rent,
        ];
        let edition_accounts: Vec<Address> = vec![
            self.master_edition,
            self.metadata,
            self.mint,
            self.token_account,
            self.user,
            self.rent,
        ];
        assert(metadata_accounts@.map_values(|a: Address| a@) =~= seq![
            self.metadata@,
            self.mint@,
            self.token_account@,
            self.user@,
            self.rent@,
        ]);
        assert(edition_accounts@.map_values(|a: Address| a@) =~= seq![
            self.master_edition@,
            self.metadata@,
            self.mint@,
            self.token_account@,
            self.user@,
            self.rent@,
        ]);
        let steps: Vec<Step> = vec![
            Step::TokenTransfer {
                from: self.user_usdc_account,
                to: self.treasury_usdc_account,
                authority: self.user,
                amount: payment.creator_amount,
            },
            Step::TokenTransfer {
                from: self.user_usdc_account,
                to: self.fee_usdc_account,
                authority: self.user,
                amount: payment.fee_amount,
            },
            Step::CreateAccount {
                from: self.user,
                to: self.mint,
                lamports: MINT_ACCOUNT_LAMPORTS,
                space: MINT_ACCOUNT_SPACE,
                owner: self.token_program,
            },
            Step::InitializeMint {
                mint: self.mint,
                decimals: 0,
                mint_authority: self.user,
                freeze_authority: Some(self.user),
            },
            Step::CreateAssociatedTokenAccount {
                payer: self.user,
                associated_token: self.token_account,
                authority: self.user,
                mint: self.mint,
            },
            Step::MintTo { mint: self.mint, to: self.token_account, authority: self.user, amount: 1 },
            Step::Invoke { instruction: metadata_ix, accounts: metadata_accounts },
            Step::Invoke { instruction: edition_ix, accounts: edition_accounts },
        ];
        assert(steps_view(steps@) =~= mint_steps(*self, creator_key@, title@, uri@, price));
        steps
    }
}

} // verus!
