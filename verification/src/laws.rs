//! What holds across the marketplace's instructions.
use vstd::prelude::*;

use vstd::arithmetic::div_mod::{lemma_div_is_ordered, lemma_fundamental_div_mod, lemma_mod_bound};

use crate::error::MarketplaceError;
use crate::fees::{marketplace_fee, royalty_amount, sale_computable};
use crate::instruction::{readonly, token_program_key, token_transfer_ix};
use crate::instructions::process_buy_nft::{buy_check, buy_closed, buy_outcome, BuyNft};
use crate::instructions::process_delist_nft::{delist_check, delist_outcome, DelistNft};
use crate::instructions::process_list_nft::{list_check, list_effect, list_outcome, ListNft};
use crate::instructions::process_mint_nft::{mint_constraints, mint_steps, MintNft};
use crate::instruction::InstructionView;
use crate::metadata::{
    master_edition_v3_accounts, master_edition_v3_data, metadata_program_key, metadata_v2_accounts,
    metadata_v2_data,
};
use crate::seeds::{
    escrow_base_seeds, is_canonical_address, is_escrow_address, metadata_seeds,
    associated_token_program_key, associated_token_seeds, is_associated_token_address,
    lemma_canonical_address_unique, program_address, token_account_seeds,
};
use crate::step::{HandlerError, StepView};

verus! {

/// The amount of a token transfer step, zero for any other step.
pub open spec fn transfer_amount(s: StepView) -> int {
    match s {
        StepView::TokenTransfer { amount, .. } => amount as int,
        _ => 0,
    }
}

/// Whether a step is a token transfer out of `from`.
pub open spec fn pays_from(s: StepView, from: Seq<u8>) -> bool {
    s matches StepView::TokenTransfer { from: f, .. } && f == from
}

/// An NFT that is listed cannot be listed again: the listing is refused
/// with `NftListed` and nothing changes.
pub proof fn lemma_listed_nft_cannot_be_relisted(a: ListNft, price: u64, creator_royalty: u8)
    requires
        a.escrow_account.is_active,
    ensures
        list_outcome(a, price, creator_royalty) == Err::<Seq<StepView>, HandlerError>(
            HandlerError::Marketplace(MarketplaceError::NftListed),
        ),
        list_effect(a, price, creator_royalty) == a,
{
}

/// An escrow that holds no listing can be neither withdrawn nor bought:
/// both are refused with `NftUnlisted`.
pub proof fn lemma_unlisted_nft_cannot_be_delisted_or_bought(
    d: DelistNft,
    b: BuyNft,
    escrow_nonce: u8,
)
    requires
        !d.escrow_account.is_active,
        !b.escrow_account.is_active,
    ensures
        delist_outcome(d, escrow_nonce) == Err::<Seq<StepView>, HandlerError>(
            HandlerError::Marketplace(MarketplaceError::NftUnlisted),
        ),
        buy_outcome(b, escrow_nonce) == Err::<Seq<StepView>, HandlerError>(
            HandlerError::Marketplace(MarketplaceError::NftUnlisted),
        ),
{
}

/// A closed (vacant) escrow accepts a new listing (given the token
/// program), and a listing that is accepted leaves the escrow active, recording the listing's seller,
/// creator, mint, escrow token account, price and royalty.
pub proof fn lemma_vacant_escrow_accepts_listing(a: ListNft, price: u64, creator_royalty: u8)
    requires
        a.escrow_account.is_vacant(),
    ensures
        list_outcome(a, price, creator_royalty) is Ok <==> a.token_program@ == token_program_key(),
        list_outcome(a, price, creator_royalty) is Ok ==> list_effect(
            a,
            price,
            creator_royalty,
        ).escrow_account == a.escrow_account.listed(
            a.seller,
            a.creator,
            a.nft_mint,
            a.escrow_token_account,
            price,
            creator_royalty,
        ),
        list_outcome(a, price, creator_royalty) is Ok ==> list_effect(
            a,
            price,
            creator_royalty,
        ).escrow_account.is_active,
{
}

/// A listing moves exactly one token of the NFT, from the seller's token
/// account into the escrow's, with the seller's signature.
pub proof fn lemma_listing_moves_one_token_into_escrow(a: ListNft, price: u64, creator_royalty: u8)
    requires
        list_outcome(a, price, creator_royalty) is Ok,
    ensures
        list_outcome(a, price, creator_royalty)->Ok_0 == seq![
            StepView::Invoke {
                instruction: token_transfer_ix(
                    a.token_program@,
                    a.seller_nft_token_account@,
                    a.escrow_token_account@,
                    a.seller@,
                    seq![a.seller@],
                    1,
                ),
                accounts: seq![a.seller@, a.escrow_token_account@, a.seller_nft_token_account@],
            },
        ],
{
}

/// Only the seller who listed can withdraw a listing: once a listing is
/// accepted, a withdrawal asked by any other key is refused with
/// `UnknownSeller`, and one asked by the seller is accepted (given the
/// token program).
pub proof fn lemma_only_the_lister_can_delist(
    l: ListNft,
    price: u64,
    creator_royalty: u8,
    d: DelistNft,
    escrow_nonce: u8,
)
    requires
        list_outcome(l, price, creator_royalty) is Ok,
        d.escrow_account == list_effect(l, price, creator_royalty).escrow_account,
    ensures
        d.seller@ != l.seller@ ==> delist_outcome(d, escrow_nonce) == Err::<
            Seq<StepView>,
            HandlerError,
        >(HandlerError::Marketplace(MarketplaceError::UnknownSeller)),
        d.seller@ == l.seller@ ==> (delist_outcome(d, escrow_nonce) is Ok <==> d.token_program@
            == token_program_key()),
{
}

/// A purchase of a listing pays out exactly the listed price, all of it
/// from the buyer's USDC account: the seller's, the creator's and the
/// marketplace's parts add up to it, and the creator's and the
/// marketplace's parts add up to the royalty.
pub proof fn lemma_purchase_pays_the_listed_price(
    l: ListNft,
    price: u64,
    creator_royalty: u8,
    b: BuyNft,
    escrow_nonce: u8,
)
    requires
        list_outcome(l, price, creator_royalty) is Ok,
        b.escrow_account == list_effect(l, price, creator_royalty).escrow_account,
        sale_computable(price, creator_royalty),
    ensures
        buy_outcome(b, escrow_nonce) is Ok <==> b.token_program@ == token_program_key(),
        buy_outcome(b, escrow_nonce) is Ok ==> ({
            let steps = buy_outcome(b, escrow_nonce)->Ok_0;
            &&& steps.len() == 6
            &&& pays_from(steps[0], b.buyer_usdc_account@)
            &&& pays_from(steps[1], b.buyer_usdc_account@)
            &&& pays_from(steps[2], b.buyer_usdc_account@)
            &&& transfer_amount(steps[0]) + transfer_amount(steps[1]) + transfer_amount(steps[2])
                == price
            &&& transfer_amount(steps[1]) + transfer_amount(steps[2]) == royalty_amount(
                price as int,
                creator_royalty as int,
            )
        }),
{
    let royalty = royalty_amount(price as int, creator_royalty as int);
    assert(0 <= royalty) by (nonlinear_arith)
        requires
            royalty == price * creator_royalty / 100,
            0 <= price,
            0 <= creator_royalty,
    ;
    assert(0 <= marketplace_fee(royalty) <= royalty) by (nonlinear_arith)
        requires
            0 <= royalty,
    ;
}

/// A mint pays exactly its price from the user's USDC account: the
/// treasury's part and the marketplace's fee add up to it.
pub proof fn lemma_mint_pays_the_price(
    a: MintNft,
    creator_key: Seq<u8>,
    title: Seq<char>,
    uri: Seq<char>,
    price: u64,
)
    ensures
        ({
            let steps = mint_steps(a, creator_key, title, uri, price);
            &&& pays_from(steps[0], a.user_usdc_account@)
            &&& pays_from(steps[1], a.user_usdc_account@)
            &&& transfer_amount(steps[0]) + transfer_amount(steps[1]) == price
        }),
{
    assert(0 <= marketplace_fee(price as int) <= price) by (nonlinear_arith)
        requires
            0 <= price,
    ;
}

/// Whether a step is one that the program signs for `signed_key`: its
/// seeds derive `signed_key` for `program_id`, and the instruction names
/// `signed_key` as its signing authority.
pub open spec fn signs_for(s: StepView, signed_key: Seq<u8>, program_id: Seq<u8>) -> bool {
    &&& s matches StepView::InvokeSigned { instruction, seeds, .. }
    &&& program_address(seeds, program_id) == Some(signed_key)
    &&& instruction.accounts.len() == 3
    &&& instruction.accounts[2] == readonly(signed_key, true)
}

/// The program signs only for the escrow: when the escrow account passed
/// its checks, both signed steps of an accepted withdrawal are signed with
/// seeds that derive the escrow's address, and name the escrow as authority.
pub proof fn lemma_withdrawal_signs_for_the_escrow(
    d: DelistNft,
    program_id: Seq<u8>,
    escrow_nonce: u8,
)
    requires
        delist_check(d, program_id, escrow_nonce) is Ok,
        delist_outcome(d, escrow_nonce) is Ok,
    ensures
        ({
            let steps = delist_outcome(d, escrow_nonce)->Ok_0;
            &&& steps.len() == 3
            &&& forall|i: int| 0 <= i < 2 ==> signs_for(#[trigger] steps[i], d.escrow_account_key@, program_id)
        }),
{
    let steps = delist_outcome(d, escrow_nonce)->Ok_0;
    assert(signs_for(steps[0], d.escrow_account_key@, program_id));
    assert(signs_for(steps[1], d.escrow_account_key@, program_id));
}

/// The same holds of a purchase: after the three payments, which the buyer
/// signs, both signed steps are signed for the escrow alone.
pub proof fn lemma_purchase_signs_for_the_escrow(b: BuyNft, program_id: Seq<u8>, escrow_nonce: u8)
    requires
        buy_check(b, program_id, escrow_nonce) is Ok,
        buy_outcome(b, escrow_nonce) is Ok,
    ensures
        ({
            let steps = buy_outcome(b, escrow_nonce)->Ok_0;
            &&& steps.len() == 6
            &&& forall|i: int| 3 <= i < 5 ==> signs_for(#[trigger] steps[i], b.escrow_account_key@, program_id)
        }),
{
    let steps = buy_outcome(b, escrow_nonce)->Ok_0;
    assert(signs_for(steps[3], b.escrow_account_key@, program_id));
    assert(signs_for(steps[4], b.escrow_account_key@, program_id));
}

/// A purchase delivers the very token that was listed: when the listing
/// and the purchase passed their checks for the same program and name the
/// same escrow account, the NFT moves out of the token account that the
/// listing moved it into (the one the escrow records), to the buyer's
/// associated token account for the NFT's mint; the escrow is closed to
/// the buyer.
pub proof fn lemma_purchase_delivers_the_listed_nft(
    l: ListNft,
    price: u64,
    creator_royalty: u8,
    program_id: Seq<u8>,
    b: BuyNft,
    escrow_nonce: u8,
)
    requires
        list_check(l, program_id) is Ok,
        list_outcome(l, price, creator_royalty) is Ok,
        buy_check(b, program_id, escrow_nonce) is Ok,
        b.escrow_account_key == l.escrow_account_key,
        b.escrow_account == list_effect(l, price, creator_royalty).escrow_account,
        sale_computable(price, creator_royalty),
    ensures
        buy_outcome(b, escrow_nonce) is Ok <==> b.token_program@ == token_program_key(),
        b.escrow_token_account@ == l.escrow_token_account@,
        b.escrow_account.token_account@ == b.escrow_token_account@,
        is_associated_token_address(b.buyer_nft_token_account@, b.buyer@, b.nft_mint@),
        buy_outcome(b, escrow_nonce) is Ok ==> (buy_outcome(b, escrow_nonce)->Ok_0[3] matches StepView::InvokeSigned { instruction, .. }
            && instruction == token_transfer_ix(
            b.token_program@,
            l.escrow_token_account@,
            b.buyer_nft_token_account@,
            b.escrow_account_key@,
            seq![],
            1,
        )),
        buy_outcome(b, escrow_nonce) is Ok ==> buy_outcome(b, escrow_nonce)->Ok_0[5] == (StepView::CloseProgramAccount {
            account: b.escrow_account_key@,
            destination: b.buyer@,
        }),
{
    lemma_canonical_address_unique(
        b.escrow_token_account@,
        l.escrow_token_account@,
        token_account_seeds(l.escrow_account_key@),
        program_id,
    );
}

/// A withdrawal gives the NFT back to the very token account it was listed
/// from: when the listing and the withdrawal passed their checks for the
/// same program and name the same escrow account, the NFT moves out of the
/// token account the listing moved it into, back to the token account the
/// listing took it from; the escrow is closed to the seller.
pub proof fn lemma_withdrawal_returns_the_nft(
    l: ListNft,
    price: u64,
    creator_royalty: u8,
    program_id: Seq<u8>,
    d: DelistNft,
    escrow_nonce: u8,
)
    requires
        list_check(l, program_id) is Ok,
        list_outcome(l, price, creator_royalty) is Ok,
        delist_check(d, program_id, escrow_nonce) is Ok,
        d.escrow_account_key == l.escrow_account_key,
        d.escrow_account == list_effect(l, price, creator_royalty).escrow_account,
        d.seller@ == l.seller@,
        d.nft_mint@ == l.nft_mint@,
    ensures
        delist_outcome(d, escrow_nonce) is Ok <==> d.token_program@ == token_program_key(),
        delist_outcome(d, escrow_nonce) is Ok ==> (delist_outcome(d, escrow_nonce)->Ok_0[0] matches StepView::InvokeSigned { instruction, .. }
            && instruction == token_transfer_ix(
            d.token_program@,
            l.escrow_token_account@,
            l.seller_nft_token_account@,
            d.escrow_account_key@,
            seq![],
            1,
        )),
        delist_outcome(d, escrow_nonce) is Ok ==> delist_outcome(d, escrow_nonce)->Ok_0[2] == (StepView::CloseProgramAccount {
            account: d.escrow_account_key@,
            destination: d.seller@,
        }),
{
    lemma_canonical_address_unique(
        d.escrow_token_account@,
        l.escrow_token_account@,
        token_account_seeds(l.escrow_account_key@),
        program_id,
    );
    lemma_canonical_address_unique(
        d.seller_nft_token_account@,
        l.seller_nft_token_account@,
        associated_token_seeds(l.seller@, l.nft_mint@),
        associated_token_program_key(),
    );
}

/// Two amounts at most `k` hundreds apart are, rounded down to hundredths,
/// in the same order and at most `k` apart.
proof fn lemma_hundredths_ordered(x: int, y: int, k: int)
    requires
        0 <= x <= y,
        y - x <= 100 * k,
    ensures
        x / 100 <= y / 100,
        y / 100 - x / 100 <= k,
{
    lemma_fundamental_div_mod(x, 100);
    lemma_fundamental_div_mod(y, 100);
    lemma_mod_bound(x, 100);
    lemma_mod_bound(y, 100);
    lemma_div_is_ordered(x, y, 100);
}

/// The split of a sale grows with its price: at a royalty of at most 100
/// percent, a higher price gives the seller, the creator and the
/// marketplace each at least as much.
pub proof fn lemma_sale_split_grows_with_price(p1: u64, p2: u64, creator_royalty: u8)
    requires
        p1 <= p2,
        creator_royalty <= 100,
    ensures
        ({
            let r1 = royalty_amount(p1 as int, creator_royalty as int);
            let r2 = royalty_amount(p2 as int, creator_royalty as int);
            &&& r1 <= r2
            &&& p1 - r1 <= p2 - r2
            &&& r1 - marketplace_fee(r1) <= r2 - marketplace_fee(r2)
            &&& marketplace_fee(r1) <= marketplace_fee(r2)
        }),
{
    let x = p1 * creator_royalty;
    let y = p2 * creator_royalty;
    assert(0 <= x <= y && y - x <= 100 * (p2 - p1)) by (nonlinear_arith)
        requires
            x == p1 * creator_royalty,
            y == p2 * creator_royalty,
            0 <= p1 <= p2,
            0 <= creator_royalty <= 100,
    ;
    lemma_hundredths_ordered(x, y, p2 - p1);
    let r1 = royalty_amount(p1 as int, creator_royalty as int);
    let r2 = royalty_amount(p2 as int, creator_royalty as int);
    assert(0 <= r1) by {
        lemma_div_is_ordered(0, x, 100);
    }
    lemma_hundredths_ordered(r1 * 15, r2 * 15, r2 - r1);
}

/// At a fixed price, the seller's part shrinks as the royalty grows.
pub proof fn lemma_seller_part_shrinks_with_royalty(price: u64, r1: u8, r2: u8)
    requires
        r1 <= r2,
    ensures
        price - royalty_amount(price as int, r2 as int) <= price - royalty_amount(
            price as int,
            r1 as int,
        ),
{
    assert(price * r1 <= price * r2) by (nonlinear_arith)
        requires
            0 <= price,
            r1 <= r2,
    ;
    lemma_div_is_ordered(price * r1, price * r2, 100);
}

/// The creator's key, the title and the uri of a mint reach only the
/// metadata instruction: two mints with the same accounts and price ask
/// for the same steps, but for the encoded arguments of that instruction.
pub proof fn lemma_mint_metadata_reaches_only_metadata(
    a: MintNft,
    price: u64,
    k1: Seq<u8>,
    t1: Seq<char>,
    u1: Seq<char>,
    k2: Seq<u8>,
    t2: Seq<char>,
    u2: Seq<char>,
)
    ensures
        ({
            let s1 = mint_steps(a, k1, t1, u1, price);
            let s2 = mint_steps(a, k2, t2, u2, price);
            &&& s1.len() == 8
            &&& s2.len() == 8
            &&& forall|i: int| 0 <= i < 8 && i != 6 ==> s1[i] == s2[i]
            &&& s1[6] matches StepView::Invoke { instruction: m1, accounts: a1 }
            &&& s2[6] matches StepView::Invoke { instruction: m2, accounts: a2 }
            &&& a1 == a2
            &&& m1.program_id == m2.program_id
            &&& m1.accounts == m2.accounts
        }),
{
}

/// A listing is sold at most once, and its NFT released at most once:
/// after a purchase succeeds, another purchase or a withdrawal on the
/// escrow it left is refused with `NftUnlisted`.
pub proof fn lemma_listing_sold_at_most_once(
    before: BuyNft,
    after: BuyNft,
    escrow_nonce: u8,
    again: BuyNft,
    withdrawal: DelistNft,
    next_nonce: u8,
)
    requires
        buy_outcome(before, escrow_nonce) is Ok,
        buy_closed(before, after),
        again.escrow_account == after.escrow_account,
        withdrawal.escrow_account == after.escrow_account,
    ensures
        buy_outcome(again, next_nonce) == Err::<Seq<StepView>, HandlerError>(
            HandlerError::Marketplace(MarketplaceError::NftUnlisted),
        ),
        delist_outcome(withdrawal, next_nonce) == Err::<Seq<StepView>, HandlerError>(
            HandlerError::Marketplace(MarketplaceError::NftUnlisted),
        ),
{
}

/// Who does what in a mint: the user pays from its USDC account, 15
/// percent (rounded down) to the marketplace and the rest to the treasury;
/// the user funds the new mint account, which the token program owns; the
/// user is the mint's authority and freeze authority; the token account
/// created for the new mint is the user's, paid by the user, and receives
/// the one token minted; the metadata names the user as mint authority,
/// payer and update authority, and the given creator (no share) and the
/// treasury (all of it) as creators; the master edition allows no prints.
pub proof fn lemma_mint_gives_each_role_to_its_account(
    a: MintNft,
    creator_key: Seq<u8>,
    title: Seq<char>,
    uri: Seq<char>,
    price: u64,
)
    ensures
        ({
            let s = mint_steps(a, creator_key, title, uri, price);
            &&& s.len() == 8
            &&& s[0] matches StepView::TokenTransfer { from, to, authority, amount: treasury_part }
            &&& from == a.user_usdc_account@ && to == a.treasury_usdc_account@ && authority == a.user@
            &&& s[1] matches StepView::TokenTransfer { from: f, to: t, authority: au, amount: fee }
            &&& f == a.user_usdc_account@ && t == a.fee_usdc_account@ && au == a.user@
            &&& treasury_part + fee == price
            &&& fee * 100 <= price * 15 < fee * 100 + 100
            &&& s[2] == (StepView::CreateAccount {
                from: a.user@,
                to: a.mint@,
                lamports: 10000000,
                space: 82,
                owner: a.token_program@,
            })
            &&& s[3] == (StepView::InitializeMint {
                mint: a.mint@,
                decimals: 0,
                mint_authority: a.user@,
                freeze_authority: Some(a.user@),
            })
            &&& s[4] == (StepView::CreateAssociatedTokenAccount {
                payer: a.user@,
                associated_token: a.token_account@,
                authority: a.user@,
                mint: a.mint@,
            })
            &&& s[5] == (StepView::MintTo {
                mint: a.mint@,
                to: a.token_account@,
                authority: a.user@,
                amount: 1,
            })
            &&& s[6] == (StepView::Invoke {
                instruction: InstructionView {
                    program_id: metadata_program_key(),
                    accounts: metadata_v2_accounts(a.metadata@, a.mint@, a.user@, a.user@, a.user@, true),
                    data: metadata_v2_data(
                        title,
                        Seq::empty(),
                        uri,
                        Some(seq![(creator_key, false, 0u8), (a.treasury@, false, 100u8)]),
                        1,
                        false,
                    ),
                },
                accounts: seq![a.metadata@, a.mint@, a.token_account@, a.user@, a.rent@],
            })
            &&& s[7] == (StepView::Invoke {
                instruction: InstructionView {
                    program_id: metadata_program_key(),
                    accounts: master_edition_v3_accounts(
                        a.master_edition@,
                        a.mint@,
                        a.user@,
                        a.user@,
                        a.metadata@,
                        a.user@,
                    ),
                    data: master_edition_v3_data(Some(0)),
                },
                accounts: seq![
                    a.master_edition@,
                    a.metadata@,
                    a.mint@,
                    a.token_account@,
                    a.user@,
                    a.rent@,
                ],
            })
        }),
{
    crate::fees::lemma_marketplace_fee_is_fifteen_percent(price as int);
}

/// A mint's accounts pass their checks exactly when the user's USDC
/// account belongs to the user and the treasury's to the treasury.
pub proof fn lemma_mint_check_is_the_owner_constraints(a: MintNft)
    ensures
        mint_constraints(a) <==> (a.user_usdc_owner@ == a.user@ && a.treasury_usdc_owner@
            == a.treasury@),
{
}

/// A listing's accounts pass their checks exactly when Anchor's
/// constraints on them hold, whoever the creator is: the escrow is the
/// canonical program address of (b"escrow", creator, mint, seller); the
/// escrow's token account holds the mint, belongs to the escrow and is the
/// canonical address of (b"token-account", escrow); the metadata account
/// is the metadata program's address of (b"metadata", that program, mint);
/// and the seller's token account belongs to the seller and is its
/// associated token account for the mint.
pub proof fn lemma_list_check_is_the_account_constraints(a: ListNft, program_id: Seq<u8>)
    ensures
        list_check(a, program_id) is Ok <==> ({
            &&& is_canonical_address(
                a.escrow_account_key@,
                escrow_base_seeds(a.creator@, a.nft_mint@, a.seller@),
                program_id,
            )
            &&& a.escrow_token_mint@ == a.nft_mint@
            &&& a.escrow_token_owner@ == a.escrow_account_key@
            &&& is_canonical_address(
                a.escrow_token_account@,
                token_account_seeds(a.escrow_account_key@),
                program_id,
            )
            &&& is_canonical_address(
                a.nft_metadata_account@,
                metadata_seeds(metadata_program_key(), a.nft_mint@),
                metadata_program_key(),
            )
            &&& a.seller_nft_token_owner@ == a.seller@
            &&& is_associated_token_address(a.seller_nft_token_account@, a.seller@, a.nft_mint@)
        }),
{
}

/// A withdrawal's accounts pass their checks exactly when Anchor's
/// constraints on them hold, whoever the creator is: the escrow is the
/// program address of the escrow seeds with the given bump; the escrow's
/// token account is the canonical address of its seeds; and the seller's
/// token account belongs to the seller and is its associated token
/// account for the mint.
pub proof fn lemma_delist_check_is_the_account_constraints(
    a: DelistNft,
    program_id: Seq<u8>,
    escrow_nonce: u8,
)
    ensures
        delist_check(a, program_id, escrow_nonce) is Ok <==> ({
            &&& is_escrow_address(
                a.escrow_account_key@,
                a.creator@,
                a.nft_mint@,
                a.seller@,
                escrow_nonce,
                program_id,
            )
            &&& is_canonical_address(
                a.escrow_token_account@,
                token_account_seeds(a.escrow_account_key@),
                program_id,
            )
            &&& a.seller_nft_token_owner@ == a.seller@
            &&& is_associated_token_address(a.seller_nft_token_account@, a.seller@, a.nft_mint@)
        }),
{
}

/// A purchase's accounts pass their checks exactly when Anchor's
/// constraints on them hold, whichever accounts coincide: the buyer's token
/// account holds the mint, belongs to the buyer and is its associated
/// token account for the mint; the escrow is the program address of the
/// escrow seeds with the given bump; the escrow's token account is the
/// canonical address of its seeds; and the seller's, the buyer's and the
/// creator's USDC accounts belong to them.
pub proof fn lemma_buy_check_is_the_account_constraints(
    a: BuyNft,
    program_id: Seq<u8>,
    escrow_nonce: u8,
)
    ensures
        buy_check(a, program_id, escrow_nonce) is Ok <==> ({
            &&& a.buyer_nft_token_mint@ == a.nft_mint@
            &&& a.buyer_nft_token_owner@ == a.buyer@
            &&& is_associated_token_address(a.buyer_nft_token_account@, a.buyer@, a.nft_mint@)
            &&& is_escrow_address(
                a.escrow_account_key@,
                a.creator@,
                a.nft_mint@,
                a.seller@,
                escrow_nonce,
                program_id,
            )
            &&& is_canonical_address(
                a.escrow_token_account@,
                token_account_seeds(a.escrow_account_key@),
                program_id,
            )
            &&& a.seller_usdc_owner@ == a.seller@
            &&& a.buyer_usdc_owner@ == a.buyer@
            &&& a.creator_usdc_owner@ == a.creator@
        }),
{
}

} // verus!
