//! The program's entry points, one per instruction: each checks the
//! instruction's accounts, then runs its handler.
use vstd::prelude::*;

use crate::address::Address;
use crate::fees::sale_computable;
use crate::instructions::process_buy_nft::{buy_check, buy_closed, buy_outcome, BuyNft};
use crate::instructions::process_delist_nft::{
    delist_check, delist_closed, delist_outcome, DelistNft,
};
use crate::instructions::process_list_nft::{list_check, list_effect, list_outcome, ListNft};
use crate::instructions::process_mint_nft::{mint_constraints, mint_steps, MintNft};
use crate::step::{outcome_view, HandlerError, Step, StepView};

verus! {

/// What a mint answers: refused with `ConstraintRaw` if a USDC account does
/// not belong to its party, else the steps of `mint_steps`.
pub open spec fn mint_instruction(
    a: MintNft,
    creator_key: Seq<u8>,
    title: Seq<char>,
    uri: Seq<char>,
    price: u64,
) -> Result<Seq<StepView>, HandlerError> {
    if mint_constraints(a) {
        Ok(mint_steps(a, creator_key, title, uri, price))
    } else {
        Err(HandlerError::ConstraintRaw)
    }
}

/// What a listing answers: the first failing account check, else the
/// listing's own answer.
pub open spec fn list_instruction(
    a: ListNft,
    program_id: Seq<u8>,
    price: u64,
    creator_royalty: u8,
) -> Result<Seq<StepView>, HandlerError> {
    match list_check(a, program_id) {
        Err(e) => Err(e),
        Ok(()) => list_outcome(a, price, creator_royalty),
    }
}

/// What a withdrawal answers: the first failing account check, else the
/// withdrawal's own answer.
pub open spec fn delist_instruction(a: DelistNft, program_id: Seq<u8>, escrow_nonce: u8) -> Result<
    Seq<StepView>,
    HandlerError,
> {
    match delist_check(a, program_id, escrow_nonce) {
        Err(e) => Err(e),
        Ok(()) => delist_outcome(a, escrow_nonce),
    }
}

/// What a purchase answers: the first failing account check, else the
/// purchase's own answer.
pub open spec fn buy_instruction(a: BuyNft, program_id: Seq<u8>, escrow_nonce: u8) -> Result<
    Seq<StepView>,
    HandlerError,
> {
    match buy_check(a, program_id, escrow_nonce) {
        Err(e) => Err(e),
        Ok(()) => buy_outcome(a, escrow_nonce),
    }
}

/// Mints an NFT for `price` USDC; see `MintNft::validate` and `MintNft::handler`.
pub fn mint_nft(accounts: &MintNft, creator_key: Address, title: String, uri: String, price: u64) -> (r:
    Result<Vec<Step>, HandlerError>)
    requires
        mint_constraints(*accounts) ==> price * 15 <= u64::MAX,
    ensures
        outcome_view(r) == mint_instruction(*accounts, creator_key@, title@, uri@, price),
{
    match accounts.validate() {
        Ok(()) => Ok(accounts.handler(creator_key, title, uri, price)),
        Err(e) => Err(e),
    }
}

/// Lists an NFT for the program `program_id`; see `ListNft::validate` and
/// `ListNft::handler`. A refused listing changes nothing.
pub fn list_nft(accounts: &mut ListNft, program_id: &Address, price: u64, creator_royalty: u8) -> (r:
    Result<Vec<Step>, HandlerError>)
    ensures
        outcome_view(r) == list_instruction(*old(accounts), program_id@, price, creator_royalty),
        list_check(*old(accounts), program_id@) is Ok ==> *final(accounts) == list_effect(
            *old(accounts),
            price,
            creator_royalty,
        ),
        r is Err ==> *final(accounts) == *old(accounts),
{
    match accounts.validate(program_id) {
        Ok(()) => accounts.handler(price, creator_royalty),
        Err(e) => Err(e),
    }
}

/// Withdraws a listing for the program `program_id`; see
/// `DelistNft::validate` and `DelistNft::handler`.
pub fn delist_nft(accounts: &mut DelistNft, program_id: &Address, escrow_nonce: u8) -> (r: Result<
    Vec<Step>,
    HandlerError,
>)
    ensures
        outcome_view(r) == delist_instruction(*old(accounts), program_id@, escrow_nonce),
        r is Ok ==> delist_closed(*old(accounts), *final(accounts)),
        r is Err ==> *final(accounts) == *old(accounts),
{
    match accounts.validate(program_id, escrow_nonce) {
        Ok(()) => accounts.handler(escrow_nonce),
        Err(e) => Err(e),
    }
}

/// Buys a listed NFT for the program `program_id`; see `BuyNft::validate`
/// and `BuyNft::handler`.
pub fn buy_nft(accounts: &mut BuyNft, program_id: &Address, escrow_nonce: u8) -> (r: Result<
    Vec<Step>,
    HandlerError,
>)
    requires
        buy_check(*old(accounts), program_id@, escrow_nonce) is Ok
            && old(accounts).escrow_account.is_active ==> sale_computable(
            old(accounts).escrow_account.price,
            old(accounts).escrow_account.creator_royalty,
        ),
    ensures
        outcome_view(r) == buy_instruction(*old(accounts), program_id@, escrow_nonce),
        r is Ok ==> buy_closed(*old(accounts), *final(accounts)),
        r is Err ==> *final(accounts) == *old(accounts),
{
    match accounts.validate(program_id, escrow_nonce) {
        Ok(()) => accounts.handler(escrow_nonce),
        Err(e) => Err(e),
    }
}

} // verus!
