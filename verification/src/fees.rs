//! How a payment is split between seller, creator and marketplace.
use vstd::prelude::*;

use vstd::arithmetic::div_mod::{lemma_fundamental_div_mod, lemma_mod_bound};

verus! {

/// The marketplace's share of an amount: 15 percent, rounded down.
pub open spec fn marketplace_fee(amount: int) -> int {
    amount * 15 / 100
}

/// The creator's royalty on a sale: `royalty` percent of the price, rounded down.
pub open spec fn royalty_amount(price: int, royalty: int) -> int {
    price * royalty / 100
}

/// Whether a sale at `price` with `royalty` percent can be computed: the
/// product fits in 64 bits and the royalty does not exceed the price.
pub open spec fn sale_computable(price: u64, royalty: u8) -> bool {
    &&& price * royalty <= u64::MAX
    &&& royalty_amount(price as int, royalty as int) <= price
}

/// The marketplace's fee on any amount is exactly 15 percent of it,
/// rounded down: a hundred times the fee is at most fifteen times the
/// amount, and less than it by under a hundred.
pub proof fn lemma_marketplace_fee_is_fifteen_percent(amount: int)
    requires
        0 <= amount,
    ensures
        0 <= marketplace_fee(amount) <= amount,
        marketplace_fee(amount) * 100 <= amount * 15 < marketplace_fee(amount) * 100 + 100,
{
    lemma_fundamental_div_mod(amount * 15, 100);
    lemma_mod_bound(amount * 15, 100);
}

/// The royalty on any sale is exactly `royalty` percent of the price,
/// rounded down.
pub proof fn lemma_royalty_is_its_percentage(price: int, royalty: int)
    requires
        0 <= price,
        0 <= royalty,
    ensures
        0 <= royalty_amount(price, royalty),
        royalty_amount(price, royalty) * 100 <= price * royalty < royalty_amount(price, royalty)
            * 100 + 100,
{
    assert(0 <= price * royalty) by (nonlinear_arith)
        requires
            0 <= price,
            0 <= royalty,
    ;
    lemma_fundamental_div_mod(price * royalty, 100);
    lemma_mod_bound(price * royalty, 100);
}

/// What a mint pays: the creator's part and the marketplace's fee.
#[derive(Clone, Copy, Debug, PartialEq, Eq, Structural)]
pub struct MintPayment {
    pub creator_amount: u64,
    pub fee_amount: u64,
}

/// What a sale pays: to the seller, to the creator, and to the marketplace.
#[derive(Clone, Copy, Debug, PartialEq, Eq, Structural)]
pub struct SalePayment {
    pub seller_amount: u64,
    pub creator_amount: u64,
    pub fee_amount: u64,
}

/// Splits the price of a mint: the marketplace keeps its fee, the rest goes
/// to the creator's treasury.
pub fn mint_payment(price: u64) -> (p: MintPayment)
    requires
        price * 15 <= u64::MAX,
    ensures
        p.fee_amount == marketplace_fee(price as int),
        p.creator_amount == price - marketplace_fee(price as int),
        p.creator_amount + p.fee_amount == price,
        p.fee_amount <= p.creator_amount,
        p.fee_amount * 100 <= price * 15 < p.fee_amount * 100 + 100,
{
    proof {
        lemma_marketplace_fee_is_fifteen_percent(price as int);
    }
    let fee_amount = (price * 15) / 100;
    let creator_amount = price - fee_amount;
    MintPayment { creator_amount, fee_amount }
}

/// Splits the price of a sale: the royalty goes to the creator less the
/// marketplace's fee on it, the rest of the price to the seller.
pub fn sale_payment(price: u64, creator_royalty: u8) -> (p: SalePayment)
    requires
        sale_computable(price, creator_royalty),
    ensures
        p.seller_amount == price - royalty_amount(price as int, creator_royalty as int),
        p.fee_amount == marketplace_fee(royalty_amount(price as int, creator_royalty as int)),
        p.creator_amount == royalty_amount(price as int, creator_royalty as int)
            - marketplace_fee(royalty_amount(price as int, creator_royalty as int)),
        p.seller_amount + p.creator_amount + p.fee_amount == price,
        p.creator_amount + p.fee_amount == royalty_amount(price as int, creator_royalty as int),
        (p.creator_amount + p.fee_amount) * 100 <= price * creator_royalty < (p.creator_amount
            + p.fee_amount) * 100 + 100,
        p.fee_amount * 100 <= (p.creator_amount + p.fee_amount) * 15 < p.fee_amount * 100 + 100,
{
    proof {
        lemma_royalty_is_its_percentage(price as int, creator_royalty as int);
        lemma_marketplace_fee_is_fifteen_percent(royalty_amount(price as int, creator_royalty as int));
    }
    let royalty = (price * (creator_royalty as u64)) / 100;
    let seller_amount = price - royalty;
    assert(royalty * 15 <= u64::MAX) by (nonlinear_arith)
        requires
            royalty == (price * creator_royalty) / 100,
            price * creator_royalty <= u64::MAX,
    ;
    let fee_amount = (royalty * 15) / 100;
    let creator_amount = royalty - fee_amount;
    SalePayment { seller_amount, creator_amount, fee_amount }
}

} // verus!
