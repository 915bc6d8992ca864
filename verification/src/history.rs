//! The life of one escrow over any sequence of instructions on it.
use vstd::prelude::*;

use crate::instruction::{close_account_ix, token_transfer_ix};
use crate::instructions::process_buy_nft::{buy_outcome, BuyNft};
use crate::instructions::process_delist_nft::{delist_outcome, DelistNft};
use crate::instructions::process_list_nft::{list_effect, list_outcome, ListNft};
use crate::seeds::{is_canonical_address, lemma_canonical_address_unique, token_account_seeds};
use crate::state::Escrow;
use crate::step::{HandlerError, StepView};
use crate::tiktok_market::{buy_instruction, delist_instruction, list_instruction};

verus! {

/// One instruction on an escrow, with its accounts (whose escrow state is
/// the escrow's at the time) and the program it is sent to.
pub enum EscrowEvent {
    List { accounts: ListNft, program_id: Seq<u8>, price: u64, creator_royalty: u8 },
    Delist { accounts: DelistNft, program_id: Seq<u8>, escrow_nonce: u8 },
    Buy { accounts: BuyNft, program_id: Seq<u8>, escrow_nonce: u8 },
}

/// The escrow state that an instruction reads.
pub open spec fn event_escrow(ev: EscrowEvent) -> Escrow {
    match ev {
        EscrowEvent::List { accounts, .. } => accounts.escrow_account,
        EscrowEvent::Delist { accounts, .. } => accounts.escrow_account,
        EscrowEvent::Buy { accounts, .. } => accounts.escrow_account,
    }
}

/// Whether an instruction is sent to `program_id` and names the escrow
/// account `escrow_key`.
pub open spec fn event_on(ev: EscrowEvent, program_id: Seq<u8>, escrow_key: Seq<u8>) -> bool {
    match ev {
        EscrowEvent::List { accounts, program_id: p, .. } => p == program_id
            && accounts.escrow_account_key@ == escrow_key,
        EscrowEvent::Delist { accounts, program_id: p, .. } => p == program_id
            && accounts.escrow_account_key@ == escrow_key,
        EscrowEvent::Buy { accounts, program_id: p, .. } => p == program_id
            && accounts.escrow_account_key@ == escrow_key,
    }
}

/// Whether an instruction is accepted: its accounts pass their checks and
/// the instruction itself is not refused.
pub open spec fn event_accepted(ev: EscrowEvent) -> bool {
    match ev {
        EscrowEvent::List { accounts, program_id, price, creator_royalty } => list_instruction(
            accounts,
            program_id,
            price,
            creator_royalty,
        ) is Ok,
        EscrowEvent::Delist { accounts, program_id, escrow_nonce } => delist_instruction(
            accounts,
            program_id,
            escrow_nonce,
        ) is Ok,
        EscrowEvent::Buy { accounts, program_id, escrow_nonce } => buy_instruction(
            accounts,
            program_id,
            escrow_nonce,
        ) is Ok,
    }
}

/// Whether `after` is the escrow state that an instruction leaves, as the
/// entry points' contracts say: a listing records itself, a withdrawal or
/// purchase leaves the escrow vacant, a refusal changes nothing.
pub open spec fn event_leaves(ev: EscrowEvent, after: Escrow) -> bool {
    if !event_accepted(ev) {
        after == event_escrow(ev)
    } else {
        match ev {
            EscrowEvent::List { accounts, price, creator_royalty, .. } => after == list_effect(
                accounts,
                price,
                creator_royalty,
            ).escrow_account,
            _ => after.is_vacant(),
        }
    }
}

/// The index of the last accepted instruction among the first `n`, or -1.
pub open spec fn last_accepted(events: Seq<EscrowEvent>, n: int) -> int
    decreases n,
{
    if n <= 0 {
        -1
    } else if event_accepted(events[n - 1]) {
        n - 1
    } else {
        last_accepted(events, n - 1)
    }
}

/// Whether the listing `ev` is in force on the escrow state `e`: `e` is
/// what it recorded, its one step moved one token into the token account
/// that `e` records, and that token account is the escrow's own.
pub open spec fn listing_in_force(
    ev: EscrowEvent,
    e: Escrow,
    program_id: Seq<u8>,
    escrow_key: Seq<u8>,
) -> bool {
    match ev {
        EscrowEvent::List { accounts: a, price, creator_royalty, .. } => {
            &&& e == list_effect(a, price, creator_royalty).escrow_account
            &&& list_outcome(a, price, creator_royalty) == Ok::<Seq<StepView>, HandlerError>(
                seq![
                    StepView::Invoke {
                        instruction: token_transfer_ix(
                            a.token_program@,
                            a.seller_nft_token_account@,
                            e.token_account@,
                            a.seller@,
                            seq![a.seller@],
                            1,
                        ),
                        accounts: seq![a.seller@, e.token_account@, a.seller_nft_token_account@],
                    },
                ],
            )
            &&& is_canonical_address(e.token_account@, token_account_seeds(escrow_key), program_id)
        },
        _ => false,
    }
}

/// What holds of the escrow after the first `n` instructions.
pub open spec fn escrow_life(
    states: Seq<Escrow>,
    events: Seq<EscrowEvent>,
    program_id: Seq<u8>,
    escrow_key: Seq<u8>,
    n: int,
) -> bool {
    let j = last_accepted(events, n);
    &&& states[n].is_active <==> (j >= 0 && events[j] is List)
    &&& !states[n].is_active ==> states[n].is_vacant()
    &&& states[n].is_active ==> listing_in_force(events[j], states[n], program_id, escrow_key)
}

/// Whether an accepted withdrawal or purchase releases the escrow as it
/// must: the NFT leaves the token account that the escrow records, and
/// both that token account and the escrow account are closed.
pub open spec fn releases(ev: EscrowEvent, before: Escrow) -> bool {
    match ev {
        EscrowEvent::Delist { accounts: d, escrow_nonce, .. } => {
            let steps = delist_outcome(d, escrow_nonce)->Ok_0;
            &&& d.escrow_token_account@ == before.token_account@
            &&& steps[0] matches StepView::InvokeSigned { instruction, .. }
            &&& instruction == token_transfer_ix(
                d.token_program@,
                before.token_account@,
                d.seller_nft_token_account@,
                d.escrow_account_key@,
                seq![],
                1,
            )
            &&& steps[1] matches StepView::InvokeSigned { instruction: close, .. }
            &&& close == close_account_ix(
                d.token_program@,
                before.token_account@,
                d.seller@,
                d.escrow_account_key@,
                seq![],
            )
            &&& steps[2] == (StepView::CloseProgramAccount {
                account: d.escrow_account_key@,
                destination: d.seller@,
            })
        },
        EscrowEvent::Buy { accounts: b, escrow_nonce, .. } => {
            let steps = buy_outcome(b, escrow_nonce)->Ok_0;
            &&& b.escrow_token_account@ == before.token_account@
            &&& steps[3] matches StepView::InvokeSigned { instruction, .. }
            &&& instruction == token_transfer_ix(
                b.token_program@,
                before.token_account@,
                b.buyer_nft_token_account@,
                b.escrow_account_key@,
                seq![],
                1,
            )
            &&& steps[4] matches StepView::InvokeSigned { instruction: close, .. }
            &&& close == close_account_ix(
                b.token_program@,
                before.token_account@,
                b.seller@,
                b.escrow_account_key@,
                seq![],
            )
            &&& steps[5] == (StepView::CloseProgramAccount {
                account: b.escrow_account_key@,
                destination: b.buyer@,
            })
        },
        _ => true,
    }
}

/// The escrow's life holds after one more instruction.
proof fn lemma_escrow_life_step(
    states: Seq<Escrow>,
    events: Seq<EscrowEvent>,
    program_id: Seq<u8>,
    escrow_key: Seq<u8>,
    n: int,
)
    requires
        0 <= n < events.len(),
        states.len() == events.len() + 1,
        escrow_life(states, events, program_id, escrow_key, n),
        event_escrow(events[n]) == states[n],
        event_leaves(events[n], states[n + 1]),
        event_on(events[n], program_id, escrow_key),
    ensures
        escrow_life(states, events, program_id, escrow_key, n + 1),
        event_accepted(events[n]) && !(events[n] is List) ==> states[n].is_active && releases(
            events[n],
            states[n],
        ),
{
    let ev = events[n];
    assert(last_accepted(events, n + 1) == if event_accepted(ev) {
        n
    } else {
        last_accepted(events, n)
    });
    if event_accepted(ev) {
        match ev {
            EscrowEvent::Delist { accounts: d, program_id: p, escrow_nonce } => {
                assert(states[n].is_active);
                lemma_canonical_address_unique(
                    d.escrow_token_account@,
                    states[n].token_account@,
                    token_account_seeds(escrow_key),
                    program_id,
                );
            },
            EscrowEvent::Buy { accounts: b, program_id: p, escrow_nonce } => {
                assert(states[n].is_active);
                lemma_canonical_address_unique(
                    b.escrow_token_account@,
                    states[n].token_account@,
                    token_account_seeds(escrow_key),
                    program_id,
                );
            },
            EscrowEvent::List { .. } => {},
        }
    }
}

/// The life of an escrow. Start from a vacant escrow and run any sequence
/// of listings, withdrawals and purchases on it, each sent to one program
/// and naming one escrow account, accepted or refused. Then:
/// - the escrow is active exactly when the last accepted instruction was a
///   listing, and otherwise it is vacant;
/// - while active, the escrow holds what that listing recorded, that
///   listing moved one token into the token account the escrow records,
///   and that token account is the escrow's own;
/// - an instruction that withdraws or buys is accepted only while a listing
///   is in force, and then moves the NFT out of the token account the
///   escrow records and closes both that account and the escrow.
pub proof fn lemma_escrow_life(
    states: Seq<Escrow>,
    events: Seq<EscrowEvent>,
    program_id: Seq<u8>,
    escrow_key: Seq<u8>,
)
    requires
        states.len() == events.len() + 1,
        states[0].is_vacant(),
        forall|i: int|
            0 <= i < events.len() ==> event_escrow(#[trigger] events[i]) == states[i]
                && event_leaves(events[i], states[i + 1]) && event_on(
                events[i],
                program_id,
                escrow_key,
            ),
    ensures
        forall|n: int|
            0 <= n <= events.len() ==> #[trigger] escrow_life(
                states,
                events,
                program_id,
                escrow_key,
                n,
            ),
        forall|k: int|
            0 <= k < events.len() && event_accepted(#[trigger] events[k]) && !(events[k] is List)
                ==> states[k].is_active && releases(events[k], states[k]),
    decreases events.len(),
{
    if events.len() == 0 {
        assert(escrow_life(states, events, program_id, escrow_key, 0));
    } else {
        let m = events.len() - 1;
        let ps = states.take(m + 1);
        let pe = events.take(m);
        assert forall|i: int| 0 <= i < pe.len() implies event_escrow(#[trigger] pe[i]) == ps[i]
            && event_leaves(pe[i], ps[i + 1]) && event_on(pe[i], program_id, escrow_key) by {
            assert(pe[i] == events[i]);
        }
        lemma_escrow_life(ps, pe, program_id, escrow_key);
        assert forall|n: int| 0 <= n <= m implies #[trigger] escrow_life(
            states,
            events,
            program_id,
            escrow_key,
            n,
        ) by {
            assert(escrow_life(ps, pe, program_id, escrow_key, n));
            lemma_last_accepted_prefix(events, m, n);
        }
        assert(event_escrow(events[m]) == states[m]);
        lemma_escrow_life_step(states, events, program_id, escrow_key, m);
        assert forall|k: int|
            0 <= k < events.len() && event_accepted(#[trigger] events[k]) && !(events[k] is List)
            implies states[k].is_active && releases(events[k], states[k]) by {
            if k < m {
                assert(pe[k] == events[k]);
                assert(event_accepted(pe[k]));
            }
        }
    }
}

/// The last accepted instruction among the first `n` is the same in a
/// sequence and in its prefix of length `m >= n`.
proof fn lemma_last_accepted_prefix(events: Seq<EscrowEvent>, m: int, n: int)
    requires
        0 <= n <= m <= events.len(),
    ensures
        last_accepted(events.take(m), n) == last_accepted(events, n),
        last_accepted(events, n) < n,
    decreases n,
{
    if n > 0 {
        assert(events.take(m)[n - 1] == events[n - 1]);
        lemma_last_accepted_prefix(events, m, n - 1);
    }
}

} // verus!
