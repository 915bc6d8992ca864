use solana_program::pubkey::Pubkey;
use tiktok_market::address::Address;
use tiktok_market::error::MarketplaceError;
use tiktok_market::fees::{mint_payment, sale_payment};
use tiktok_market::instruction::Instruction;
use tiktok_market::instructions::process_buy_nft::BuyNft;
use tiktok_market::instructions::process_delist_nft::DelistNft;
use tiktok_market::instructions::process_list_nft::ListNft;
use tiktok_market::instructions::process_mint_nft::MintNft;
use tiktok_market::metadata::Creator;
use tiktok_market::seeds::escrow_signer_seeds;
use tiktok_market::state::{Escrow, ESCROW_SPACE};
use tiktok_market::step::{HandlerError, Step};
use tiktok_market::tiktok_market::{buy_nft, delist_nft, list_nft, mint_nft};

fn key(n: u8) -> Address {
    Address::new([n; 32])
}

fn token_program() -> Address {
    Address::new(spl_token::id().to_bytes())
}

fn pk(a: &Address) -> Pubkey {
    Pubkey::new_from_array(a.bytes)
}

fn same_instruction(ours: &Instruction, theirs: &solana_program::instruction::Instruction) -> bool {
    ours.program_id.bytes == theirs.program_id.to_bytes()
        && ours.data == theirs.data
        && ours.accounts.len() == theirs.accounts.len()
        && ours.accounts.iter().zip(theirs.accounts.iter()).all(|(a, b)| {
            a.key.bytes == b.pubkey.to_bytes()
                && a.is_signer == b.is_signer
                && a.is_writable == b.is_writable
        })
}

fn list_accounts() -> ListNft {
    ListNft {
        escrow_account: Escrow::vacant(),
        escrow_account_key: key(1),
        escrow_token_account: key(2),
        escrow_token_mint: key(3),
        escrow_token_owner: key(1),
        nft_mint: key(3),
        nft_metadata_account: key(13),
        seller_nft_token_account: key(4),
        seller_nft_token_owner: key(5),
        seller: key(5),
        creator: key(6),
        token_program: token_program(),
    }
}

fn delist_accounts(escrow: Escrow) -> DelistNft {
    DelistNft {
        escrow_account: escrow,
        escrow_account_key: key(1),
        escrow_token_account: key(2),
        nft_mint: key(3),
        seller_nft_token_account: key(4),
        seller_nft_token_owner: key(5),
        seller: key(5),
        creator: key(6),
        token_program: token_program(),
    }
}

fn buy_accounts(escrow: Escrow) -> BuyNft {
    BuyNft {
        escrow_account: escrow,
        escrow_account_key: key(1),
        escrow_token_account: key(2),
        nft_mint: key(3),
        buyer_nft_token_account: key(7),
        buyer_nft_token_mint: key(3),
        buyer_nft_token_owner: key(9),
        seller: key(5),
        seller_usdc_account: key(8),
        seller_usdc_owner: key(5),
        buyer: key(9),
        buyer_usdc_account: key(10),
        buyer_usdc_owner: key(9),
        creator: key(6),
        creator_usdc_account: key(11),
        creator_usdc_owner: key(6),
        fee_usdc_account: key(12),
        token_program: token_program(),
    }
}

fn is_vacant(e: &Escrow) -> bool {
    !e.is_active
        && e.seller.bytes == [0; 32]
        && e.creator.bytes == [0; 32]
        && e.mint.bytes == [0; 32]
        && e.token_account.bytes == [0; 32]
        && e.price == 0
        && e.creator_royalty == 0
}

#[test]
fn mint_fee_is_fifteen_percent_rounded_down() {
    let p = mint_payment(100);
    assert_eq!((p.creator_amount, p.fee_amount), (85, 15));
    let p = mint_payment(1_000_000);
    assert_eq!((p.creator_amount, p.fee_amount), (850_000, 150_000));
    let p = mint_payment(7);
    assert_eq!((p.creator_amount, p.fee_amount), (6, 1));
    let p = mint_payment(0);
    assert_eq!((p.creator_amount, p.fee_amount), (0, 0));
}

#[test]
fn sale_splits_royalty_and_fee() {
    let p = sale_payment(1000, 10);
    assert_eq!((p.seller_amount, p.creator_amount, p.fee_amount), (900, 85, 15));
    let p = sale_payment(999, 5);
    // royalty 49, fee 7
    assert_eq!((p.seller_amount, p.creator_amount, p.fee_amount), (950, 42, 7));
    let p = sale_payment(500, 100);
    assert_eq!((p.seller_amount, p.creator_amount, p.fee_amount), (0, 425, 75));
    let p = sale_payment(500, 0);
    assert_eq!((p.seller_amount, p.creator_amount, p.fee_amount), (500, 0, 0));
}

#[test]
fn error_codes_and_messages() {
    assert_eq!(MarketplaceError::NftListed.code(), 0);
    assert_eq!(MarketplaceError::NftUnlisted.code(), 1);
    assert_eq!(MarketplaceError::UnknownSeller.code(), 2);
    assert_eq!(
        MarketplaceError::NftListed.message(),
        "Nft already listed. Must delist first to update listing."
    );
    assert_eq!(MarketplaceError::NftUnlisted.message(), "Nft is already unlisted.");
    assert_eq!(
        MarketplaceError::UnknownSeller.message(),
        "Person attempting to delist is not the one who originally listed."
    );
}

#[test]
fn addresses_compare_by_bytes() {
    let mut b = [7u8; 32];
    assert!(key(7).same(&Address::new(b)));
    b[31] = 8;
    assert!(!key(7).same(&Address::new(b)));
    assert_eq!(Address::new(b).to_vec(), b.to_vec());
    assert_eq!(Address::zero().bytes, [0u8; 32]);
}

#[test]
fn escrow_space_counts_discriminator_and_fields() {
    assert_eq!(ESCROW_SPACE, 146);
    assert!(is_vacant(&Escrow::vacant()));
}

#[test]
fn signer_seeds_are_tag_keys_and_bump() {
    let seeds = escrow_signer_seeds(&key(6), &key(3), &key(5), 254);
    assert_eq!(seeds.len(), 5);
    assert_eq!(seeds[0], b"escrow".to_vec());
    assert_eq!(seeds[1], vec![6u8; 32]);
    assert_eq!(seeds[2], vec![3u8; 32]);
    assert_eq!(seeds[3], vec![5u8; 32]);
    assert_eq!(seeds[4], vec![254u8]);
}

#[test]
fn list_moves_nft_into_escrow_and_records_listing() {
    let mut a = list_accounts();
    let steps = a.handler(5000, 10).unwrap();
    assert_eq!(steps.len(), 1);
    match &steps[0] {
        Step::Invoke { instruction, accounts } => {
            let expected = spl_token::instruction::transfer(
                &spl_token::id(),
                &pk(&key(4)),
                &pk(&key(2)),
                &pk(&key(5)),
                &[&pk(&key(5))],
                1,
            )
            .unwrap();
            assert!(same_instruction(instruction, &expected));
            assert_eq!(instruction.data, vec![3, 1, 0, 0, 0, 0, 0, 0, 0]);
            assert_eq!(instruction.accounts.len(), 4);
            assert!(!instruction.accounts[2].is_signer);
            assert!(instruction.accounts[3].is_signer);
            let keys: Vec<[u8; 32]> = accounts.iter().map(|k| k.bytes).collect();
            assert_eq!(keys, vec![[5u8; 32], [2u8; 32], [4u8; 32]]);
        }
        other => panic!("unexpected step {:?}", other),
    }
    let e = a.escrow_account;
    assert!(e.is_active);
    assert_eq!(e.price, 5000);
    assert_eq!(e.creator_royalty, 10);
    assert_eq!(e.seller.bytes, [5u8; 32]);
    assert_eq!(e.creator.bytes, [6u8; 32]);
    assert_eq!(e.mint.bytes, [3u8; 32]);
    assert_eq!(e.token_account.bytes, [2u8; 32]);
}

#[test]
fn listing_twice_is_refused() {
    let mut a = list_accounts();
    a.handler(5000, 10).unwrap();
    let before = a.escrow_account;
    let r = a.handler(7000, 20);
    assert_eq!(r.unwrap_err(), HandlerError::Marketplace(MarketplaceError::NftListed));
    assert_eq!(a.escrow_account.price, before.price);
    assert_eq!(a.escrow_account.creator_royalty, 10);
}

#[test]
fn listing_with_a_wrong_token_program_is_refused() {
    let mut a = list_accounts();
    a.token_program = key(99);
    assert_eq!(a.handler(5000, 10).unwrap_err(), HandlerError::IncorrectProgramId);
    assert!(is_vacant(&a.escrow_account));
}

#[test]
fn delist_returns_nft_and_closes_escrow() {
    let mut l = list_accounts();
    l.handler(5000, 10).unwrap();
    let mut d = delist_accounts(l.escrow_account);
    let steps = d.handler(253).unwrap();
    assert_eq!(steps.len(), 3);
    match &steps[2] {
        Step::CloseProgramAccount { account, destination } => {
            assert_eq!((account.bytes, destination.bytes), ([1u8; 32], [5u8; 32]));
        }
        other => panic!("unexpected step {:?}", other),
    }
    let transfer = spl_token::instruction::transfer(
        &spl_token::id(),
        &pk(&key(2)),
        &pk(&key(4)),
        &pk(&key(1)),
        &[],
        1,
    )
    .unwrap();
    let close = spl_token::instruction::close_account(
        &spl_token::id(),
        &pk(&key(2)),
        &pk(&key(5)),
        &pk(&key(1)),
        &[],
    )
    .unwrap();
    match (&steps[0], &steps[1]) {
        (
            Step::InvokeSigned { instruction: t, accounts: ta, seeds: ts },
            Step::InvokeSigned { instruction: c, accounts: ca, seeds: cs },
        ) => {
            assert!(same_instruction(t, &transfer));
            assert!(same_instruction(c, &close));
            assert_eq!(c.data, vec![9]);
            assert_eq!(ta.iter().map(|k| k.bytes).collect::<Vec<_>>(), vec![[1u8; 32], [2; 32], [4; 32]]);
            assert_eq!(ca.iter().map(|k| k.bytes).collect::<Vec<_>>(), vec![[1u8; 32], [2; 32], [5; 32]]);
            let expected = escrow_signer_seeds(&key(6), &key(3), &key(5), 253);
            assert_eq!(ts, &expected);
            assert_eq!(cs, &expected);
        }
        other => panic!("unexpected steps {:?}", other),
    }
    assert!(is_vacant(&d.escrow_account));
    // a closed escrow takes a new listing
    let mut again = list_accounts();
    again.escrow_account = d.escrow_account;
    assert!(again.handler(1, 1).is_ok());
}

#[test]
fn delist_of_unlisted_is_refused() {
    let mut d = delist_accounts(Escrow::vacant());
    assert_eq!(
        d.handler(1).unwrap_err(),
        HandlerError::Marketplace(MarketplaceError::NftUnlisted)
    );
}

#[test]
fn delist_by_another_key_is_refused() {
    let mut l = list_accounts();
    l.handler(5000, 10).unwrap();
    let mut d = delist_accounts(l.escrow_account);
    d.seller = key(42);
    assert_eq!(
        d.handler(1).unwrap_err(),
        HandlerError::Marketplace(MarketplaceError::UnknownSeller)
    );
    assert!(d.escrow_account.is_active);
}

#[test]
fn delist_with_a_wrong_token_program_is_refused() {
    let mut l = list_accounts();
    l.handler(5000, 10).unwrap();
    let mut d = delist_accounts(l.escrow_account);
    d.token_program = key(99);
    assert_eq!(d.handler(1).unwrap_err(), HandlerError::IncorrectProgramId);
    assert!(d.escrow_account.is_active);
}

#[test]
fn buy_pays_listed_price_and_hands_over_nft() {
    let mut l = list_accounts();
    l.handler(10_000, 7).unwrap();
    let mut b = buy_accounts(l.escrow_account);
    let steps = b.handler(250).unwrap();
    assert_eq!(steps.len(), 6);
    match &steps[5] {
        Step::CloseProgramAccount { account, destination } => {
            assert_eq!((account.bytes, destination.bytes), ([1u8; 32], [9u8; 32]));
        }
        other => panic!("unexpected step {:?}", other),
    }
    let mut total = 0u64;
    let expected = [([8u8; 32], 9300u64), ([11u8; 32], 595), ([12u8; 32], 105)];
    for (step, (to_key, amount)) in steps[..3].iter().zip(expected.iter()) {
        match step {
            Step::TokenTransfer { from, to, authority, amount: a } => {
                assert_eq!(from.bytes, [10u8; 32]);
                assert_eq!(authority.bytes, [9u8; 32]);
                assert_eq!(&to.bytes, to_key);
                assert_eq!(a, amount);
                total += a;
            }
            other => panic!("unexpected step {:?}", other),
        }
    }
    assert_eq!(total, 10_000);
    let transfer = spl_token::instruction::transfer(
        &spl_token::id(),
        &pk(&key(2)),
        &pk(&key(7)),
        &pk(&key(1)),
        &[],
        1,
    )
    .unwrap();
    match &steps[3] {
        Step::InvokeSigned { instruction, seeds, .. } => {
            assert!(same_instruction(instruction, &transfer));
            assert_eq!(seeds, &escrow_signer_seeds(&key(6), &key(3), &key(5), 250));
        }
        other => panic!("unexpected step {:?}", other),
    }
    match &steps[4] {
        Step::InvokeSigned { instruction, accounts, .. } => {
            assert_eq!(instruction.data, vec![9]);
            assert_eq!(accounts[2].bytes, [5u8; 32]);
        }
        other => panic!("unexpected step {:?}", other),
    }
    assert!(is_vacant(&b.escrow_account));
}

#[test]
fn buy_of_unlisted_is_refused() {
    let mut b = buy_accounts(Escrow::vacant());
    assert_eq!(
        b.handler(1).unwrap_err(),
        HandlerError::Marketplace(MarketplaceError::NftUnlisted)
    );
    assert!(is_vacant(&b.escrow_account));
}

#[test]
fn buy_with_a_wrong_token_program_is_refused() {
    let mut l = list_accounts();
    l.handler(10_000, 7).unwrap();
    let mut b = buy_accounts(l.escrow_account);
    b.token_program = key(99);
    assert_eq!(b.handler(1).unwrap_err(), HandlerError::IncorrectProgramId);
    assert!(b.escrow_account.is_active);
}

fn mint_accounts() -> MintNft {
    MintNft {
        metadata: key(20),
        master_edition: key(21),
        mint: key(22),
        token_account: key(23),
        user_usdc_account: key(24),
        user_usdc_owner: key(25),
        user: key(25),
        treasury_usdc_account: key(26),
        treasury_usdc_owner: key(28),
        fee_usdc_account: key(27),
        treasury: key(28),
        rent: key(29),
        token_program: token_program(),
    }
}

#[test]
fn mint_pays_and_creates_nft() {
    let a = mint_accounts();
    let steps = mint_nft(&a, key(30), "Song".to_string(), "https://x/1.json".to_string(), 2000).unwrap();
    assert_eq!(steps.len(), 8);
    match (&steps[0], &steps[1]) {
        (
            Step::TokenTransfer { from: f0, to: t0, authority: a0, amount: m0 },
            Step::TokenTransfer { from: f1, to: t1, authority: a1, amount: m1 },
        ) => {
            assert_eq!((f0.bytes, t0.bytes, a0.bytes, *m0), ([24; 32], [26; 32], [25; 32], 1700));
            assert_eq!((f1.bytes, t1.bytes, a1.bytes, *m1), ([24; 32], [27; 32], [25; 32], 300));
        }
        other => panic!("unexpected steps {:?}", other),
    }
    match &steps[2] {
        Step::CreateAccount { from, to, lamports, space, owner } => {
            assert_eq!((from.bytes, to.bytes), ([25; 32], [22; 32]));
            assert_eq!((*lamports, *space), (10_000_000, 82));
            assert_eq!(owner.bytes, spl_token::id().to_bytes());
        }
        other => panic!("unexpected step {:?}", other),
    }
    match &steps[3] {
        Step::InitializeMint { mint, decimals, mint_authority, freeze_authority } => {
            assert_eq!((mint.bytes, *decimals, mint_authority.bytes), ([22; 32], 0, [25; 32]));
            assert_eq!(freeze_authority.map(|k| k.bytes), Some([25; 32]));
        }
        other => panic!("unexpected step {:?}", other),
    }
    match &steps[5] {
        Step::MintTo { mint, to, authority, amount } => {
            assert_eq!((mint.bytes, to.bytes, authority.bytes, *amount), ([22; 32], [23; 32], [25; 32], 1));
        }
        other => panic!("unexpected step {:?}", other),
    }
    let creators = vec![
        mpl_token_metadata::state::Creator { address: pk(&key(30)), verified: false, share: 0 },
        mpl_token_metadata::state::Creator { address: pk(&key(28)), verified: false, share: 100 },
    ];
    let metadata = mpl_token_metadata::instruction::create_metadata_accounts_v2(
        mpl_token_metadata::id(),
        pk(&key(20)),
        pk(&key(22)),
        pk(&key(25)),
        pk(&key(25)),
        pk(&key(25)),
        "Song".to_string(),
        "".to_string(),
        "https://x/1.json".to_string(),
        Some(creators),
        1,
        true,
        false,
        None,
        None,
    );
    let edition = mpl_token_metadata::instruction::create_master_edition_v3(
        mpl_token_metadata::id(),
        pk(&key(21)),
        pk(&key(22)),
        pk(&key(25)),
        pk(&key(25)),
        pk(&key(20)),
        pk(&key(25)),
        Some(0),
    );
    match (&steps[6], &steps[7]) {
        (
            Step::Invoke { instruction: m, accounts: ma },
            Step::Invoke { instruction: e, accounts: ea },
        ) => {
            assert!(same_instruction(m, &metadata));
            assert!(same_instruction(e, &edition));
            assert_eq!(ma.len(), 5);
            assert_eq!(ea.len(), 6);
            assert_eq!(ma[4].bytes, [29; 32]);
        }
        other => panic!("unexpected steps {:?}", other),
    }
}

#[test]
fn mint_checks_usdc_owners() {
    let mut a = mint_accounts();
    assert_eq!(a.validate(), Ok(()));
    a.treasury_usdc_owner = key(99);
    assert_eq!(a.validate(), Err(HandlerError::ConstraintRaw));
    let mut a = mint_accounts();
    a.user_usdc_owner = key(99);
    assert_eq!(a.validate(), Err(HandlerError::ConstraintRaw));
}

fn program_id() -> Address {
    key(77)
}

fn find(seeds: &[&[u8]], program: &Pubkey) -> Address {
    Address::new(Pubkey::find_program_address(seeds, program).0.to_bytes())
}

fn escrow_pda() -> (Address, u8) {
    let (pda, bump) = Pubkey::find_program_address(
        &[b"escrow", &[6u8; 32], &[3u8; 32], &[5u8; 32]],
        &pk(&program_id()),
    );
    (Address::new(pda.to_bytes()), bump)
}

fn escrow_token_pda(escrow: &Address) -> Address {
    find(&[b"token-account", &escrow.bytes], &pk(&program_id()))
}

fn ata(wallet: &Address, mint: &Address) -> Address {
    let a = spl_associated_token_account::get_associated_token_address(&pk(wallet), &pk(mint));
    Address::new(a.to_bytes())
}

fn valid_list_accounts() -> ListNft {
    let (escrow, _) = escrow_pda();
    let mut a = list_accounts();
    a.escrow_account_key = escrow;
    a.escrow_token_owner = escrow;
    a.escrow_token_account = escrow_token_pda(&escrow);
    a.nft_metadata_account = find(
        &[b"metadata", mpl_token_metadata::id().as_ref(), &[3u8; 32]],
        &mpl_token_metadata::id(),
    );
    a.seller_nft_token_account = ata(&key(5), &key(3));
    a
}

fn valid_delist_accounts(escrow: Escrow) -> (DelistNft, u8) {
    let (pda, bump) = escrow_pda();
    let mut d = delist_accounts(escrow);
    d.escrow_account_key = pda;
    d.escrow_token_account = escrow_token_pda(&pda);
    d.seller_nft_token_account = ata(&key(5), &key(3));
    (d, bump)
}

fn valid_buy_accounts(escrow: Escrow) -> (BuyNft, u8) {
    let (pda, bump) = escrow_pda();
    let mut b = buy_accounts(escrow);
    b.escrow_account_key = pda;
    b.escrow_token_account = escrow_token_pda(&pda);
    b.buyer_nft_token_account = ata(&key(9), &key(3));
    (b, bump)
}

#[test]
fn list_checks_accounts_in_order() {
    let a = valid_list_accounts();
    assert_eq!(a.validate(&program_id()), Ok(()));
    let mut b = a;
    b.escrow_account_key = key(1);
    assert_eq!(b.validate(&program_id()), Err(HandlerError::ConstraintSeeds));
    let mut b = a;
    b.escrow_token_mint = key(4);
    assert_eq!(b.validate(&program_id()), Err(HandlerError::ConstraintTokenMint));
    let mut b = a;
    b.escrow_token_owner = key(5);
    assert_eq!(b.validate(&program_id()), Err(HandlerError::ConstraintTokenOwner));
    let mut b = a;
    b.escrow_token_account = key(2);
    assert_eq!(b.validate(&program_id()), Err(HandlerError::ConstraintSeeds));
    let mut b = a;
    b.nft_metadata_account = key(13);
    assert_eq!(b.validate(&program_id()), Err(HandlerError::ConstraintSeeds));
    let mut b = a;
    b.seller_nft_token_owner = key(6);
    assert_eq!(b.validate(&program_id()), Err(HandlerError::ConstraintTokenOwner));
    let mut b = a;
    b.seller_nft_token_account = key(4);
    assert_eq!(b.validate(&program_id()), Err(HandlerError::ConstraintAssociated));
    // checked on another program, the escrow's address is wrong first
    assert_eq!(a.validate(&key(78)), Err(HandlerError::ConstraintSeeds));
}

#[test]
fn delist_checks_accounts_in_order() {
    let (d, bump) = valid_delist_accounts(Escrow::vacant());
    assert_eq!(d.validate(&program_id(), bump), Ok(()));
    assert_eq!(d.validate(&key(78), bump), Err(HandlerError::ConstraintSeeds));
    let mut e = d;
    e.escrow_account_key = key(1);
    assert_eq!(e.validate(&program_id(), bump), Err(HandlerError::ConstraintSeeds));
    let mut e = d;
    e.seller = key(42);
    assert_eq!(e.validate(&program_id(), bump), Err(HandlerError::ConstraintSeeds));
    let mut e = d;
    e.escrow_token_account = key(2);
    assert_eq!(e.validate(&program_id(), bump), Err(HandlerError::ConstraintSeeds));
    let mut e = d;
    e.seller_nft_token_owner = key(6);
    assert_eq!(e.validate(&program_id(), bump), Err(HandlerError::ConstraintTokenOwner));
    let mut e = d;
    e.seller_nft_token_account = key(4);
    assert_eq!(e.validate(&program_id(), bump), Err(HandlerError::ConstraintAssociated));
}

#[test]
fn buy_checks_accounts_in_order() {
    let (b, bump) = valid_buy_accounts(Escrow::vacant());
    assert_eq!(b.validate(&program_id(), bump), Ok(()));
    let mut c = b;
    c.buyer_nft_token_mint = key(4);
    assert_eq!(c.validate(&program_id(), bump), Err(HandlerError::ConstraintTokenMint));
    let mut c = b;
    c.buyer_nft_token_owner = key(4);
    assert_eq!(c.validate(&program_id(), bump), Err(HandlerError::ConstraintTokenOwner));
    let mut c = b;
    c.buyer_nft_token_account = key(7);
    assert_eq!(c.validate(&program_id(), bump), Err(HandlerError::AccountNotAssociatedTokenAccount));
    let mut c = b;
    c.escrow_account_key = key(1);
    assert_eq!(c.validate(&program_id(), bump), Err(HandlerError::ConstraintSeeds));
    let mut c = b;
    c.escrow_token_account = key(2);
    assert_eq!(c.validate(&program_id(), bump), Err(HandlerError::ConstraintSeeds));
    let mut c = b;
    c.seller_usdc_owner = key(99);
    assert_eq!(c.validate(&program_id(), bump), Err(HandlerError::ConstraintRaw));
    let mut c = b;
    c.buyer_usdc_owner = key(99);
    assert_eq!(c.validate(&program_id(), bump), Err(HandlerError::ConstraintRaw));
    let mut c = b;
    c.creator_usdc_owner = key(99);
    assert_eq!(c.validate(&program_id(), bump), Err(HandlerError::ConstraintRaw));
}

#[test]
fn signed_steps_derive_the_escrow_address() {
    let mut l = valid_list_accounts();
    assert_eq!(l.validate(&program_id()), Ok(()));
    list_nft(&mut l, &program_id(), 10, 1).unwrap();
    let (mut d, bump) = valid_delist_accounts(l.escrow_account);
    assert_eq!(d.validate(&program_id(), bump), Ok(()));
    let pda = d.escrow_account_key;
    let steps = delist_nft(&mut d, &program_id(), bump).unwrap();
    assert_eq!(steps.len(), 3);
    for step in &steps[..2] {
        match step {
            Step::InvokeSigned { instruction, seeds, .. } => {
                let refs: Vec<&[u8]> = seeds.iter().map(|s| s.as_slice()).collect();
                let derived = Pubkey::create_program_address(&refs, &pk(&program_id())).unwrap();
                assert_eq!(derived.to_bytes(), pda.bytes);
                assert_eq!(instruction.accounts[2].key.bytes, pda.bytes);
                assert!(instruction.accounts[2].is_signer);
            }
            other => panic!("unexpected step {:?}", other),
        }
    }
}

#[test]
fn purchase_delivers_the_listed_token_and_withdrawal_returns_it() {
    let mut l = valid_list_accounts();
    assert_eq!(l.validate(&program_id()), Ok(()));
    let listed = list_nft(&mut l, &program_id(), 2500, 20).unwrap();
    let deposit = match &listed[0] {
        Step::Invoke { instruction, .. } => instruction.accounts[1].key,
        other => panic!("unexpected step {:?}", other),
    };
    assert_eq!(deposit.bytes, l.escrow_token_account.bytes);
    assert_eq!(l.escrow_account.token_account.bytes, l.escrow_token_account.bytes);

    let (mut b, bump) = valid_buy_accounts(l.escrow_account);
    assert_eq!(b.validate(&program_id(), bump), Ok(()));
    let steps = buy_nft(&mut b, &program_id(), bump).unwrap();
    match &steps[3] {
        Step::InvokeSigned { instruction, .. } => {
            assert_eq!(instruction.accounts[0].key.bytes, deposit.bytes);
            assert_eq!(instruction.accounts[1].key.bytes, ata(&key(9), &key(3)).bytes);
        }
        other => panic!("unexpected step {:?}", other),
    }

    let (mut d, bump) = valid_delist_accounts(l.escrow_account);
    assert_eq!(d.validate(&program_id(), bump), Ok(()));
    let steps = delist_nft(&mut d, &program_id(), bump).unwrap();
    match &steps[0] {
        Step::InvokeSigned { instruction, .. } => {
            assert_eq!(instruction.accounts[0].key.bytes, deposit.bytes);
            assert_eq!(instruction.accounts[1].key.bytes, l.seller_nft_token_account.bytes);
        }
        other => panic!("unexpected step {:?}", other),
    }
}

#[test]
fn sale_split_grows_with_price_and_seller_part_shrinks_with_royalty() {
    let a = sale_payment(1000, 30);
    let b = sale_payment(1001, 30);
    assert!(a.seller_amount <= b.seller_amount);
    assert!(a.creator_amount <= b.creator_amount);
    assert!(a.fee_amount <= b.fee_amount);
    let low = sale_payment(1000, 10);
    let high = sale_payment(1000, 11);
    assert!(high.seller_amount <= low.seller_amount);
}

#[test]
fn mint_metadata_arguments_reach_only_the_metadata_instruction() {
    let a = mint_accounts();
    let one = mint_nft(&a, key(30), "A".to_string(), "u1".to_string(), 400).unwrap();
    let two = mint_nft(&a, key(31), "B".to_string(), "u2".to_string(), 400).unwrap();
    assert_eq!(one.len(), 8);
    for i in 0..8 {
        if i != 6 {
            assert_eq!(format!("{:?}", one[i]), format!("{:?}", two[i]));
        }
    }
    match (&one[6], &two[6]) {
        (Step::Invoke { instruction: m1, accounts: a1 }, Step::Invoke { instruction: m2, accounts: a2 }) => {
            assert_eq!(format!("{:?}", a1), format!("{:?}", a2));
            assert_eq!(format!("{:?}", m1.accounts), format!("{:?}", m2.accounts));
            assert_ne!(m1.data, m2.data);
        }
        other => panic!("unexpected steps {:?}", other),
    }
    match &one[7] {
        Step::Invoke { instruction, .. } => {
            assert_eq!(instruction.data, vec![17, 1, 0, 0, 0, 0, 0, 0, 0, 0]);
        }
        other => panic!("unexpected step {:?}", other),
    }
}

#[test]
fn a_listing_is_sold_at_most_once() {
    let mut l = list_accounts();
    l.handler(100, 5).unwrap();
    let mut b = buy_accounts(l.escrow_account);
    b.handler(1).unwrap();
    let mut again = buy_accounts(b.escrow_account);
    assert_eq!(
        again.handler(1).unwrap_err(),
        HandlerError::Marketplace(MarketplaceError::NftUnlisted)
    );
    let mut d = delist_accounts(b.escrow_account);
    assert_eq!(
        d.handler(1).unwrap_err(),
        HandlerError::Marketplace(MarketplaceError::NftUnlisted)
    );
}

#[test]
fn entry_points_check_accounts_before_running() {
    // a listing whose accounts fail their checks changes nothing
    let mut bad = list_accounts();
    assert_eq!(list_nft(&mut bad, &program_id(), 10, 1).unwrap_err(), HandlerError::ConstraintSeeds);
    assert!(is_vacant(&bad.escrow_account));
    // a mint whose USDC account is not the user's is refused
    let mut m = mint_accounts();
    m.user_usdc_owner = key(99);
    assert_eq!(
        mint_nft(&m, key(30), "A".to_string(), "u".to_string(), 10).unwrap_err(),
        HandlerError::ConstraintRaw
    );
    // a purchase with the wrong escrow address is refused before anything is paid
    let mut l = valid_list_accounts();
    list_nft(&mut l, &program_id(), 10, 1).unwrap();
    let (mut b, bump) = valid_buy_accounts(l.escrow_account);
    b.escrow_account_key = key(1);
    assert_eq!(buy_nft(&mut b, &program_id(), bump).unwrap_err(), HandlerError::ConstraintSeeds);
    assert!(b.escrow_account.is_active);
    let (mut d, bump) = valid_delist_accounts(l.escrow_account);
    d.seller_nft_token_account = key(4);
    assert_eq!(delist_nft(&mut d, &program_id(), bump).unwrap_err(), HandlerError::ConstraintAssociated);
    assert!(d.escrow_account.is_active);
}
