//! The seeds from which the escrow's program address is derived; the
//! marketplace signs for the escrow with them.
use vstd::prelude::*;

use solana_program::pubkey::{Pubkey, PubkeyError};

use crate::address::Address;
use crate::instruction::{token_program_id, token_program_key};

verus! {

#[verifier::external_type_specification]
#[verifier::external_body]
pub struct ExPubkeyError(PubkeyError);

/// The program address that `seeds` derive for `program_id`: none when the
/// hash of the seeds and the program id is a point on the curve.
pub uninterp spec fn program_address(seeds: Seq<Seq<u8>>, program_id: Seq<u8>) -> Option<Seq<u8>>;

/// Whether the seeds are within the limits of address derivation: at most
/// 16 seeds of at most 32 bytes each.
pub open spec fn seeds_within_limits(seeds: Seq<Seq<u8>>) -> bool {
    &&& seeds.len() <= 16
    &&& forall|i: int| 0 <= i < seeds.len() ==> #[trigger] seeds[i].len() <= 32
}

/// The bytes of `b"escrow"`, the first seed of every escrow address.
pub open spec fn escrow_seed_tag() -> Seq<u8> {
    seq![101u8, 115, 99, 114, 111, 119]
}

/// The seeds of the escrow for one (creator, mint, seller) triple, ending
/// with the bump byte that makes them an address off the curve.
pub open spec fn escrow_seeds(creator: Seq<u8>, mint: Seq<u8>, seller: Seq<u8>, bump: u8) -> Seq<
    Seq<u8>,
> {
    seq![escrow_seed_tag(), creator, mint, seller, seq![bump]]
}

/// The views of a list of byte vectors.
pub open spec fn seeds_view(seeds: Seq<Vec<u8>>) -> Seq<Seq<u8>> {
    seeds.map_values(|s: Vec<u8>| s@)
}

/// The seeds with which the program signs for the escrow of `creator`,
/// `mint` and `seller`.
pub fn escrow_signer_seeds(creator: &Address, mint: &Address, seller: &Address, bump: u8) -> (s: Vec<
    Vec<u8>,
>)
    ensures
        seeds_view(s@) == escrow_seeds(creator@, mint@, seller@, bump),
{
    let mut s = escrow_address_seeds(creator, mint, seller);
    let bump_seed: Vec<u8> = vec![bump];
    assert(bump_seed@ =~= seq![bump]);
    let ghost base = s@;
    s.push(bump_seed);
    assert(seeds_view(s@) =~= seeds_view(base).push(seq![bump]));
    assert(seeds_view(s@) =~= escrow_seeds(creator@, mint@, seller@, bump));
    s
}

/// Derives a program address with `Pubkey::create_program_address`, which
/// refuses seeds beyond the limits and otherwise gives the address that
/// `program_address` names, or refuses when there is none.
#[verifier::external_body]
pub(crate) fn create_program_address(seeds: &Vec<Vec<u8>>, program_id: &Address) -> (r: Result<
    Address,
    PubkeyError,
>)
    ensures
        !seeds_within_limits(seeds_view(seeds@)) ==> r is Err,
        seeds_within_limits(seeds_view(seeds@)) ==> (r is Ok <==> program_address(
            seeds_view(seeds@),
            program_id@,
        ) is Some),
        r matches Ok(a) ==> program_address(seeds_view(seeds@), program_id@) == Some(a@),
{
    let refs: Vec<&[u8]> = seeds.iter().map(|s| s.as_slice()).collect();
    let key = Pubkey::create_program_address(&refs, &Pubkey::new_from_array(program_id.bytes))?;
    Ok(Address { bytes: key.to_bytes() })
}

/// Whether `escrow` is the program address of the escrow seeds of
/// `creator`, `mint` and `seller` with `bump`, for `program_id`.
pub open spec fn is_escrow_address(
    escrow: Seq<u8>,
    creator: Seq<u8>,
    mint: Seq<u8>,
    seller: Seq<u8>,
    bump: u8,
    program_id: Seq<u8>,
) -> bool {
    program_address(escrow_seeds(creator, mint, seller, bump), program_id) == Some(escrow)
}

/// Checks that `escrow` is the program address of the escrow seeds of
/// `creator`, `mint` and `seller` with `bump`.
pub fn check_escrow_address(
    escrow: &Address,
    creator: &Address,
    mint: &Address,
    seller: &Address,
    bump: u8,
    program_id: &Address,
) -> (r: bool)
    ensures
        r == is_escrow_address(escrow@, creator@, mint@, seller@, bump, program_id@),
{
    let seeds = escrow_signer_seeds(creator, mint, seller, bump);
    assert(seeds_within_limits(seeds_view(seeds@))) by {
        assert(creator@.len() == 32 && mint@.len() == 32 && seller@.len() == 32);
    }
    match create_program_address(&seeds, program_id) {
        Ok(derived) => derived.same(escrow),
        Err(_) => false,
    }
}

/// The bytes of `b"token-account"`, the first seed of an escrow's token account.
pub open spec fn token_account_seed_tag() -> Seq<u8> {
    seq![116u8, 111, 107, 101, 110, 45, 97, 99, 99, 111, 117, 110, 116]
}

/// The bytes of `b"metadata"`, the first seed of a metadata account.
pub open spec fn metadata_seed_tag() -> Seq<u8> {
    seq![109u8, 101, 116, 97, 100, 97, 116, 97]
}

/// The seeds of the escrow's token account, without bump.
pub open spec fn token_account_seeds(escrow: Seq<u8>) -> Seq<Seq<u8>> {
    seq![token_account_seed_tag(), escrow]
}

/// The seeds of a mint's metadata account, without bump.
pub open spec fn metadata_seeds(metadata_program: Seq<u8>, mint: Seq<u8>) -> Seq<Seq<u8>> {
    seq![metadata_seed_tag(), metadata_program, mint]
}

/// The escrow seeds without bump.
pub open spec fn escrow_base_seeds(creator: Seq<u8>, mint: Seq<u8>, seller: Seq<u8>) -> Seq<Seq<u8>> {
    seq![escrow_seed_tag(), creator, mint, seller]
}

/// `seeds` followed by the one-byte seed `bump`.
pub open spec fn bump_seeds(seeds: Seq<Seq<u8>>, bump: u8) -> Seq<Seq<u8>> {
    seeds.push(seq![bump])
}

/// Whether `bump` is the canonical bump of `seeds` for `program_id`: the
/// greatest bump from 255 down to 1 with which the seeds derive an address.
pub open spec fn is_canonical_bump(seeds: Seq<Seq<u8>>, program_id: Seq<u8>, bump: u8) -> bool {
    &&& 1 <= bump
    &&& program_address(bump_seeds(seeds, bump), program_id) is Some
    &&& forall|b: u8| bump < b ==> program_address(#[trigger] bump_seeds(seeds, b), program_id) is None
}

/// Whether `key` is the address that `seeds` derive for `program_id` with
/// their canonical bump.
pub open spec fn is_canonical_address(key: Seq<u8>, seeds: Seq<Seq<u8>>, program_id: Seq<u8>) -> bool {
    &&& seeds_within_limits(bump_seeds(seeds, 0))
    &&& exists|bump: u8|
        is_canonical_bump(seeds, program_id, bump) && #[trigger] program_address(
            bump_seeds(seeds, bump),
            program_id,
        ) == Some(key)
}

/// Finds the canonical bump and address of `seeds` with
/// `Pubkey::try_find_program_address`, which tries the bumps from 255 down
/// to 1 with `create_program_address` and gives the first address found,
/// or none if there is none or the seeds with a bump exceed the limits.
#[verifier::external_body]
pub(crate) fn find_program_address(seeds: &Vec<Vec<u8>>, program_id: &Address) -> (r: Option<
    (Address, u8),
>)
    ensures
        !seeds_within_limits(bump_seeds(seeds_view(seeds@), 0)) ==> r is None,
        seeds_within_limits(bump_seeds(seeds_view(seeds@), 0)) ==> match r {
            Some((a, bump)) => is_canonical_bump(seeds_view(seeds@), program_id@, bump)
                && program_address(bump_seeds(seeds_view(seeds@), bump), program_id@) == Some(a@),
            None => forall|b: u8|
                1 <= b ==> program_address(
                    #[trigger] bump_seeds(seeds_view(seeds@), b),
                    program_id@,
                ) is None,
        },
{
    let refs: Vec<&[u8]> = seeds.iter().map(|s| s.as_slice()).collect();
    let found = Pubkey::try_find_program_address(&refs, &Pubkey::new_from_array(program_id.bytes));
    found.map(|(key, bump)| (Address { bytes: key.to_bytes() }, bump))
}

/// Two canonical bumps of the same seeds are the same bump.
proof fn lemma_canonical_bump_unique(seeds: Seq<Seq<u8>>, program_id: Seq<u8>, b1: u8, b2: u8)
    requires
        is_canonical_bump(seeds, program_id, b1),
        is_canonical_bump(seeds, program_id, b2),
    ensures
        b1 == b2,
{
    if b1 < b2 {
        assert(program_address(bump_seeds(seeds, b2), program_id) is None);
    } else if b2 < b1 {
        assert(program_address(bump_seeds(seeds, b1), program_id) is None);
    }
}

/// The canonical address of the same seeds for the same program is one
/// address.
pub(crate) proof fn lemma_canonical_address_unique(
    k1: Seq<u8>,
    k2: Seq<u8>,
    seeds: Seq<Seq<u8>>,
    program_id: Seq<u8>,
)
    requires
        is_canonical_address(k1, seeds, program_id),
        is_canonical_address(k2, seeds, program_id),
    ensures
        k1 == k2,
{
    let b1 = choose|b: u8|
        is_canonical_bump(seeds, program_id, b) && #[trigger] program_address(
            bump_seeds(seeds, b),
            program_id,
        ) == Some(k1);
    let b2 = choose|b: u8|
        is_canonical_bump(seeds, program_id, b) && #[trigger] program_address(
            bump_seeds(seeds, b),
            program_id,
        ) == Some(k2);
    lemma_canonical_bump_unique(seeds, program_id, b1, b2);
}

/// Checks that `key` is the canonical program address of `seeds`.
pub fn check_canonical_address(key: &Address, seeds: &Vec<Vec<u8>>, program_id: &Address) -> (r:
    bool)
    ensures
        r == is_canonical_address(key@, seeds_view(seeds@), program_id@),
{
    let ghost sv = seeds_view(seeds@);
    match find_program_address(seeds, program_id) {
        Some((found, bump)) => {
            let r = found.same(key);
            proof {
                if is_canonical_address(key@, sv, program_id@) {
                    let b = choose|b: u8|
                        is_canonical_bump(sv, program_id@, b) && #[trigger] program_address(
                            bump_seeds(sv, b),
                            program_id@,
                        ) == Some(key@);
                    lemma_canonical_bump_unique(sv, program_id@, b, bump);
                }
                if r {
                    assert(program_address(bump_seeds(sv, bump), program_id@) == Some(key@));
                }
            }
            r
        },
        None => {
            proof {
                if is_canonical_address(key@, sv, program_id@) {
                    let b = choose|b: u8|
                        is_canonical_bump(sv, program_id@, b) && #[trigger] program_address(
                            bump_seeds(sv, b),
                            program_id@,
                        ) == Some(key@);
                    assert(program_address(bump_seeds(sv, b), program_id@) is None);
                }
            }
            false
        },
    }
}

/// The seeds of the escrow's token account.
pub fn token_account_signer_seeds(escrow: &Address) -> (s: Vec<Vec<u8>>)
    ensures
        seeds_view(s@) == token_account_seeds(escrow@),
{
    let tag: Vec<u8> = vec![116u8, 111, 107, 101, 110, 45, 97, 99, 99, 111, 117, 110, 116];
    assert(tag@ =~= token_account_seed_tag());
    let mut s: Vec<Vec<u8>> = Vec::new();
    s.push(tag);
    s.push(escrow.to_vec());
    assert(seeds_view(s@) =~= token_account_seeds(escrow@));
    s
}

/// The seeds of a mint's metadata account.
pub fn metadata_account_seeds(metadata_program: &Address, mint: &Address) -> (s: Vec<Vec<u8>>)
    ensures
        seeds_view(s@) == metadata_seeds(metadata_program@, mint@),
{
    let tag: Vec<u8> = vec![109u8, 101, 116, 97, 100, 97, 116, 97];
    assert(tag@ =~= metadata_seed_tag());
    let mut s: Vec<Vec<u8>> = Vec::new();
    s.push(tag);
    s.push(metadata_program.to_vec());
    s.push(mint.to_vec());
    assert(seeds_view(s@) =~= metadata_seeds(metadata_program@, mint@));
    s
}

/// The escrow seeds without bump.
pub fn escrow_address_seeds(creator: &Address, mint: &Address, seller: &Address) -> (s: Vec<Vec<u8>>)
    ensures
        seeds_view(s@) == escrow_base_seeds(creator@, mint@, seller@),
{
    let tag: Vec<u8> = vec![101u8, 115, 99, 114, 111, 119];
    assert(tag@ =~= escrow_seed_tag());
    let mut s: Vec<Vec<u8>> = Vec::new();
    s.push(tag);
    s.push(creator.to_vec());
    s.push(mint.to_vec());
    s.push(seller.to_vec());
    assert(seeds_view(s@) =~= escrow_base_seeds(creator@, mint@, seller@));
    s
}

/// The key of the associated token account program,
/// `ATokenGPvbdGVxr1b2hvZbsiqW5xWH25efTNsLJA8knL`.
pub open spec fn associated_token_program_key() -> Seq<u8> {
    seq![
        140u8, 151, 37, 143, 78, 36, 137, 241, 187, 61, 16, 41, 20, 142, 13, 131,
        11, 90, 19, 153, 218, 255, 16, 132, 4, 142, 123, 216, 219, 233, 248, 89,
    ]
}

/// The key of the associated token account program, from
/// `spl_associated_token_account::id`.
#[verifier::external_body]
pub(crate) fn associated_token_program_id() -> (a: Address)
    ensures
        a@ == associated_token_program_key(),
{
    Address { bytes: spl_associated_token_account::id().to_bytes() }
}

/// The seeds of the associated token account of `wallet` for `mint`.
pub open spec fn associated_token_seeds(wallet: Seq<u8>, mint: Seq<u8>) -> Seq<Seq<u8>> {
    seq![wallet, token_program_key(), mint]
}

/// Whether `key` is the associated token account of `wallet` for `mint`:
/// the canonical address of its seeds for the associated token account program.
pub open spec fn is_associated_token_address(key: Seq<u8>, wallet: Seq<u8>, mint: Seq<u8>) -> bool {
    is_canonical_address(key, associated_token_seeds(wallet, mint), associated_token_program_key())
}

/// Checks that `key` is the associated token account of `wallet` for `mint`.
pub fn check_associated_token_address(key: &Address, wallet: &Address, mint: &Address) -> (r: bool)
    ensures
        r == is_associated_token_address(key@, wallet@, mint@),
{
    let token_program = token_program_id();
    let mut seeds: Vec<Vec<u8>> = Vec::new();
    seeds.push(wallet.to_vec());
    seeds.push(token_program.to_vec());
    seeds.push(mint.to_vec());
    assert(seeds_view(seeds@) =~= associated_token_seeds(wallet@, mint@));
    check_canonical_address(key, &seeds, &associated_token_program_id())
}

} // verus!
