//! The token metadata program's instruction builders that a mint uses.
use vstd::prelude::*;

use mpl_token_metadata::instruction::{create_master_edition_v3, create_metadata_accounts_v2};
use mpl_token_metadata::state::{Collection, Creator as MetadataCreator, Uses};
use solana_program::pubkey::Pubkey;

use crate::address::{zero_key, Address};
use crate::instruction::{
    readonly, token_program_key, u64_le_bytes, writable, AccountMeta, Instruction, MetaView,
};

verus! {

#[verifier::external_type_specification]
#[verifier::external_body]
pub struct ExCollection(Collection);

#[verifier::external_type_specification]
#[verifier::external_body]
pub struct ExUses(Uses);

/// One creator named in an NFT's metadata, with its share of royalties in percent.
#[derive(Clone, Copy, Debug)]
pub struct Creator {
    pub address: Address,
    pub verified: bool,
    pub share: u8,
}

impl View for Creator {
    type V = (Seq<u8>, bool, u8);

    open spec fn view(&self) -> (Seq<u8>, bool, u8) {
        (self.address@, self.verified, self.share)
    }
}

/// The views of an optional list of creators.
pub open spec fn creators_view(creators: Option<Vec<Creator>>) -> Option<Seq<(Seq<u8>, bool, u8)>> {
    match creators {
        Some(v) => Some(v@.map_values(|c: Creator| c@)),
        None => None,
    }
}

/// The key of the token metadata program, `metaqbxxUerdq28cj1RbAWkYQm3ybzjb6a8bt518x1s`.
pub open spec fn metadata_program_key() -> Seq<u8> {
    seq![
        11u8, 112, 101, 177, 227, 209, 124, 69, 56, 157, 82, 127, 107, 4, 195, 205,
        88, 184, 108, 115, 26, 160, 253, 181, 73, 182, 209, 188, 3, 248, 41, 70,
    ]
}

/// The encoded arguments of a `CreateMetadataAccountV2` instruction without
/// collection and uses.
pub uninterp spec fn metadata_v2_data(
    name: Seq<char>,
    symbol: Seq<char>,
    uri: Seq<char>,
    creators: Option<Seq<(Seq<u8>, bool, u8)>>,
    seller_fee_basis_points: u16,
    is_mutable: bool,
) -> Seq<u8>;

/// The encoded arguments of a `CreateMasterEditionV3` instruction: the
/// instruction's number, 17, then the optional maximum supply (a byte 0
/// for none, else a byte 1 and the supply's bytes, least significant first).
pub open spec fn master_edition_v3_data(max_supply: Option<u64>) -> Seq<u8> {
    seq![17u8] + match max_supply {
        None => seq![0u8],
        Some(supply) => seq![1u8] + u64_le_bytes(supply),
    }
}

/// The accounts of a `CreateMetadataAccountV2` instruction.
pub open spec fn metadata_v2_accounts(
    metadata: Seq<u8>,
    mint: Seq<u8>,
    mint_authority: Seq<u8>,
    payer: Seq<u8>,
    update_authority: Seq<u8>,
    update_authority_is_signer: bool,
) -> Seq<MetaView> {
    seq![
        writable(metadata, false),
        readonly(mint, false),
        readonly(mint_authority, true),
        writable(payer, true),
        readonly(update_authority, update_authority_is_signer),
        readonly(zero_key(), false),
    ]
}

/// The accounts of a `CreateMasterEditionV3` instruction.
pub open spec fn master_edition_v3_accounts(
    edition: Seq<u8>,
    mint: Seq<u8>,
    update_authority: Seq<u8>,
    mint_authority: Seq<u8>,
    metadata: Seq<u8>,
    payer: Seq<u8>,
) -> Seq<MetaView> {
    seq![
        writable(edition, false),
        writable(mint, false),
        readonly(update_authority, true),
        readonly(mint_authority, true),
        writable(payer, true),
        writable(metadata, false),
        readonly(token_program_key(), false),
        readonly(zero_key(), false),
    ]
}

/// The key of the token metadata program, from `mpl_token_metadata::id`.
#[verifier::external_body]
pub(crate) fn metadata_program_id() -> (a: Address)
    ensures
        a@ == metadata_program_key(),
{
    Address { bytes: mpl_token_metadata::id().to_bytes() }
}

/// Builds a metadata account creation with
/// `mpl_token_metadata::instruction::create_metadata_accounts_v2`, which
/// addresses the given program with the accounts that
/// `metadata_v2_accounts` lists. Its encoded arguments are named by
/// `metadata_v2_data` where no collection and no uses are given; with
/// either of them nothing is said of the encoding.
#[verifier::external_body]
pub(crate) fn build_metadata_v2(
    program_id: &Address,
    metadata: &Address,
    mint: &Address,
    mint_authority: &Address,
    payer: &Address,
    update_authority: &Address,
    name: String,
    symbol: String,
    uri: String,
    creators: Option<Vec<Creator>>,
    seller_fee_basis_points: u16,
    update_authority_is_signer: bool,
    is_mutable: bool,
    collection: Option<Collection>,
    uses: Option<Uses>,
) -> (ix: Instruction)
    ensures
        ix@.program_id == program_id@,
        ix@.accounts == metadata_v2_accounts(
            metadata@,
            mint@,
            mint_authority@,
            payer@,
            update_authority@,
            update_authority_is_signer,
        ),
        collection is None && uses is None ==> ix@.data == metadata_v2_data(
            name@,
            symbol@,
            uri@,
            creators_view(creators),
            seller_fee_basis_points,
            is_mutable,
        ),
{
    let pk = |a: &Address| Pubkey::new_from_array(a.bytes);
    let creators = creators.map(|v| v.iter().map(|c| MetadataCreator {
        address: pk(&c.address), verified: c.verified, share: c.share }).collect());
    let ix = create_metadata_accounts_v2(pk(program_id),
        pk(metadata), pk(mint), pk(mint_authority), pk(payer), pk(update_authority), name, symbol,
        uri, creators, seller_fee_basis_points, update_authority_is_signer, is_mutable, collection, uses);
    Instruction { program_id: Address { bytes: ix.program_id.to_bytes() }, data: ix.data,
        accounts: ix.accounts.iter().map(|m| AccountMeta { key: Address { bytes: m.pubkey.to_bytes() },
            is_signer: m.is_signer, is_writable: m.is_writable }).collect() }
}

/// Builds a master edition creation with
/// `mpl_token_metadata::instruction::create_master_edition_v3`, which
/// addresses the given program with the accounts that
/// `master_edition_v3_accounts` lists and encodes `max_supply` as
/// `master_edition_v3_data` says.
#[verifier::external_body]
pub(crate) fn build_master_edition_v3(
    program_id: &Address,
    edition: &Address,
    mint: &Address,
    update_authority: &Address,
    mint_authority: &Address,
    metadata: &Address,
    payer: &Address,
    max_supply: Option<u64>,
) -> (ix: Instruction)
    ensures
        ix@.program_id == program_id@,
        ix@.accounts == master_edition_v3_accounts(
            edition@,
            mint@,
            update_authority@,
            mint_authority@,
            metadata@,
            payer@,
        ),
        ix@.data == master_edition_v3_data(max_supply),
{
    let pk = |a: &Address| Pubkey::new_from_array(a.bytes);
    let ix = create_master_edition_v3(pk(program_id), pk(edition),
        pk(mint), pk(update_authority), pk(mint_authority), pk(metadata), pk(payer), max_supply);
    Instruction { program_id: Address { bytes: ix.program_id.to_bytes() }, data: ix.data,
        accounts: ix.accounts.iter().map(|m| AccountMeta { key: Address { bytes: m.pubkey.to_bytes() },
            is_signer: m.is_signer, is_writable: m.is_writable }).collect() }
}

} // verus!
