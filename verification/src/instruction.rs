//! Instructions for other on-chain programs, and the token program's
//! instruction builders that this marketplace uses.
use vstd::prelude::*;

use solana_program::program_error::ProgramError;
use solana_program::pubkey::Pubkey;
use spl_token::instruction::{close_account, transfer};

use crate::address::Address;

verus! {

#[verifier::external_type_specification]
#[verifier::external_body]
pub struct ExProgramError(ProgramError);

/// One account that an instruction names, with the access it asks for.
#[derive(Clone, Copy, Debug)]
pub struct AccountMeta {
    pub key: Address,
    pub is_signer: bool,
    pub is_writable: bool,
}

/// What an account entry of an instruction says.
pub struct MetaView {
    pub key: Seq<u8>,
    pub is_signer: bool,
    pub is_writable: bool,
}

impl View for AccountMeta {
    type V = MetaView;

    open spec fn view(&self) -> MetaView {
        MetaView { key: self.key@, is_signer: self.is_signer, is_writable: self.is_writable }
    }
}

/// An instruction for another program: whom it is for, the accounts it
/// reads and writes, and its encoded arguments.
#[derive(Debug)]
pub struct Instruction {
    pub program_id: Address,
    pub accounts: Vec<AccountMeta>,
    pub data: Vec<u8>,
}

/// What an instruction says.
pub struct InstructionView {
    pub program_id: Seq<u8>,
    pub accounts: Seq<MetaView>,
    pub data: Seq<u8>,
}

impl View for Instruction {
    type V = InstructionView;

    open spec fn view(&self) -> InstructionView {
        InstructionView {
            program_id: self.program_id@,
            accounts: self.accounts@.map_values(|m: AccountMeta| m@),
            data: self.data@,
        }
    }
}

/// An account entry that lets the instruction write the account.
pub open spec fn writable(key: Seq<u8>, is_signer: bool) -> MetaView {
    MetaView { key, is_signer, is_writable: true }
}

/// An account entry that only lets the instruction read the account.
pub open spec fn readonly(key: Seq<u8>, is_signer: bool) -> MetaView {
    MetaView { key, is_signer, is_writable: false }
}

/// The views of a list of addresses.
pub open spec fn keys_of(addresses: Seq<Address>) -> Seq<Seq<u8>> {
    addresses.map_values(|a: Address| a@)
}

/// A 64-bit number's bytes, least significant first.
pub open spec fn u64_le_bytes(x: u64) -> Seq<u8> {
    seq![
        (x % 0x100) as u8,
        (x / 0x100 % 0x100) as u8,
        (x / 0x1_0000 % 0x100) as u8,
        (x / 0x100_0000 % 0x100) as u8,
        (x / 0x1_0000_0000 % 0x100) as u8,
        (x / 0x100_0000_0000 % 0x100) as u8,
        (x / 0x1_0000_0000_0000 % 0x100) as u8,
        (x / 0x100_0000_0000_0000 % 0x100) as u8,
    ]
}

/// The key of the SPL token program, `TokenkegQfeZyiNwAJbNbGKPFXCWuBvf9Ss623VQ5DA`.
pub open spec fn token_program_key() -> Seq<u8> {
    seq![
        6u8, 221, 246, 225, 215, 101, 161, 147, 217, 203, 225, 70, 206, 235, 121, 172,
        28, 180, 133, 237, 95, 91, 55, 145, 58, 140, 245, 133, 126, 255, 0, 169,
    ]
}

/// The key of the token program, from `spl_token::id`.
#[verifier::external_body]
pub(crate) fn token_program_id() -> (a: Address)
    ensures
        a@ == token_program_key(),
{
    Address { bytes: spl_token::id().to_bytes() }
}

/// The accounts of a token instruction that acts on `first` and `second`
/// with the consent of `authority`: the authority signs itself when no
/// multisignature signers are given, else each signer signs.
pub open spec fn token_accounts(
    first: Seq<u8>,
    second: Seq<u8>,
    authority: Seq<u8>,
    signers: Seq<Seq<u8>>,
) -> Seq<MetaView> {
    seq![writable(first, false), writable(second, false), readonly(authority, signers.len() == 0)]
        + signers.map_values(|k: Seq<u8>| readonly(k, true))
}

/// The token program's `Transfer` instruction: move `amount` tokens from
/// `source` to `destination`.
pub open spec fn token_transfer_ix(
    token_program: Seq<u8>,
    source: Seq<u8>,
    destination: Seq<u8>,
    authority: Seq<u8>,
    signers: Seq<Seq<u8>>,
    amount: u64,
) -> InstructionView {
    InstructionView {
        program_id: token_program,
        accounts: token_accounts(source, destination, authority, signers),
        data: seq![3u8] + u64_le_bytes(amount),
    }
}

/// The token program's `CloseAccount` instruction: close `account` and send
/// its lamports to `destination`.
pub open spec fn close_account_ix(
    token_program: Seq<u8>,
    account: Seq<u8>,
    destination: Seq<u8>,
    owner: Seq<u8>,
    signers: Seq<Seq<u8>>,
) -> InstructionView {
    InstructionView {
        program_id: token_program,
        accounts: token_accounts(account, destination, owner, signers),
        data: seq![9u8],
    }
}

/// Builds a token transfer with `spl_token::instruction::transfer`, which
/// refuses any program id but the token program's and otherwise lays out
/// the accounts and the encoded amount as `token_transfer_ix` says.
#[verifier::external_body]
pub(crate) fn build_token_transfer(
    token_program: &Address,
    source: &Address,
    destination: &Address,
    authority: &Address,
    signers: &Vec<Address>,
    amount: u64,
) -> (r: Result<Instruction, ProgramError>)
    ensures
        r is Ok <==> token_program@ == token_program_key(),
        r matches Ok(ix) ==> ix@ == token_transfer_ix(
            token_program@,
            source@,
            destination@,
            authority@,
            keys_of(signers@),
            amount,
        ),
{
    let keys: Vec<Pubkey> = signers.iter().map(|s| Pubkey::new_from_array(s.bytes)).collect();
    let refs: Vec<&Pubkey> = keys.iter().collect();
    let pk = |a: &Address| Pubkey::new_from_array(a.bytes);
    let ix = transfer(&pk(token_program), &pk(source), &pk(destination), &pk(authority), &refs, amount)?;
    Ok(Instruction { program_id: Address { bytes: ix.program_id.to_bytes() }, data: ix.data,
        accounts: ix.accounts.iter().map(|m| AccountMeta { key: Address { bytes: m.pubkey.to_bytes() },
            is_signer: m.is_signer, is_writable: m.is_writable }).collect() })
}

/// Builds a token account closure with `spl_token::instruction::close_account`,
/// which refuses any program id but the token program's and otherwise lays
/// out the accounts as `close_account_ix` says.
#[verifier::external_body]
pub(crate) fn build_close_account(
    token_program: &Address,
    account: &Address,
    destination: &Address,
    owner: &Address,
    signers: &Vec<Address>,
) -> (r: Result<Instruction, ProgramError>)
    ensures
        r is Ok <==> token_program@ == token_program_key(),
        r matches Ok(ix) ==> ix@ == close_account_ix(
            token_program@,
            account@,
            destination@,
            owner@,
            keys_of(signers@),
        ),
{
    let keys: Vec<Pubkey> = signers.iter().map(|s| Pubkey::new_from_array(s.bytes)).collect();
    let refs: Vec<&Pubkey> = keys.iter().collect();
    let pk = |a: &Address| Pubkey::new_from_array(a.bytes);
    let ix = close_account(&pk(token_program), &pk(account), &pk(destination), &pk(owner), &refs)?;
    Ok(Instruction { program_id: Address { bytes: ix.program_id.to_bytes() }, data: ix.data,
        accounts: ix.accounts.iter().map(|m| AccountMeta { key: Address { bytes: m.pubkey.to_bytes() },
            is_signer: m.is_signer, is_writable: m.is_writable }).collect() })
}

} // verus!
