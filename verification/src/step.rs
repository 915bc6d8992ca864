//! The outside work that an instruction asks for, in the order it is to be
//! done, and the ways an instruction can fail.
use vstd::prelude::*;

use crate::address::Address;
use crate::error::MarketplaceError;
use crate::instruction::{Instruction, InstructionView};

verus! {

/// One call into another program. Each names its accounts by key; the
/// runtime hands the program the accounts with those keys.
#[derive(Debug)]
pub enum Step {
    /// The token program moves `amount` tokens from `from` to `to`;
    /// `authority` owns `from` and signs.
    TokenTransfer { from: Address, to: Address, authority: Address, amount: u64 },
    /// The system program creates the account `to`, funded by `from`, with
    /// `space` bytes of data, owned by `owner`.
    CreateAccount { from: Address, to: Address, lamports: u64, space: u64, owner: Address },
    /// The token program makes `mint` a mint with `decimals` decimals.
    InitializeMint {
        mint: Address,
        decimals: u8,
        mint_authority: Address,
        freeze_authority: Option<Address>,
    },
    /// The associated token account program creates the token account of
    /// `authority` for `mint`, at `associated_token`, paid by `payer`.
    CreateAssociatedTokenAccount {
        payer: Address,
        associated_token: Address,
        authority: Address,
        mint: Address,
    },
    /// The token program mints `amount` tokens of `mint` into `to`.
    MintTo { mint: Address, to: Address, authority: Address, amount: u64 },
    /// `instruction` runs with the accounts `accounts`.
    Invoke { instruction: Instruction, accounts: Vec<Address> },
    /// `instruction` runs with the accounts `accounts`, and the program signs
    /// for the address that `seeds` derive.
    InvokeSigned { instruction: Instruction, accounts: Vec<Address>, seeds: Vec<Vec<u8>> },
    /// The program closes `account`, one of its own, when the instruction
    /// ends: its lamports go to `destination` and its data is cleared.
    CloseProgramAccount { account: Address, destination: Address },
}

/// What a step says.
pub enum StepView {
    TokenTransfer { from: Seq<u8>, to: Seq<u8>, authority: Seq<u8>, amount: u64 },
    CreateAccount { from: Seq<u8>, to: Seq<u8>, lamports: u64, space: u64, owner: Seq<u8> },
    InitializeMint {
        mint: Seq<u8>,
        decimals: u8,
        mint_authority: Seq<u8>,
        freeze_authority: Option<Seq<u8>>,
    },
    CreateAssociatedTokenAccount {
        payer: Seq<u8>,
        associated_token: Seq<u8>,
        authority: Seq<u8>,
        mint: Seq<u8>,
    },
    MintTo { mint: Seq<u8>, to: Seq<u8>, authority: Seq<u8>, amount: u64 },
    Invoke { instruction: InstructionView, accounts: Seq<Seq<u8>> },
    InvokeSigned { instruction: InstructionView, accounts: Seq<Seq<u8>>, seeds: Seq<Seq<u8>> },
    CloseProgramAccount { account: Seq<u8>, destination: Seq<u8> },
}

impl View for Step {
    type V = StepView;

    open spec fn view(&self) -> StepView {
        match self {
            Step::TokenTransfer { from, to, authority, amount } => StepView::TokenTransfer {
                from: from@,
                to: to@,
                authority: authority@,
                amount: *amount,
            },
            Step::CreateAccount { from, to, lamports, space, owner } => StepView::CreateAccount {
                from: from@,
                to: to@,
                lamports: *lamports,
                space: *space,
                owner: owner@,
            },
            Step::InitializeMint { mint, decimals, mint_authority, freeze_authority } =>
                StepView::InitializeMint {
                mint: mint@,
                decimals: *decimals,
                mint_authority: mint_authority@,
                freeze_authority: match freeze_authority {
                    Some(a) => Some(a@),
                    None => None,
                },
            },
            Step::CreateAssociatedTokenAccount { payer, associated_token, authority, mint } =>
                StepView::CreateAssociatedTokenAccount {
                payer: payer@,
                associated_token: associated_token@,
                authority: authority@,
                mint: mint@,
            },
            Step::MintTo { mint, to, authority, amount } => StepView::MintTo {
                mint: mint@,
                to: to@,
                authority: authority@,
                amount: *amount,
            },
            Step::Invoke { instruction, accounts } => StepView::Invoke {
                instruction: instruction@,
                accounts: accounts@.map_values(|a: Address| a@),
            },
            Step::InvokeSigned { instruction, accounts, seeds } => StepView::InvokeSigned {
                instruction: instruction@,
                accounts: accounts@.map_values(|a: Address| a@),
                seeds: seeds@.map_values(|s: Vec<u8>| s@),
            },
            Step::CloseProgramAccount { account, destination } => StepView::CloseProgramAccount {
                account: account@,
                destination: destination@,
            },
        }
    }
}

/// The views of a list of steps.
pub open spec fn steps_view(steps: Seq<Step>) -> Seq<StepView> {
    steps.map_values(|s: Step| s@)
}

/// Why an instruction failed.
#[derive(Clone, Copy, Debug, PartialEq, Eq, Structural)]
pub enum HandlerError {
    /// The marketplace refused it.
    Marketplace(MarketplaceError),
    /// The account given as the token program is not the token program.
    IncorrectProgramId,
    /// An account is not the program address of its seeds.
    ConstraintSeeds,
    /// A token account holds another mint than the NFT's.
    ConstraintTokenMint,
    /// A token account is not owned by the account it should belong to.
    ConstraintTokenOwner,
    /// A token account is not the associated token account of its owner for its mint.
    ConstraintAssociated,
    /// A token account created for the buyer is not the buyer's associated token account.
    AccountNotAssociatedTokenAccount,
    /// A token account given for a payment is not owned by the account
    /// that the payment names.
    ConstraintRaw,
}

/// The view of an instruction's outcome.
pub open spec fn outcome_view(r: Result<Vec<Step>, HandlerError>) -> Result<Seq<StepView>, HandlerError> {
    match r {
        Ok(steps) => Ok(steps_view(steps@)),
        Err(e) => Err(e),
    }
}

} // verus!
