//! Properties of whole instructions, proved over `instruction_outcome` and
//! the model of the system program's transfer in `lamports_after`.
use vstd::prelude::*;
use crate::account::{Account, account_set_error};
use crate::error::VaultError;
use crate::payload::le_u64;
use crate::processor::instruction_outcome;
use crate::transfer::{OWNER_INDEX, VAULT_INDEX, lamports_after, transfer_funded};
use crate::vault::vault_of;

verus! {

/// A deposit that passes validation moves exactly its amount from the owner
/// to the vault: the system program can make the transfer exactly when the
/// owner holds the amount, and then the owner loses it, the vault gains it,
/// their sum is unchanged and no other account changes.
pub proof fn deposit_moves_exactly_its_amount(program: Seq<u8>, accounts: Seq<Account>, data: Seq<u8>)
    requires
        data.len() > 0,
        data[0] == 0,
        instruction_outcome(program, accounts, data) is Ok,
        accounts[0].address != accounts[1].address,
    ensures
        ({
            let t = instruction_outcome(program, accounts, data)->Ok_0;
            let a = le_u64(data.subrange(1, data.len() as int));
            &&& data.len() == 9
            &&& a > 0
            &&& t.lamports == a
            &&& t.from == OWNER_INDEX && t.to == VAULT_INDEX
            &&& t.signer is None
            &&& transfer_funded(accounts, t) <==> a <= accounts[0].lamports
            &&& transfer_funded(accounts, t) ==> {
                &&& lamports_after(accounts, t, 0) == accounts[0].lamports - a
                &&& lamports_after(accounts, t, 1) == accounts[1].lamports + a
                &&& lamports_after(accounts, t, 0) + lamports_after(accounts, t, 1)
                    == accounts[0].lamports + accounts[1].lamports
                &&& forall|i: int| 2 <= i < accounts.len() ==> lamports_after(accounts, t, i)
                    == accounts[i].lamports
            }
        }),
{
}

/// A deposit of amount zero fails with `InvalidInstructionData`, whatever
/// the accounts are.
pub proof fn deposit_of_zero_fails(program: Seq<u8>, accounts: Seq<Account>, data: Seq<u8>)
    requires
        data.len() == 9,
        data[0] == 0,
        le_u64(data.subrange(1, 9)) == 0,
    ensures
        instruction_outcome(program, accounts, data) == Err::<crate::transfer::TransferRequest, VaultError>(
            VaultError::InvalidInstructionData,
        ),
{
}

/// A deposit of a correct amount whose owner did not sign fails with
/// `MissingRequiredSignature`.
pub proof fn unsigned_deposit_fails(program: Seq<u8>, accounts: Seq<Account>, data: Seq<u8>)
    requires
        data.len() == 9,
        data[0] == 0,
        le_u64(data.subrange(1, 9)) != 0,
        accounts.len() >= 3,
        !accounts[0].is_signer,
    ensures
        instruction_outcome(program, accounts, data) == Err::<crate::transfer::TransferRequest, VaultError>(
            VaultError::MissingRequiredSignature,
        ),
{
}

/// A withdrawal from an empty vault, with accounts that pass the shared
/// checks, fails with `InvalidAccountData` and requests no transfer.
pub proof fn withdraw_from_empty_vault_fails(program: Seq<u8>, accounts: Seq<Account>, data: Seq<u8>)
    requires
        data.len() > 0,
        data[0] == 1,
        account_set_error(accounts) is None,
        accounts[1].lamports == 0,
    ensures
        instruction_outcome(program, accounts, data) == Err::<crate::transfer::TransferRequest, VaultError>(
            VaultError::InvalidAccountData,
        ),
{
}

/// A withdrawal that passes validation sweeps the vault: it moves the
/// vault's whole balance `b > 0` to the owner, the system program can make
/// the transfer, and then the vault holds 0 and the owner gains exactly `b`.
pub proof fn withdraw_sweeps_the_vault(program: Seq<u8>, accounts: Seq<Account>, data: Seq<u8>)
    requires
        data.len() > 0,
        data[0] == 1,
        instruction_outcome(program, accounts, data) is Ok,
        accounts[0].address != accounts[1].address,
    ensures
        ({
            let t = instruction_outcome(program, accounts, data)->Ok_0;
            let b = accounts[1].lamports;
            &&& b > 0
            &&& t.lamports == b
            &&& t.from == VAULT_INDEX && t.to == OWNER_INDEX
            &&& transfer_funded(accounts, t)
            &&& lamports_after(accounts, t, 1) == 0
            &&& lamports_after(accounts, t, 0) == accounts[0].lamports + b
        }),
{
}

/// The seeds that a withdrawal signs with derive the vault it drains: the
/// label, the owner's address and the bump give back the vault's address
/// under the program.
pub proof fn withdraw_signs_for_the_vault(program: Seq<u8>, accounts: Seq<Account>, data: Seq<u8>)
    requires
        data.len() > 0,
        data[0] == 1,
        instruction_outcome(program, accounts, data) is Ok,
    ensures
        ({
            let s = instruction_outcome(program, accounts, data)->Ok_0.signer->Some_0;
            &&& instruction_outcome(program, accounts, data)->Ok_0.signer is Some
            &&& s.owner == accounts[0].address
            &&& vault_of(s.owner@, program) == Some((accounts[1].address@, s.bump[0]))
        }),
{
}

/// An empty instruction, or one whose first byte is neither 0 nor 1, fails
/// with `InvalidInstructionData` and requests no transfer.
pub proof fn unknown_instruction_fails(program: Seq<u8>, accounts: Seq<Account>, data: Seq<u8>)
    requires
        data.len() == 0 || (data[0] != 0 && data[0] != 1),
    ensures
        instruction_outcome(program, accounts, data) == Err::<crate::transfer::TransferRequest, VaultError>(
            VaultError::InvalidInstructionData,
        ),
{
}

} // verus!
