use vstd::prelude::*;
use crate::account::Account;
use vstd::slice::slice_subrange;
use crate::deposit::{Deposit, deposit_error, deposit_transfer};
use crate::error::VaultError;
use crate::payload::deposit_data_of;
use crate::transfer::TransferRequest;
use crate::vault::vault_of;
use crate::withdraw::{Withdraw, withdraw_error, withdraw_transfer};

verus! {

/// What an instruction comes to: the transfer it requests, or the error it
/// fails with. The first byte selects the instruction: 0 a deposit of the
/// amount that the remaining bytes hold, 1 a withdrawal, which ignores the
/// remaining bytes.
pub open spec fn instruction_outcome(program: Seq<u8>, accounts: Seq<Account>, data: Seq<u8>) -> Result<
    TransferRequest,
    VaultError,
> {
    if data.len() == 0 {
        Err(VaultError::InvalidInstructionData)
    } else if data[0] == 0 {
        let payload = data.subrange(1, data.len() as int);
        match deposit_error(payload, accounts) {
            Some(e) => Err(e),
            None => Ok(deposit_transfer(deposit_data_of(payload)->Ok_0.amount)),
        }
    } else if data[0] == 1 {
        match withdraw_error(accounts, program) {
            Some(e) => Err(e),
            None => Ok(
                withdraw_transfer(
                    accounts[0],
                    accounts[1],
                    vault_of(accounts[0].address@, program)->Some_0.1,
                ),
            ),
        }
    } else {
        Err(VaultError::InvalidInstructionData)
    }
}

/// Reads the discriminator of `instruction_data`, validates the instruction
/// that it selects, and returns the transfer that carries it out.
pub fn process_instruction(program_id: &[u8; 32], accounts: &[Account], instruction_data: &[u8]) -> (r: Result<
    TransferRequest,
    VaultError,
>)
    ensures
        r == instruction_outcome(program_id@, accounts@, instruction_data@),
{
    if instruction_data.len() == 0 {
        return Err(VaultError::InvalidInstructionData);
    }
    let discriminator = instruction_data[0];
    let rest = slice_subrange(instruction_data, 1, instruction_data.len());
    if discriminator == Deposit::DISCRIMINATOR {
        match Deposit::try_from((rest, accounts)) {
            Ok(deposit) => Ok(deposit.process()),
            Err(e) => Err(e),
        }
    } else if discriminator == Withdraw::DISCRIMINATOR {
        match Withdraw::try_from(accounts, program_id) {
            Ok(withdraw) => Ok(withdraw.process()),
            Err(e) => Err(e),
        }
    } else {
        Err(VaultError::InvalidInstructionData)
    }
}

} // verus!
