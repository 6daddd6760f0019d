use vstd::prelude::*;
use crate::account::{Account, account_set_error, check_account_set};
use crate::error::VaultError;
use crate::payload::{DepositData, deposit_data_of};
use crate::transfer::{OWNER_INDEX, TransferRequest, VAULT_INDEX};

verus! {

/// The validated accounts of a deposit: the owner, who signed; the vault,
/// owned by the system program; and the system program itself.
pub struct DepositAccounts<'a> {
    pub owner: &'a Account,
    pub vault: &'a Account,
    pub system_program: &'a Account,
}

impl<'a> DepositAccounts<'a> {
    /// Whether this set holds the first three accounts of `accounts`.
    pub open spec fn taken_from(&self, accounts: Seq<Account>) -> bool {
        &&& accounts.len() >= 3
        &&& *self.owner == accounts[0]
        &&& *self.vault == accounts[1]
        &&& *self.system_program == accounts[2]
    }

    /// Validates the account list of a deposit; accounts after the third
    /// are ignored.
    pub fn try_from(accounts: &'a [Account]) -> (r: Result<DepositAccounts<'a>, VaultError>)
        ensures
            match r {
                Ok(set) => account_set_error(accounts@) is None && set.taken_from(accounts@),
                Err(e) => account_set_error(accounts@) == Some(e),
            },
    {
        match check_account_set(accounts) {
            Some(e) => Err(e),
            None => Ok(DepositAccounts { owner: &accounts[0], vault: &accounts[1], system_program: &accounts[2] }),
        }
    }
}

/// A validated deposit: its accounts and its amount.
pub struct Deposit<'a> {
    pub accounts: DepositAccounts<'a>,
    pub data: DepositData,
}

/// The error that a deposit with payload `data` and account list
/// `accounts` fails with, if any: the payload is decoded first, then the
/// accounts are checked.
pub open spec fn deposit_error(data: Seq<u8>, accounts: Seq<Account>) -> Option<VaultError> {
    match deposit_data_of(data) {
        Err(e) => Some(e),
        Ok(_) => account_set_error(accounts),
    }
}

/// The transfer that a valid deposit of `amount` requests: from the owner,
/// who signed, to the vault.
pub open spec fn deposit_transfer(amount: u64) -> TransferRequest {
    TransferRequest { from: OWNER_INDEX, to: VAULT_INDEX, lamports: amount, signer: None }
}

impl<'a> Deposit<'a> {
    /// The instruction's discriminator.
    pub const DISCRIMINATOR: u8 = 0;

    /// Validates a deposit from its payload and its account list.
    pub fn try_from(input: (&'a [u8], &'a [Account])) -> (r: Result<Deposit<'a>, VaultError>)
        ensures
            match r {
                Ok(d) => {
                    &&& deposit_error(input.0@, input.1@) is None
                    &&& deposit_data_of(input.0@) == Ok::<DepositData, VaultError>(d.data)
                    &&& d.accounts.taken_from(input.1@)
                },
                Err(e) => deposit_error(input.0@, input.1@) == Some(e),
            },
    {
        let (data, accounts) = input;
        let data = match DepositData::try_from(data) {
            Ok(d) => d,
            Err(e) => return Err(e),
        };
        let accounts = match DepositAccounts::try_from(accounts) {
            Ok(a) => a,
            Err(e) => return Err(e),
        };
        Ok(Deposit { accounts, data })
    }

    /// The transfer that carries out the deposit: the amount, from the owner
    /// to the vault, signed by the owner.
    pub fn process(&self) -> (r: TransferRequest)
        ensures
            r == deposit_transfer(self.data.amount),
    {
        TransferRequest { from: OWNER_INDEX, to: VAULT_INDEX, lamports: self.data.amount, signer: None }
    }
}

} // verus!
