use vstd::prelude::*;
use crate::account::{Account, account_set_error, check_account_set, same_key};
use crate::error::VaultError;
use crate::transfer::{OWNER_INDEX, TransferRequest, VAULT_INDEX, VaultSigner};
use crate::vault::{derived_view, vault_address, vault_of};

verus! {

/// The validated accounts of a withdrawal: the owner, who signed; the
/// vault, owned by the system program, not empty, and derived from the
/// owner; the system program itself; and the bump of the vault's address.
pub struct WithdrawAccounts<'a> {
    pub owner: &'a Account,
    pub vault: &'a Account,
    pub system_program: &'a Account,
    pub bumps: [u8; 1],
}

/// The error that a withdrawal fails with, if any, given the derivation of
/// the owner's vault: the checks shared with deposits, then the vault's
/// balance, then the vault's address against the derived one.
pub open spec fn withdraw_error_with(accounts: Seq<Account>, derived: Option<(Seq<u8>, u8)>) -> Option<VaultError> {
    if account_set_error(accounts) is Some {
        account_set_error(accounts)
    } else if accounts[1].lamports == 0 {
        Some(VaultError::InvalidAccountData)
    } else {
        match derived {
            Some((address, _)) => if address == accounts[1].address@ {
                None
            } else {
                Some(VaultError::InvalidSeeds)
            },
            None => Some(VaultError::InvalidSeeds),
        }
    }
}

/// The error that a withdrawal under `program` fails with, if any.
pub open spec fn withdraw_error(accounts: Seq<Account>, program: Seq<u8>) -> Option<VaultError> {
    if accounts.len() < 3 {
        Some(VaultError::NotEnoughAccountKeys)
    } else {
        withdraw_error_with(accounts, vault_of(accounts[0].address@, program))
    }
}

impl<'a> WithdrawAccounts<'a> {
    /// Whether this set holds the first three accounts of `accounts`.
    pub open spec fn taken_from(&self, accounts: Seq<Account>) -> bool {
        &&& accounts.len() >= 3
        &&& *self.owner == accounts[0]
        &&& *self.vault == accounts[1]
        &&& *self.system_program == accounts[2]
    }

    /// Validates the account list of a withdrawal against `derived`, the
    /// derivation of the owner's vault address and its bump.
    pub fn from_derivation(accounts: &'a [Account], derived: Option<([u8; 32], u8)>) -> (r: Result<
        WithdrawAccounts<'a>,
        VaultError,
    >)
        ensures
            match r {
                Ok(set) => {
                    &&& withdraw_error_with(accounts@, derived_view(derived)) is None
                    &&& set.taken_from(accounts@)
                    &&& set.bumps[0] == derived->Some_0.1
                },
                Err(e) => withdraw_error_with(accounts@, derived_view(derived)) == Some(e),
            },
    {
        match check_account_set(accounts) {
            Some(e) => {
                return Err(e);
            },
            None => {},
        }
        if accounts[1].lamports == 0 {
            return Err(VaultError::InvalidAccountData);
        }
        match derived {
            Some((address, bump)) => {
                if same_key(&address, &accounts[1].address) {
                    Ok(
                        WithdrawAccounts {
                            owner: &accounts[0],
                            vault: &accounts[1],
                            system_program: &accounts[2],
                            bumps: [bump],
                        },
                    )
                } else {
                    Err(VaultError::InvalidSeeds)
                }
            },
            None => Err(VaultError::InvalidSeeds),
        }
    }

    /// Validates the account list of a withdrawal for the program
    /// `program_id`; accounts after the third are ignored.
    pub fn try_from(accounts: &'a [Account], program_id: &[u8; 32]) -> (r: Result<
        WithdrawAccounts<'a>,
        VaultError,
    >)
        ensures
            match r {
                Ok(set) => {
                    &&& withdraw_error(accounts@, program_id@) is None
                    &&& set.taken_from(accounts@)
                    &&& set.bumps[0] == vault_of(accounts@[0].address@, program_id@)->Some_0.1
                },
                Err(e) => withdraw_error(accounts@, program_id@) == Some(e),
            },
    {
        if accounts.len() < 3 {
            return Err(VaultError::NotEnoughAccountKeys);
        }
        let derived = vault_address(&accounts[0].address, program_id);
        WithdrawAccounts::from_derivation(accounts, derived)
    }
}

/// A validated withdrawal.
pub struct Withdraw<'a> {
    pub accounts: WithdrawAccounts<'a>,
}

/// The transfer that a valid withdrawal requests: the vault's whole
/// balance, from the vault to the owner, signed for with the vault's seeds.
pub open spec fn withdraw_transfer(owner: Account, vault: Account, bump: u8) -> TransferRequest {
    TransferRequest {
        from: VAULT_INDEX,
        to: OWNER_INDEX,
        lamports: vault.lamports,
        signer: Some(VaultSigner { owner: owner.address, bump: [bump] }),
    }
}

impl<'a> Withdraw<'a> {
    /// The instruction's discriminator.
    pub const DISCRIMINATOR: u8 = 1;

    /// Validates a withdrawal for the program `program_id`.
    pub fn try_from(accounts: &'a [Account], program_id: &[u8; 32]) -> (r: Result<Withdraw<'a>, VaultError>)
        ensures
            match r {
                Ok(w) => {
                    &&& withdraw_error(accounts@, program_id@) is None
                    &&& w.accounts.taken_from(accounts@)
                    &&& w.accounts.bumps[0] == vault_of(accounts@[0].address@, program_id@)->Some_0.1
                },
                Err(e) => withdraw_error(accounts@, program_id@) == Some(e),
            },
    {
        match WithdrawAccounts::try_from(accounts, program_id) {
            Ok(accounts) => Ok(Withdraw { accounts }),
            Err(e) => Err(e),
        }
    }

    /// The transfer that carries out the withdrawal: the vault's whole
    /// balance to the owner, signed for with the vault's seeds.
    pub fn process(&self) -> (r: TransferRequest)
        ensures
            r == withdraw_transfer(*self.accounts.owner, *self.accounts.vault, self.accounts.bumps[0]),
    {
        let signer = VaultSigner { owner: self.accounts.owner.address, bump: self.accounts.bumps };
        assert(signer.bump == [self.accounts.bumps[0]]) by {
            assert(signer.bump@ =~= seq![self.accounts.bumps[0]]);
        };
        TransferRequest { from: VAULT_INDEX, to: OWNER_INDEX, lamports: self.accounts.vault.lamports, signer: Some(signer) }
    }
}

} // verus!
