use vstd::prelude::*;
use crate::error::VaultError;

verus! {

/// What the logic reads of an account that the host supplied.
#[derive(Clone, Copy, Debug, PartialEq, Eq)]
pub struct Account {
    /// The account's address.
    pub address: [u8; 32],
    /// The program that owns the account.
    pub owner: [u8; 32],
    /// The account's balance.
    pub lamports: u64,
    /// Whether the account signed the transaction.
    pub is_signer: bool,
}

/// The system program's address: 32 zero bytes.
pub open spec fn system_program_key() -> Seq<u8> {
    Seq::new(32, |i: int| 0u8)
}

/// Relies on `pinocchio_system::ID`, the system program's address, declared
/// from the base58 text of 32 '1' digits, that is 32 zero bytes.
#[verifier::external_body]
pub(crate) fn system_program_id() -> (r: [u8; 32])
    ensures
        r@ == system_program_key(),
{
    pinocchio_system::ID.to_bytes()
}

/// Whether two 32-byte keys are equal.
pub fn same_key(a: &[u8; 32], b: &[u8; 32]) -> (r: bool)
    ensures
        r == (a@ == b@),
{
    let mut i: usize = 0;
    while i < 32
        invariant
            i <= 32,
            forall|j: int| 0 <= j < i ==> a@[j] == b@[j],
        decreases 32 - i,
    {
        if a[i] != b[i] {
            return false;
        }
        i = i + 1;
    }
    assert(a@ =~= b@);
    true
}

/// The checks that both instructions make of the account list, in order:
/// the first one that fails gives the error.
pub open spec fn account_set_error(accounts: Seq<Account>) -> Option<VaultError> {
    if accounts.len() < 3 {
        Some(VaultError::NotEnoughAccountKeys)
    } else if !accounts[0].is_signer {
        Some(VaultError::MissingRequiredSignature)
    } else if accounts[1].owner@ != system_program_key() {
        Some(VaultError::InvalidAccountOwner)
    } else if accounts[2].address@ != system_program_key() {
        Some(VaultError::IncorrectProgramId)
    } else {
        None
    }
}

/// Runs the checks of `account_set_error` on the first three accounts; the
/// accounts after them are ignored.
pub fn check_account_set(accounts: &[Account]) -> (r: Option<VaultError>)
    ensures
        r == account_set_error(accounts@),
{
    if accounts.len() < 3 {
        return Some(VaultError::NotEnoughAccountKeys);
    }
    if !accounts[0].is_signer {
        return Some(VaultError::MissingRequiredSignature);
    }
    let system = system_program_id();
    if !same_key(&accounts[1].owner, &system) {
        return Some(VaultError::InvalidAccountOwner);
    }
    if !same_key(&accounts[2].address, &system) {
        return Some(VaultError::IncorrectProgramId);
    }
    None
}

} // verus!
