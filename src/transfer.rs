use vstd::prelude::*;
use crate::account::Account;

verus! {

/// Position of the owner in the account list.
pub const OWNER_INDEX: usize = 0;

/// Position of the vault in the account list.
pub const VAULT_INDEX: usize = 1;

/// The seeds with which the program signs for a vault: the vault label, the
/// owner's address and the bump.
#[derive(Clone, Copy, Debug, PartialEq, Eq)]
pub struct VaultSigner {
    pub owner: [u8; 32],
    pub bump: [u8; 1],
}

/// A transfer that the system program is asked to make: `lamports` from the
/// account at position `from` to the account at position `to`, signed for
/// with the vault's seeds where `signer` holds them.
#[derive(Clone, Copy, Debug, PartialEq, Eq)]
pub struct TransferRequest {
    pub from: usize,
    pub to: usize,
    pub lamports: u64,
    pub signer: Option<VaultSigner>,
}

/// Whether the paying account holds what the transfer moves; where it does
/// not, the system program refuses the transfer and nothing changes.
pub open spec fn transfer_funded(accounts: Seq<Account>, t: TransferRequest) -> bool {
    &&& t.from < accounts.len()
    &&& t.to < accounts.len()
    &&& t.lamports <= accounts[t.from as int].lamports
}

/// The balance of the account at position `i` once the system program has
/// made a funded transfer between two distinct accounts.
pub open spec fn lamports_after(accounts: Seq<Account>, t: TransferRequest, i: int) -> int {
    if i == t.from {
        accounts[i].lamports - t.lamports
    } else if i == t.to {
        accounts[i].lamports + t.lamports
    } else {
        accounts[i].lamports as int
    }
}

} // verus!
