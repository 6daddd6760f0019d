//! A custodial vault: an owner deposits lamports into an account derived from
//! the owner's address and withdraws the whole balance back later.
//!
//! The library validates the instruction and the account list and decides the
//! transfer that the host's system program is asked to perform.

pub mod account;
pub mod deposit;
pub mod error;
pub mod laws;
pub mod payload;
pub mod processor;
pub mod transfer;
pub mod vault;
pub mod withdraw;

pub use account::Account;
pub use deposit::{Deposit, DepositAccounts};
pub use error::VaultError;
pub use payload::DepositData;
pub use processor::process_instruction;
pub use transfer::{OWNER_INDEX, TransferRequest, VAULT_INDEX, VaultSigner};
pub use vault::{VAULT_LABEL, vault_address};
pub use withdraw::{Withdraw, WithdrawAccounts};
