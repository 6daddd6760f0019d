use vstd::prelude::*;

verus! {

/// Why an instruction was refused. Every refusal aborts the whole
/// instruction; no transfer is requested.
#[derive(Clone, Copy, Debug, PartialEq, Eq, Structural)]
pub enum VaultError {
    /// Unknown or missing discriminator, or a deposit payload that is not a
    /// non-zero 8-byte amount.
    InvalidInstructionData,
    /// Fewer than three accounts were supplied.
    NotEnoughAccountKeys,
    /// The owner did not sign.
    MissingRequiredSignature,
    /// The vault is not owned by the system program.
    InvalidAccountOwner,
    /// The third account is not the system program.
    IncorrectProgramId,
    /// A withdrawal was asked of an empty vault.
    InvalidAccountData,
    /// The vault is not the address derived from the owner.
    InvalidSeeds,
}

} // verus!
