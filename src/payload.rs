use vstd::prelude::*;
use crate::error::VaultError;

verus! {

/// The unsigned value of eight bytes read little-endian.
pub open spec fn le_u64(b: Seq<u8>) -> int
    recommends
        b.len() == 8,
{
    b[0] + 256 * (b[1] + 256 * (b[2] + 256 * (b[3] + 256 * (b[4] + 256 * (b[5] + 256 * (b[6]
        + 256 * b[7]))))))
}

/// Reads eight bytes as a little-endian `u64`.
pub fn read_le_u64(b: &[u8]) -> (r: u64)
    requires
        b@.len() == 8,
    ensures
        r == le_u64(b@),
{
    let v7 = b[7] as u64;
    let v6 = b[6] as u64 + 256 * v7;
    let v5 = b[5] as u64 + 256 * v6;
    let v4 = b[4] as u64 + 256 * v5;
    let v3 = b[3] as u64 + 256 * v4;
    let v2 = b[2] as u64 + 256 * v3;
    let v1 = b[1] as u64 + 256 * v2;
    b[0] as u64 + 256 * v1
}

/// The payload of a deposit: the amount to move into the vault.
#[derive(Clone, Copy, Debug, PartialEq, Eq, Structural)]
pub struct DepositData {
    pub amount: u64,
}

/// What a deposit payload decodes to: exactly eight bytes holding a
/// non-zero little-endian amount.
pub open spec fn deposit_data_of(data: Seq<u8>) -> Result<DepositData, VaultError> {
    if data.len() != 8 || le_u64(data) == 0 {
        Err(VaultError::InvalidInstructionData)
    } else {
        Ok(DepositData { amount: le_u64(data) as u64 })
    }
}

impl DepositData {
    /// Decodes a deposit payload.
    pub fn try_from(data: &[u8]) -> (r: Result<DepositData, VaultError>)
        ensures
            r == deposit_data_of(data@),
    {
        if data.len() != 8 {
            return Err(VaultError::InvalidInstructionData);
        }
        let amount = read_le_u64(data);
        if amount == 0 {
            return Err(VaultError::InvalidInstructionData);
        }
        Ok(DepositData { amount })
    }
}

} // verus!
