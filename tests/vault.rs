use pda_vault::{
    process_instruction, vault_address, Account, Deposit, DepositAccounts, DepositData,
    TransferRequest, VaultError, VaultSigner, Withdraw, WithdrawAccounts, OWNER_INDEX,
    VAULT_INDEX, VAULT_LABEL,
};

const PROGRAM: [u8; 32] = [
    0x0f, 0x1e, 0x6b, 0x14, 0x21, 0xc0, 0x4a, 0x07, 0x04, 0x31, 0x26, 0x5c, 0x19, 0xc5, 0xbb, 0xee,
    0x19, 0x92, 0xba, 0xe8, 0xaf, 0xd1, 0xcd, 0x07, 0x8e, 0xf8, 0xaf, 0x70, 0x47, 0xdc, 0x11, 0xf7,
];
const SYSTEM: [u8; 32] = [0u8; 32];
const OWNER_KEY: [u8; 32] = [7u8; 32];

fn owner(lamports: u64) -> Account {
    Account { address: OWNER_KEY, owner: SYSTEM, lamports, is_signer: true }
}

fn vault(lamports: u64) -> Account {
    let (address, _) = vault_address(&OWNER_KEY, &PROGRAM).expect("a vault address exists");
    Account { address, owner: SYSTEM, lamports, is_signer: false }
}

fn system_program() -> Account {
    Account { address: SYSTEM, owner: [9u8; 32], lamports: 1, is_signer: false }
}

fn deposit_data(amount: u64) -> Vec<u8> {
    let mut data = vec![0u8];
    data.extend_from_slice(&amount.to_le_bytes());
    data
}

/// Carries out a transfer as the system program would, on the balances.
fn settle(accounts: &[Account], t: &TransferRequest) -> Vec<u64> {
    let mut balances: Vec<u64> = accounts.iter().map(|a| a.lamports).collect();
    assert!(balances[t.from] >= t.lamports);
    balances[t.from] -= t.lamports;
    balances[t.to] += t.lamports;
    balances
}

#[test]
fn scenario_a_deposit_half_of_owner_balance() {
    let accounts = [owner(1_000_000), vault(0), system_program()];
    let t = process_instruction(&PROGRAM, &accounts, &deposit_data(500_000)).unwrap();
    assert_eq!(t, TransferRequest { from: OWNER_INDEX, to: VAULT_INDEX, lamports: 500_000, signer: None });
    let after = settle(&accounts, &t);
    assert_eq!(after[0], 500_000);
    assert_eq!(after[1], 500_000);
    assert_eq!(after[0] + after[1], 1_000_000);
}

#[test]
fn scenario_b_withdraw_sweeps_vault() {
    let accounts = [owner(10), vault(500_000), system_program()];
    let t = process_instruction(&PROGRAM, &accounts, &[1u8]).unwrap();
    let (_, bump) = vault_address(&OWNER_KEY, &PROGRAM).unwrap();
    assert_eq!(
        t,
        TransferRequest {
            from: VAULT_INDEX,
            to: OWNER_INDEX,
            lamports: 500_000,
            signer: Some(VaultSigner { owner: OWNER_KEY, bump: [bump] }),
        }
    );
    let after = settle(&accounts, &t);
    assert_eq!(after[1], 0);
    assert_eq!(after[0], 500_010);
}

#[test]
fn scenario_c_zero_amount_is_rejected() {
    let accounts = [owner(1_000_000), vault(0), system_program()];
    let r = process_instruction(&PROGRAM, &accounts, &[0, 0, 0, 0, 0, 0, 0, 0, 0]);
    assert_eq!(r, Err(VaultError::InvalidInstructionData));
}

#[test]
fn scenario_d_vault_owned_by_other_program() {
    let mut foreign = vault(500_000);
    foreign.owner = PROGRAM;
    let accounts = [owner(1_000_000), foreign, system_program()];
    assert_eq!(
        process_instruction(&PROGRAM, &accounts, &deposit_data(5)),
        Err(VaultError::InvalidAccountOwner)
    );
    assert_eq!(process_instruction(&PROGRAM, &accounts, &[1]), Err(VaultError::InvalidAccountOwner));
}

#[test]
fn deposit_moves_amount_and_keeps_sum() {
    let accounts = [owner(777), vault(23), system_program()];
    let t = process_instruction(&PROGRAM, &accounts, &deposit_data(700)).unwrap();
    let after = settle(&accounts, &t);
    assert_eq!(after[0], 77);
    assert_eq!(after[1], 723);
    assert_eq!(after[0] + after[1], 800);
    assert_eq!(after[2], 1);
}

#[test]
fn zero_deposit_fails_even_with_bad_accounts() {
    let mut unsigned = owner(5);
    unsigned.is_signer = false;
    let zero = deposit_data(0);
    assert_eq!(process_instruction(&PROGRAM, &[unsigned], &zero), Err(VaultError::InvalidInstructionData));
    assert_eq!(process_instruction(&PROGRAM, &[], &zero), Err(VaultError::InvalidInstructionData));
}

#[test]
fn unsigned_deposit_fails() {
    let mut unsigned = owner(1_000);
    unsigned.is_signer = false;
    let accounts = [unsigned, vault(0), system_program()];
    assert_eq!(
        process_instruction(&PROGRAM, &accounts, &deposit_data(10)),
        Err(VaultError::MissingRequiredSignature)
    );
}

#[test]
fn withdraw_from_empty_vault_fails() {
    let accounts = [owner(1_000), vault(0), system_program()];
    assert_eq!(process_instruction(&PROGRAM, &accounts, &[1]), Err(VaultError::InvalidAccountData));
}

#[test]
fn unknown_discriminator_fails() {
    let accounts = [owner(1_000), vault(50), system_program()];
    assert_eq!(process_instruction(&PROGRAM, &accounts, &[2]), Err(VaultError::InvalidInstructionData));
    assert_eq!(process_instruction(&PROGRAM, &accounts, &[0xff, 1, 2]), Err(VaultError::InvalidInstructionData));
    assert_eq!(process_instruction(&PROGRAM, &accounts, &[]), Err(VaultError::InvalidInstructionData));
}

#[test]
fn deposit_payload_of_wrong_length_fails() {
    let accounts = [owner(1_000), vault(0), system_program()];
    assert_eq!(process_instruction(&PROGRAM, &accounts, &[0]), Err(VaultError::InvalidInstructionData));
    assert_eq!(process_instruction(&PROGRAM, &accounts, &[0, 1, 0, 0, 0, 0, 0, 0]), Err(VaultError::InvalidInstructionData));
    assert_eq!(
        process_instruction(&PROGRAM, &accounts, &[0, 1, 0, 0, 0, 0, 0, 0, 0, 0]),
        Err(VaultError::InvalidInstructionData)
    );
}

#[test]
fn too_few_accounts_fail() {
    let accounts = [owner(1_000), vault(10)];
    assert_eq!(process_instruction(&PROGRAM, &accounts, &deposit_data(1)), Err(VaultError::NotEnoughAccountKeys));
    assert_eq!(process_instruction(&PROGRAM, &accounts, &[1]), Err(VaultError::NotEnoughAccountKeys));
}

#[test]
fn wrong_system_program_fails() {
    let mut fake = system_program();
    fake.address = [3u8; 32];
    let accounts = [owner(1_000), vault(10), fake];
    assert_eq!(process_instruction(&PROGRAM, &accounts, &deposit_data(1)), Err(VaultError::IncorrectProgramId));
    assert_eq!(process_instruction(&PROGRAM, &accounts, &[1]), Err(VaultError::IncorrectProgramId));
}

#[test]
fn withdraw_from_underived_vault_fails() {
    let mut other = vault(10);
    other.address = [4u8; 32];
    let accounts = [owner(1_000), other, system_program()];
    assert_eq!(process_instruction(&PROGRAM, &accounts, &[1]), Err(VaultError::InvalidSeeds));
    // Deposits do not check the vault's derivation.
    assert!(process_instruction(&PROGRAM, &accounts, &deposit_data(1)).is_ok());
}

#[test]
fn extra_accounts_and_bytes_are_ignored() {
    let accounts = [owner(1_000), vault(40), system_program(), owner(3)];
    let t = process_instruction(&PROGRAM, &accounts, &[1, 9, 9]).unwrap();
    assert_eq!(t.lamports, 40);
    let t = process_instruction(&PROGRAM, &accounts, &deposit_data(1_000)).unwrap();
    assert_eq!(t.lamports, 1_000);
}

#[test]
fn deposit_data_reads_little_endian() {
    assert_eq!(DepositData::try_from(&[1, 2, 3, 4, 5, 6, 7, 8]), Ok(DepositData { amount: 0x0807060504030201 }));
    assert_eq!(DepositData::try_from(&[0xff; 8]), Ok(DepositData { amount: u64::MAX }));
    assert_eq!(DepositData::try_from(&[0x20, 0xa1, 0x07, 0, 0, 0, 0, 0]), Ok(DepositData { amount: 500_000 }));
    assert_eq!(DepositData::try_from(&[0; 8]), Err(VaultError::InvalidInstructionData));
    assert_eq!(DepositData::try_from(&[]), Err(VaultError::InvalidInstructionData));
}

#[test]
fn deposit_validates_payload_before_accounts() {
    let zero = [0u8; 8];
    let accounts = [owner(1)];
    assert!(matches!(Deposit::try_from((&zero, &accounts)), Err(VaultError::InvalidInstructionData)));
    let amount = 9u64.to_le_bytes();
    assert!(matches!(Deposit::try_from((&amount, &accounts)), Err(VaultError::NotEnoughAccountKeys)));
    let accounts = [owner(100), vault(0), system_program()];
    let d = Deposit::try_from((&amount, &accounts)).ok().unwrap();
    assert_eq!(d.data.amount, 9);
    assert_eq!(*d.accounts.vault, accounts[1]);
    assert_eq!(d.process().lamports, 9);
}

#[test]
fn account_sets_take_first_three() {
    let accounts = [owner(5), vault(6), system_program()];
    let d = DepositAccounts::try_from(&accounts).ok().unwrap();
    assert_eq!(*d.owner, accounts[0]);
    assert_eq!(*d.system_program, accounts[2]);
    let w = WithdrawAccounts::try_from(&accounts, &PROGRAM).ok().unwrap();
    assert_eq!(w.vault.lamports, 6);
    let (_, bump) = vault_address(&OWNER_KEY, &PROGRAM).unwrap();
    assert_eq!(w.bumps, [bump]);
    let w = Withdraw::try_from(&accounts, &PROGRAM).ok().unwrap();
    assert_eq!(w.process().signer, Some(VaultSigner { owner: OWNER_KEY, bump: [bump] }));
}

#[test]
fn withdraw_checks_supplied_derivation() {
    let accounts = [owner(5), vault(6), system_program()];
    let address = accounts[1].address;
    let w = WithdrawAccounts::from_derivation(&accounts, Some((address, 200))).ok().unwrap();
    assert_eq!(w.bumps, [200]);
    assert!(matches!(WithdrawAccounts::from_derivation(&accounts, Some(([8u8; 32], 200))), Err(VaultError::InvalidSeeds)));
    assert!(matches!(WithdrawAccounts::from_derivation(&accounts, None), Err(VaultError::InvalidSeeds)));
    let empty = [owner(5), vault(0), system_program()];
    assert!(matches!(WithdrawAccounts::from_derivation(&empty, None), Err(VaultError::InvalidAccountData)));
}

#[test]
fn vault_address_depends_on_owner_and_program() {
    let (a, bump_a) = vault_address(&OWNER_KEY, &PROGRAM).unwrap();
    assert_ne!(a, OWNER_KEY);
    assert_ne!(a, PROGRAM);
    assert_eq!(vault_address(&OWNER_KEY, &PROGRAM), Some((a, bump_a)));
    let (b, _) = vault_address(&[8u8; 32], &PROGRAM).unwrap();
    assert_ne!(a, b);
    let (c, _) = vault_address(&OWNER_KEY, &[5u8; 32]).unwrap();
    assert_ne!(a, c);
    assert_eq!(&VAULT_LABEL, b"vault");
}
