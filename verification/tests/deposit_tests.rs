use vault_deposit::account::Account;
use vault_deposit::deposit::Deposit;
use vault_deposit::deposit::DEPOSIT_DISCRIMINATOR;
use vault_deposit::error::DepositError;
use vault_deposit::payload::DepositInstructionData;
use vault_deposit::pda::derive_vault_address;
use vault_deposit::system::system_program_address;
use vault_deposit::validate::DepositAccounts;

fn program_id() -> Vec<u8> {
    vec![9u8; 32]
}

fn owner_account(lamports: u64, is_signer: bool) -> Account {
    Account {
        address: vec![1u8; 32],
        owner_program: system_program_address(),
        lamports,
        is_signer,
    }
}

fn canonical_vault() -> Account {
    let owner = owner_account(0, true);
    let address = derive_vault_address(&owner.address, &program_id())
        .expect("derivation should succeed for this owner");
    Account {
        address,
        owner_program: system_program_address(),
        lamports: 0,
        is_signer: false,
    }
}

#[test]
fn parse_rejects_short_payload() {
    let data = [1u8; 7];
    let r = DepositInstructionData::try_from(&data);
    assert!(matches!(r, Err(DepositError::PayloadError)));
}

#[test]
fn parse_rejects_long_payload() {
    let data = [1u8; 9];
    let r = DepositInstructionData::try_from(&data);
    assert!(matches!(r, Err(DepositError::PayloadError)));
}

#[test]
fn parse_rejects_empty_payload() {
    let data: [u8; 0] = [];
    let r = DepositInstructionData::try_from(&data);
    assert!(matches!(r, Err(DepositError::PayloadError)));
}

#[test]
fn parse_rejects_zero_amount() {
    let data = 0u64.to_le_bytes();
    let r = DepositInstructionData::try_from(&data);
    assert!(matches!(r, Err(DepositError::PayloadError)));
}

#[test]
fn parse_returns_exact_amount() {
    let data = 1_000_000u64.to_le_bytes();
    let r = DepositInstructionData::try_from(&data).unwrap();
    assert_eq!(r.amount, 1_000_000);
}

#[test]
fn parse_returns_largest_amount() {
    let data = u64::MAX.to_le_bytes();
    let r = DepositInstructionData::try_from(&data).unwrap();
    assert_eq!(r.amount, u64::MAX);
}

#[test]
fn validation_rejects_empty_account_list() {
    let r = DepositAccounts::try_from(Vec::new(), &program_id());
    assert!(matches!(r, Err(DepositError::StructuralError)));
}

#[test]
fn validation_rejects_single_account() {
    let r = DepositAccounts::try_from(vec![owner_account(0, true)], &program_id());
    assert!(matches!(r, Err(DepositError::StructuralError)));
}

#[test]
fn validation_rejects_three_accounts() {
    let accounts = vec![owner_account(0, true), canonical_vault(), owner_account(0, true)];
    let r = DepositAccounts::try_from(accounts, &program_id());
    assert!(matches!(r, Err(DepositError::StructuralError)));
}

#[test]
fn validation_rejects_unsigned_owner() {
    let accounts = vec![owner_account(0, false), canonical_vault()];
    let r = DepositAccounts::try_from(accounts, &program_id());
    assert!(matches!(r, Err(DepositError::AuthorizationError)));
}

#[test]
fn validation_reports_missing_signature_before_vault_state() {
    let mut vault = canonical_vault();
    vault.lamports = 7;
    let accounts = vec![owner_account(0, false), vault];
    let r = DepositAccounts::try_from(accounts, &program_id());
    assert!(matches!(r, Err(DepositError::AuthorizationError)));
}

#[test]
fn validation_rejects_foreign_owned_vault() {
    let mut vault = canonical_vault();
    vault.owner_program = vec![3u8; 32];
    let accounts = vec![owner_account(0, true), vault];
    let r = DepositAccounts::try_from(accounts, &program_id());
    assert!(matches!(r, Err(DepositError::OwnershipError)));
}

#[test]
fn validation_rejects_funded_vault() {
    let mut vault = canonical_vault();
    vault.lamports = 5;
    let accounts = vec![owner_account(0, true), vault];
    let r = DepositAccounts::try_from(accounts, &program_id());
    assert!(matches!(r, Err(DepositError::StateError)));
}

#[test]
fn validation_rejects_spoofed_vault_address() {
    let mut vault = canonical_vault();
    vault.address = vec![4u8; 32];
    let accounts = vec![owner_account(0, true), vault];
    let r = DepositAccounts::try_from(accounts, &program_id());
    assert!(matches!(r, Err(DepositError::OwnershipError)));
}

#[test]
fn validation_accepts_canonical_pair() {
    let accounts = vec![owner_account(42, true), canonical_vault()];
    let r = DepositAccounts::try_from(accounts, &program_id()).unwrap();
    assert_eq!(r.owner.lamports, 42);
    assert!(r.owner.is_signer);
    assert_eq!(r.vault.lamports, 0);
}

#[test]
fn deposit_scenario_succeeds_and_moves_balance() {
    let data = 1_000_000u64.to_le_bytes();
    let accounts = vec![owner_account(5_000_000, true), canonical_vault()];
    let mut deposit = Deposit::try_from(&data, accounts, &program_id()).unwrap();
    assert_eq!(deposit.instruction_data.amount, 1_000_000);
    deposit.process().unwrap();
    assert_eq!(deposit.accounts.owner.lamports, 4_000_000);
    assert_eq!(deposit.accounts.vault.lamports, 1_000_000);
}

#[test]
fn deposit_scenario_rejects_zero_payload() {
    let data = 0u64.to_le_bytes();
    let accounts = vec![owner_account(5_000_000, true), canonical_vault()];
    let r = Deposit::try_from(&data, accounts, &program_id());
    assert!(matches!(r, Err(DepositError::PayloadError)));
}

#[test]
fn deposit_scenario_rejects_prefunded_vault() {
    let data = 1_000_000u64.to_le_bytes();
    let mut vault = canonical_vault();
    vault.lamports = 5;
    let accounts = vec![owner_account(5_000_000, true), vault];
    let r = Deposit::try_from(&data, accounts, &program_id());
    assert!(matches!(r, Err(DepositError::StateError)));
}

#[test]
fn process_rejects_insufficient_balance_and_changes_nothing() {
    let data = 1_000_000u64.to_le_bytes();
    let accounts = vec![owner_account(10, true), canonical_vault()];
    let mut deposit = Deposit::try_from(&data, accounts, &program_id()).unwrap();
    let r = deposit.process();
    assert!(matches!(r, Err(DepositError::TransferError)));
    assert_eq!(deposit.accounts.owner.lamports, 10);
    assert_eq!(deposit.accounts.vault.lamports, 0);
}

#[test]
fn derivation_is_deterministic() {
    let owner = vec![1u8; 32];
    let first = derive_vault_address(&owner, &program_id());
    let second = derive_vault_address(&owner, &program_id());
    assert!(first.is_some());
    assert_eq!(first, second);
}

#[test]
fn derivation_matches_the_ledger_primitive() {
    let owner = vec![1u8; 32];
    let pid_bytes = program_id();
    let mut pid = [0u8; 32];
    pid.copy_from_slice(&pid_bytes);
    let program = solana_address::Address::from(pid);
    let (expected, _bump) =
        solana_address::Address::find_program_address(&[b"vault", &owner], &program);
    let derived = derive_vault_address(&owner, &pid_bytes).unwrap();
    assert_eq!(derived, expected.to_bytes().to_vec());
}

#[test]
fn derivation_does_not_echo_the_owner_address() {
    let owner = vec![1u8; 32];
    let derived = derive_vault_address(&owner, &program_id()).unwrap();
    assert_eq!(derived.len(), 32);
    assert_ne!(derived, owner);
}

#[test]
fn system_program_address_is_the_base_program_id() {
    let id = system_program_address();
    assert_eq!(id, pinocchio_system::ID.to_bytes().to_vec());
    assert_eq!(id, vec![0u8; 32]);
}

#[test]
fn discriminator_is_zero() {
    assert_eq!(DEPOSIT_DISCRIMINATOR, 0);
}
