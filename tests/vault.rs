use pda_vault::address::{transfers_seed, vault_seed, verify_derived, Address};
use pda_vault::error::VaultError;
use pda_vault::instruction::VaultInstruction;
use pda_vault::processor::{deposit, initialize, withdraw};
use pda_vault::state::{UserTransfers, Vault, USER_TRANSFERS_LEN, VAULT_LEN};
use solana_program::pubkey::Pubkey;

struct Fixture {
    program: Address,
    user: Address,
    vault_key: Address,
    vault_bump: u8,
    transfers_key: Address,
    transfers_bump: u8,
}

fn address(p: &Pubkey) -> Address {
    Address::new(p.to_bytes())
}

fn fixture() -> Fixture {
    let program = Pubkey::new_from_array([7u8; 32]);
    let user = Pubkey::new_from_array([42u8; 32]);
    let (vault, vault_bump) =
        Pubkey::find_program_address(&[b"vault".as_ref(), user.as_ref()], &program);
    let (transfers, transfers_bump) =
        Pubkey::find_program_address(&[b"user_transfers".as_ref(), vault.as_ref()], &program);
    Fixture {
        program: address(&program),
        user: address(&user),
        vault_key: address(&vault),
        vault_bump,
        transfers_key: address(&transfers),
        transfers_bump,
    }
}

fn other_address() -> Address {
    Address::new([9u8; 32])
}

fn initialized_vault(f: &Fixture) -> Vault {
    initialize(&f.program, &f.user, true, &f.vault_key, &None)
        .unwrap()
        .vault
}

fn ledger(f: &Fixture, deposited: u64, withdrawn: u64) -> UserTransfers {
    UserTransfers {
        discriminator: "transfers".to_string(),
        deposited_amount: deposited,
        withdrawn_amount: withdrawn,
        initialized: true,
        owner: f.user,
        vault: f.vault_key,
    }
}

fn vault_with(f: &Fixture, deposited: u64, withdrawn: u64) -> Vault {
    Vault {
        discriminator: "vault".to_string(),
        deposited_amount: deposited,
        withdrawn_amount: withdrawn,
        initialized: true,
        owner: f.user,
    }
}

#[test]
fn unpack_initialize() {
    assert_eq!(VaultInstruction::unpack(&[0]), Ok(VaultInstruction::Initialize {}));
    assert_eq!(VaultInstruction::unpack(&[0, 5, 6]), Ok(VaultInstruction::Initialize {}));
}

#[test]
fn unpack_deposit_little_endian() {
    let mut data = vec![1u8];
    data.extend_from_slice(&0x0102_0304_0506_0708u64.to_le_bytes());
    assert_eq!(
        VaultInstruction::unpack(&data),
        Ok(VaultInstruction::Deposit { amount: 0x0102_0304_0506_0708 })
    );
    assert_eq!(
        VaultInstruction::unpack(&[1, 0xe8, 0x03, 0, 0, 0, 0, 0, 0]),
        Ok(VaultInstruction::Deposit { amount: 1000 })
    );
}

#[test]
fn unpack_deposit_wrong_payload_length() {
    assert_eq!(
        VaultInstruction::unpack(&[1, 1, 2, 3]),
        Err(VaultError::InvalidInstructionData)
    );
    assert_eq!(
        VaultInstruction::unpack(&[1, 0, 0, 0, 0, 0, 0, 0, 0, 0]),
        Err(VaultError::InvalidInstructionData)
    );
}

#[test]
fn unpack_withdraw_ignores_trailing_bytes() {
    assert_eq!(VaultInstruction::unpack(&[2]), Ok(VaultInstruction::Withdraw {}));
    assert_eq!(VaultInstruction::unpack(&[2, 100, 0, 0, 0, 0, 0, 0, 0]), Ok(VaultInstruction::Withdraw {}));
}

#[test]
fn unpack_rejects_unknown_and_empty() {
    assert_eq!(VaultInstruction::unpack(&[]), Err(VaultError::InvalidInstructionData));
    assert_eq!(VaultInstruction::unpack(&[3]), Err(VaultError::InvalidInstructionData));
    assert_eq!(VaultInstruction::unpack(&[255, 0]), Err(VaultError::InvalidInstructionData));
}

#[test]
fn derivation_matches_platform() {
    let f = fixture();
    let vtag = vault_seed();
    assert_eq!(vtag, b"vault".to_vec());
    assert_eq!(transfers_seed(), b"user_transfers".to_vec());
    assert_eq!(verify_derived(&vtag, &f.user, &f.program, &f.vault_key), Some(f.vault_bump));
    assert_eq!(verify_derived(&vtag, &f.user, &f.program, &f.user), None);
    assert_eq!(
        verify_derived(&transfers_seed(), &f.vault_key, &f.program, &f.transfers_key),
        Some(f.transfers_bump)
    );
    assert_eq!(verify_derived(&transfers_seed(), &f.user, &f.program, &f.transfers_key), None);
}

#[test]
fn record_lengths() {
    assert_eq!(VAULT_LEN, 58);
    assert_eq!(USER_TRANSFERS_LEN, 94);
}

#[test]
fn initialize_creates_fresh_vault() {
    let f = fixture();
    let out = initialize(&f.program, &f.user, true, &f.vault_key, &None).unwrap();
    let create = out.create.expect("absent vault must be created");
    assert_eq!(create.address.bytes, f.vault_key.bytes);
    assert_eq!(create.space, 58);
    assert_eq!(create.tag, b"vault".to_vec());
    assert_eq!(create.key.bytes, f.user.bytes);
    assert_eq!(create.bump, f.vault_bump);
    assert_eq!(out.vault.discriminator, "vault");
    assert_eq!(out.vault.deposited_amount, 0);
    assert_eq!(out.vault.withdrawn_amount, 0);
    assert!(out.vault.initialized);
    assert_eq!(out.vault.owner.bytes, f.user.bytes);
}

#[test]
fn initialize_existing_empty_slot_needs_no_creation() {
    let f = fixture();
    let empty = Vault {
        discriminator: String::new(),
        deposited_amount: 0,
        withdrawn_amount: 0,
        initialized: false,
        owner: Address::new([0u8; 32]),
    };
    let out = initialize(&f.program, &f.user, true, &f.vault_key, &Some(empty)).unwrap();
    assert!(out.create.is_none());
    assert!(out.vault.initialized);
}

#[test]
fn initialize_twice_fails() {
    let f = fixture();
    let first = initialized_vault(&f);
    let before = format!("{:?}", first);
    let second = initialize(&f.program, &f.user, true, &f.vault_key, &Some(first));
    assert_eq!(second.err(), Some(VaultError::AccountAlreadyInitialized));
    let again = initialized_vault(&f);
    assert_eq!(format!("{:?}", again), before);
}

#[test]
fn initialize_requires_signature() {
    let f = fixture();
    let r = initialize(&f.program, &f.user, false, &f.vault_key, &None);
    assert_eq!(r.err(), Some(VaultError::MissingRequiredSignature));
}

#[test]
fn initialize_rejects_wrong_address() {
    let f = fixture();
    let r = initialize(&f.program, &f.user, true, &other_address(), &None);
    assert_eq!(r.err(), Some(VaultError::InvalidPDA));
}

#[test]
fn first_deposit_creates_ledger() {
    let f = fixture();
    let v = initialized_vault(&f);
    let out = deposit(&f.program, &f.user, true, &f.vault_key, &Some(v), &f.transfers_key, &None, 100).unwrap();
    let create = out.create.expect("absent ledger must be created");
    assert_eq!(create.address.bytes, f.transfers_key.bytes);
    assert_eq!(create.space, 94);
    assert_eq!(create.tag, b"user_transfers".to_vec());
    assert_eq!(create.key.bytes, f.vault_key.bytes);
    assert_eq!(create.bump, f.transfers_bump);
    assert_eq!(out.amount, 100);
    assert_eq!(out.vault.deposited_amount, 100);
    assert_eq!(out.vault.withdrawn_amount, 0);
    assert_eq!(out.transfers.discriminator, "transfers");
    assert_eq!(out.transfers.deposited_amount, 100);
    assert_eq!(out.transfers.withdrawn_amount, 0);
    assert!(out.transfers.initialized);
    assert_eq!(out.transfers.owner.bytes, f.user.bytes);
    assert_eq!(out.transfers.vault.bytes, f.vault_key.bytes);
}

#[test]
fn deposits_accumulate_in_both_records() {
    let f = fixture();
    let v = initialized_vault(&f);
    let a = deposit(&f.program, &f.user, true, &f.vault_key, &Some(v), &f.transfers_key, &None, 100).unwrap();
    let b = deposit(&f.program, &f.user, true, &f.vault_key, &Some(a.vault), &f.transfers_key, &Some(a.transfers), 250).unwrap();
    assert!(b.create.is_none());
    assert_eq!(b.vault.deposited_amount, 350);
    assert_eq!(b.transfers.deposited_amount, 350);
    let c = deposit(&f.program, &f.user, true, &f.vault_key, &Some(b.vault), &f.transfers_key, &Some(b.transfers), 1).unwrap();
    assert_eq!(c.vault.deposited_amount, c.transfers.deposited_amount);
    assert_eq!(c.vault.deposited_amount, 351);
}

#[test]
fn zero_deposit_keeps_totals_and_creates_ledger() {
    let f = fixture();
    let v = initialized_vault(&f);
    let out = deposit(&f.program, &f.user, true, &f.vault_key, &Some(v), &f.transfers_key, &None, 0).unwrap();
    assert!(out.create.is_some());
    assert_eq!(out.vault.deposited_amount, 0);
    assert_eq!(out.transfers.deposited_amount, 0);
    assert!(out.transfers.initialized);
    let again = deposit(&f.program, &f.user, true, &f.vault_key, &Some(vault_with(&f, 40, 4)), &f.transfers_key, &Some(ledger(&f, 40, 4)), 0).unwrap();
    assert!(again.create.is_none());
    assert_eq!(again.vault.deposited_amount, 40);
    assert_eq!(again.transfers.deposited_amount, 40);
    assert_eq!(again.transfers.withdrawn_amount, 4);
}

#[test]
fn deposit_overflow_refused() {
    let f = fixture();
    let r = deposit(&f.program, &f.user, true, &f.vault_key, &Some(vault_with(&f, u64::MAX - 5, 0)), &f.transfers_key, &Some(ledger(&f, u64::MAX - 5, 0)), 6);
    assert_eq!(r.err(), Some(VaultError::ArithmeticOverflow));
    let fits = deposit(&f.program, &f.user, true, &f.vault_key, &Some(vault_with(&f, u64::MAX - 5, 0)), &f.transfers_key, &Some(ledger(&f, u64::MAX - 5, 0)), 5).unwrap();
    assert_eq!(fits.vault.deposited_amount, u64::MAX);
    let ledger_only = deposit(&f.program, &f.user, true, &f.vault_key, &Some(vault_with(&f, 0, 0)), &f.transfers_key, &Some(ledger(&f, u64::MAX, 0)), 1);
    assert_eq!(ledger_only.err(), Some(VaultError::ArithmeticOverflow));
}

#[test]
fn deposit_rejects_mismatched_addresses() {
    let f = fixture();
    let r = deposit(&f.program, &f.user, true, &other_address(), &Some(initialized_vault(&f)), &f.transfers_key, &None, 10);
    assert_eq!(r.err(), Some(VaultError::InvalidPDA));
    let r = deposit(&f.program, &f.user, true, &f.vault_key, &Some(initialized_vault(&f)), &other_address(), &None, 10);
    assert_eq!(r.err(), Some(VaultError::InvalidPDA));
    // the ledger derived from the user instead of the vault is refused
    let program = Pubkey::new_from_array(f.program.bytes);
    let user = Pubkey::new_from_array(f.user.bytes);
    let (wrong, _) = Pubkey::find_program_address(&[b"user_transfers".as_ref(), user.as_ref()], &program);
    let r = deposit(&f.program, &f.user, true, &f.vault_key, &Some(initialized_vault(&f)), &address(&wrong), &None, 10);
    assert_eq!(r.err(), Some(VaultError::InvalidPDA));
}

#[test]
fn deposit_requires_initialized_vault_and_signature() {
    let f = fixture();
    let r = deposit(&f.program, &f.user, true, &f.vault_key, &None, &f.transfers_key, &None, 10);
    assert_eq!(r.err(), Some(VaultError::UninitializedAccount));
    let mut v = initialized_vault(&f);
    v.initialized = false;
    let r = deposit(&f.program, &f.user, true, &f.vault_key, &Some(v), &f.transfers_key, &None, 10);
    assert_eq!(r.err(), Some(VaultError::UninitializedAccount));
    let r = deposit(&f.program, &f.user, false, &f.vault_key, &Some(initialized_vault(&f)), &f.transfers_key, &None, 10);
    assert_eq!(r.err(), Some(VaultError::MissingRequiredSignature));
}

#[test]
fn withdrawals_decay_geometrically() {
    let f = fixture();
    let v = initialized_vault(&f);
    let d = deposit(&f.program, &f.user, true, &f.vault_key, &Some(v), &f.transfers_key, &None, 100).unwrap();
    let w1 = withdraw(&f.program, &f.user, true, &f.vault_key, &Some(d.vault), &f.transfers_key, &Some(d.transfers)).unwrap();
    assert_eq!(w1.amount, 10);
    assert_eq!(w1.vault.withdrawn_amount, 10);
    assert_eq!(w1.transfers.withdrawn_amount, 10);
    let w2 = withdraw(&f.program, &f.user, true, &f.vault_key, &Some(w1.vault), &f.transfers_key, &Some(w1.transfers)).unwrap();
    assert_eq!(w2.amount, 9);
    assert_eq!(w2.vault.withdrawn_amount, 19);
    assert_eq!(w2.transfers.withdrawn_amount, 19);
    assert_eq!(w2.vault.deposited_amount, 100);
}

#[test]
fn withdraw_rounds_down() {
    let f = fixture();
    let w = withdraw(&f.program, &f.user, true, &f.vault_key, &Some(vault_with(&f, 59, 0)), &f.transfers_key, &Some(ledger(&f, 59, 0))).unwrap();
    assert_eq!(w.amount, 5);
    let w = withdraw(&f.program, &f.user, true, &f.vault_key, &Some(vault_with(&f, 9, 0)), &f.transfers_key, &Some(ledger(&f, 9, 0))).unwrap();
    assert_eq!(w.amount, 0);
    assert_eq!(w.vault.withdrawn_amount, 0);
}

#[test]
fn withdraw_of_largest_balance_does_not_overflow() {
    let f = fixture();
    let w = withdraw(&f.program, &f.user, true, &f.vault_key, &Some(vault_with(&f, u64::MAX, 0)), &f.transfers_key, &Some(ledger(&f, u64::MAX, 0))).unwrap();
    assert_eq!(w.amount, u64::MAX / 10);
}

#[test]
fn withdraw_before_deposit_fails() {
    let f = fixture();
    let r = withdraw(&f.program, &f.user, true, &f.vault_key, &Some(initialized_vault(&f)), &f.transfers_key, &None);
    assert_eq!(r.err(), Some(VaultError::UninitializedAccount));
}

#[test]
fn withdraw_rejects_mismatched_addresses() {
    let f = fixture();
    let r = withdraw(&f.program, &f.user, true, &other_address(), &Some(vault_with(&f, 50, 0)), &f.transfers_key, &Some(ledger(&f, 50, 0)));
    assert_eq!(r.err(), Some(VaultError::InvalidPDA));
    let r = withdraw(&f.program, &f.user, true, &f.vault_key, &Some(vault_with(&f, 50, 0)), &other_address(), &Some(ledger(&f, 50, 0)));
    assert_eq!(r.err(), Some(VaultError::InvalidPDA));
}

#[test]
fn withdraw_detects_broken_ledger() {
    let f = fixture();
    let r = withdraw(&f.program, &f.user, true, &f.vault_key, &Some(vault_with(&f, 10, 20)), &f.transfers_key, &Some(ledger(&f, 10, 20)));
    assert_eq!(r.err(), Some(VaultError::ArithmeticOverflow));
    let r = withdraw(&f.program, &f.user, true, &f.vault_key, &Some(vault_with(&f, 100, u64::MAX)), &f.transfers_key, &Some(ledger(&f, 100, 0)));
    assert_eq!(r.err(), Some(VaultError::ArithmeticOverflow));
}

#[test]
fn withdraw_requires_signature() {
    let f = fixture();
    let r = withdraw(&f.program, &f.user, false, &f.vault_key, &Some(vault_with(&f, 50, 0)), &f.transfers_key, &Some(ledger(&f, 50, 0)));
    assert_eq!(r.err(), Some(VaultError::MissingRequiredSignature));
}

#[test]
fn integrity_faults_are_distinguished() {
    assert!(VaultError::ArithmeticOverflow.is_integrity_fault());
    assert!(VaultError::InvalidWithdrawAmount.is_integrity_fault());
    assert!(!VaultError::InvalidPDA.is_integrity_fault());
    assert!(!VaultError::MissingRequiredSignature.is_integrity_fault());
    assert!(!VaultError::UninitializedAccount.is_integrity_fault());
    assert!(!VaultError::AccountAlreadyInitialized.is_integrity_fault());
    assert!(!VaultError::InvalidInstructionData.is_integrity_fault());
}

#[test]
fn totals_stay_ordered_over_a_sequence() {
    let f = fixture();
    let mut vault = initialized_vault(&f);
    let mut transfers: Option<UserTransfers> = None;
    let amounts = [500u64, 0, 73, 1_000_000];
    for (i, amount) in amounts.iter().enumerate() {
        let d = deposit(&f.program, &f.user, true, &f.vault_key, &Some(vault), &f.transfers_key, &transfers, *amount).unwrap();
        assert!(d.vault.withdrawn_amount <= d.vault.deposited_amount);
        assert!(d.transfers.withdrawn_amount <= d.transfers.deposited_amount);
        assert_eq!(d.vault.deposited_amount, d.transfers.deposited_amount);
        let mut v = d.vault;
        let mut t = d.transfers;
        for _ in 0..=i {
            let w = withdraw(&f.program, &f.user, true, &f.vault_key, &Some(v), &f.transfers_key, &Some(t)).unwrap();
            assert!(w.vault.withdrawn_amount <= w.vault.deposited_amount);
            assert!(w.transfers.withdrawn_amount <= w.transfers.deposited_amount);
            assert_eq!(w.vault.withdrawn_amount, w.transfers.withdrawn_amount);
            v = w.vault;
            t = w.transfers;
        }
        vault = v;
        transfers = Some(t);
    }
    let t = transfers.unwrap();
    assert_eq!(vault.deposited_amount, 1_000_573);
    assert_eq!(t.deposited_amount, 1_000_573);
}

#[test]
fn deposit_creates_ledger_that_is_not_initialized() {
    let f = fixture();
    let v = initialized_vault(&f);
    let mut stale = ledger(&f, 0, 0);
    stale.initialized = false;
    let out = deposit(&f.program, &f.user, true, &f.vault_key, &Some(v), &f.transfers_key, &Some(stale), 30).unwrap();
    let create = out.create.expect("uninitialized ledger must be created");
    assert_eq!(create.address.bytes, f.transfers_key.bytes);
    assert_eq!(create.space, 94);
    assert_eq!(create.bump, f.transfers_bump);
    assert!(out.transfers.initialized);
    assert_eq!(out.transfers.deposited_amount, 30);
    assert_eq!(out.vault.deposited_amount, 30);
}
