use std::collections::HashMap;

use solana_program::pubkey::Pubkey;
use timelock_escrow::error::{ErrorKind, EscrowError};
use timelock_escrow::instruction::TransferInstruction;
use timelock_escrow::processor::{
    lock_expired, AccountInput, Action, AuthoritySeeds, Processor, LOCK_DELAY, NATIVE_TAG,
    TOKEN_TAG,
};
use timelock_escrow::state::{
    Escrow, InitTokenInput, TransferInput, TransferToken, WithdrawInput, WithdrawTokenInput,
    ESCROW_LEN, TOKEN_ESCROW_LEN,
};

const PROGRAM: [u8; 32] = [100; 32];
const SYSTEM: [u8; 32] = [0; 32];
const ESCROW: [u8; 32] = [10; 32];
const SENDER: [u8; 32] = [1; 32];
const RECEIVER: [u8; 32] = [2; 32];
const VAULT: [u8; 32] = [3; 32];
const MINT: [u8; 32] = [7; 32];
const OTHER_MINT: [u8; 32] = [8; 32];
const SENDER_TOKENS: [u8; 32] = [11; 32];
const VAULT_TOKENS: [u8; 32] = [12; 32];
const RECEIVER_TOKENS: [u8; 32] = [13; 32];
const RENT: [u8; 32] = [14; 32];
const ATA: [u8; 32] = [15; 32];

fn account(key: [u8; 32], owner: [u8; 32], is_signer: bool, data: Vec<u8>) -> AccountInput {
    AccountInput { key, owner, is_signer, data }
}

fn token_program() -> [u8; 32] {
    spl_token::id().to_bytes()
}

fn bump_of(tag: u8, sender: &[u8; 32]) -> u8 {
    Pubkey::find_program_address(&[&[tag], &sender[..]], &Pubkey::new_from_array(PROGRAM)).1
}

fn run(accounts: &[AccountInput], ins: TransferInstruction, now: u64) -> Result<Vec<Action>, EscrowError> {
    Processor::process(&PROGRAM, accounts, &ins.pack(), now, LOCK_DELAY)
}

/// Moves native value the way the ledger would for each `Transfer` of a plan.
fn apply_transfers(balances: &mut HashMap<[u8; 32], u64>, plan: &[Action]) {
    for action in plan {
        if let Action::Transfer { from, to, lamports, .. } = action {
            let f = balances.entry(*from).or_insert(0);
            *f = f.checked_sub(*lamports).expect("insufficient funds");
            *balances.entry(*to).or_insert(0) += *lamports;
        }
    }
}

fn native_create_accounts(sender_signs: bool) -> Vec<AccountInput> {
    vec![
        account(ESCROW, SYSTEM, false, vec![]),
        account(SENDER, SYSTEM, sender_signs, vec![]),
        account(RECEIVER, SYSTEM, false, vec![]),
        account(SYSTEM, SYSTEM, false, vec![]),
        account(VAULT, SYSTEM, false, vec![]),
    ]
}

fn scenario_record() -> Escrow {
    Escrow {
        is_initialized: true,
        start_time: 1000,
        receiver: RECEIVER,
        amount_to_send: 5_000_000,
        sender: SENDER,
    }
}

fn native_withdraw_accounts(record: &Escrow, receiver: [u8; 32], receiver_signs: bool) -> Vec<AccountInput> {
    vec![
        account(ESCROW, PROGRAM, false, record.pack()),
        account(SENDER, SYSTEM, false, vec![]),
        account(receiver, SYSTEM, receiver_signs, vec![]),
        account(SYSTEM, SYSTEM, false, vec![]),
        account(VAULT, SYSTEM, false, vec![]),
    ]
}

fn withdraw(amount: u64) -> TransferInstruction {
    TransferInstruction::Withdraw(WithdrawInput { amount })
}

#[test]
fn scenario_a_create_transfer() {
    let accounts = native_create_accounts(true);
    let ins = TransferInstruction::CreateTranfer(TransferInput {
        start_time: 1000,
        amount_to_send: 5_000_000,
    });
    let plan = run(&accounts, ins, 0).unwrap();
    let signer = AuthoritySeeds { tag: NATIVE_TAG, sender: SENDER, bump: bump_of(NATIVE_TAG, &SENDER) };
    assert_eq!(
        plan,
        vec![
            Action::CreateAccount {
                payer: SENDER,
                account: ESCROW,
                space: ESCROW_LEN as u64,
                owner: PROGRAM,
                signer,
            },
            Action::WriteEscrow { account: ESCROW, record: scenario_record() },
            Action::Transfer { from: SENDER, to: VAULT, lamports: 5_000_000, signer },
        ]
    );
    let mut balances = HashMap::new();
    balances.insert(SENDER, 9_000_000u64);
    balances.insert(VAULT, 100u64);
    apply_transfers(&mut balances, &plan);
    assert_eq!(balances[&VAULT], 5_000_100);
    assert_eq!(balances[&SENDER], 4_000_000);
}

#[test]
fn create_transfer_without_sender_signature() {
    let accounts = native_create_accounts(false);
    let ins = TransferInstruction::CreateTranfer(TransferInput {
        start_time: 1000,
        amount_to_send: 5_000_000,
    });
    let r = run(&accounts, ins, 0);
    assert_eq!(r, Err(EscrowError::MissingRequiredSignature));
    assert_eq!(EscrowError::MissingRequiredSignature.kind(), ErrorKind::Auth);
}

#[test]
fn create_transfer_with_too_few_accounts() {
    let mut accounts = native_create_accounts(true);
    accounts.pop();
    let ins = TransferInstruction::CreateTranfer(TransferInput { start_time: 1, amount_to_send: 1 });
    assert_eq!(run(&accounts, ins, 0), Err(EscrowError::NotEnoughAccountKeys));
}

#[test]
fn malformed_instruction_is_refused_before_accounts_are_read() {
    let accounts = native_create_accounts(true);
    assert_eq!(
        Processor::process(&PROGRAM, &accounts, &[9, 0, 0], 0, LOCK_DELAY),
        Err(EscrowError::InvalidInstruction)
    );
    assert_eq!(
        Processor::process(&PROGRAM, &accounts, &[], 0, LOCK_DELAY),
        Err(EscrowError::InvalidInstruction)
    );
}

#[test]
fn scenario_b_withdraw_after_lock() {
    let record = scenario_record();
    let accounts = native_withdraw_accounts(&record, RECEIVER, true);
    let plan = run(&accounts, withdraw(5_000_000), 1002).unwrap();
    let signer = AuthoritySeeds { tag: NATIVE_TAG, sender: SENDER, bump: bump_of(NATIVE_TAG, &SENDER) };
    assert_eq!(
        plan,
        vec![Action::Transfer { from: VAULT, to: RECEIVER, lamports: 5_000_000, signer }]
    );
    let mut balances = HashMap::new();
    balances.insert(VAULT, 5_000_000u64);
    balances.insert(RECEIVER, 10u64);
    apply_transfers(&mut balances, &plan);
    assert_eq!(balances[&VAULT], 0);
    assert_eq!(balances[&RECEIVER], 5_000_010);
}

#[test]
fn scenario_c_second_withdraw_still_succeeds() {
    let record = scenario_record();
    let accounts = native_withdraw_accounts(&record, RECEIVER, true);
    let mut balances = HashMap::new();
    balances.insert(VAULT, 12_000_000u64);
    let first = run(&accounts, withdraw(5_000_000), 1002).unwrap();
    apply_transfers(&mut balances, &first);
    // The record is left as it was: nothing marks it spent.
    let second = run(&accounts, withdraw(5_000_000), 1002).unwrap();
    assert_eq!(first, second);
    apply_transfers(&mut balances, &second);
    assert_eq!(balances[&VAULT], 2_000_000);
    assert_eq!(balances[&RECEIVER], 10_000_000);
}

#[test]
fn withdraw_before_unlock_fails() {
    let record = scenario_record();
    let accounts = native_withdraw_accounts(&record, RECEIVER, true);
    assert_eq!(
        run(&accounts, withdraw(5_000_000), 1001),
        Err(EscrowError::WithdrawTimeLimitNotExceed)
    );
    assert_eq!(run(&accounts, withdraw(1), 0), Err(EscrowError::WithdrawTimeLimitNotExceed));
    assert_eq!(EscrowError::WithdrawTimeLimitNotExceed.kind(), ErrorKind::Timing);
}

#[test]
fn withdraw_by_other_signing_receiver_fails() {
    let record = scenario_record();
    let accounts = native_withdraw_accounts(&record, [9; 32], true);
    assert_eq!(run(&accounts, withdraw(5_000_000), 5000), Err(EscrowError::ReceiverMismatch));
    assert_eq!(EscrowError::ReceiverMismatch.kind(), ErrorKind::Ownership);
}

#[test]
fn withdraw_without_receiver_signature_fails() {
    let record = scenario_record();
    let accounts = native_withdraw_accounts(&record, RECEIVER, false);
    assert_eq!(
        run(&accounts, withdraw(5_000_000), 5000),
        Err(EscrowError::MissingRequiredSignature)
    );
}

#[test]
fn withdraw_checks_the_escrow_account() {
    let record = scenario_record();
    let mut accounts = native_withdraw_accounts(&record, RECEIVER, true);
    accounts[0].owner = SYSTEM;
    assert_eq!(run(&accounts, withdraw(1), 5000), Err(EscrowError::IllegalEscrowOwner));
    accounts[0].owner = PROGRAM;
    accounts[0].data = vec![];
    assert_eq!(run(&accounts, withdraw(1), 5000), Err(EscrowError::InvalidAccountData));
    accounts[0].data = vec![0u8; ESCROW_LEN];
    assert_eq!(run(&accounts, withdraw(1), 5000), Err(EscrowError::UninitializedAccount));
}

#[test]
fn lock_expiry_edges() {
    assert!(lock_expired(1000, 2, 1002));
    assert!(!lock_expired(1000, 2, 1001));
    assert!(!lock_expired(u64::MAX, 2, u64::MAX));
    assert!(lock_expired(u64::MAX, 0, u64::MAX));
    assert!(!lock_expired(5, 0, 4));
}

fn token_create_accounts(token: [u8; 32], sender_signs: bool) -> Vec<AccountInput> {
    vec![
        account(ESCROW, SYSTEM, false, vec![]),
        account(SENDER, SYSTEM, sender_signs, vec![]),
        account(RECEIVER, SYSTEM, false, vec![]),
        account(SYSTEM, SYSTEM, false, vec![]),
        account(MINT, token, false, vec![]),
        account(token, SYSTEM, false, vec![]),
        account(SENDER_TOKENS, token, false, vec![]),
        account(VAULT_TOKENS, token, false, vec![]),
        account(RENT, SYSTEM, false, vec![]),
        account(ATA, SYSTEM, false, vec![]),
        account(VAULT, SYSTEM, false, vec![]),
    ]
}

fn token_record() -> TransferToken {
    TransferToken { start_time: 1000, amount: 250, token_mint: MINT, sender: SENDER, receiver: RECEIVER }
}

fn token_withdraw_accounts(mint: [u8; 32], receiver_signs: bool) -> Vec<AccountInput> {
    let token = token_program();
    vec![
        account(ESCROW, PROGRAM, false, token_record().pack()),
        account(SENDER, SYSTEM, false, vec![]),
        account(VAULT, SYSTEM, false, vec![]),
        account(RECEIVER, SYSTEM, receiver_signs, vec![]),
        account(SYSTEM, SYSTEM, false, vec![]),
        account(mint, token, false, vec![]),
        account(token, SYSTEM, false, vec![]),
        account(VAULT_TOKENS, token, false, vec![]),
        account(RECEIVER_TOKENS, token, false, vec![]),
        account(RENT, SYSTEM, false, vec![]),
        account(ATA, SYSTEM, false, vec![]),
    ]
}

fn withdraw_token(amount: u64) -> TransferInstruction {
    TransferInstruction::WithdrawToken(WithdrawTokenInput { amount })
}

#[test]
fn create_token_transfer_plan() {
    let token = token_program();
    let accounts = token_create_accounts(token, true);
    let ins = TransferInstruction::TransferToken(InitTokenInput { start_time: 1000, amount: 250 });
    let plan = run(&accounts, ins, 0).unwrap();
    let signer = AuthoritySeeds { tag: TOKEN_TAG, sender: SENDER, bump: bump_of(TOKEN_TAG, &SENDER) };
    assert_eq!(
        plan,
        vec![
            Action::CreateAccount {
                payer: SENDER,
                account: ESCROW,
                space: TOKEN_ESCROW_LEN as u64,
                owner: PROGRAM,
                signer,
            },
            Action::WriteTokenEscrow { account: ESCROW, token_record: token_record() },
            Action::CreateAssociatedAccount { funder: SENDER, wallet: VAULT, mint: MINT },
            Action::TokenTransfer {
                token_program: token,
                source: SENDER_TOKENS,
                destination: VAULT_TOKENS,
                authority: SENDER,
                amount: 250,
                signed_by: None,
            },
        ]
    );
}

#[test]
fn native_and_token_authorities_differ() {
    assert_ne!(
        Pubkey::find_program_address(&[&[NATIVE_TAG], &SENDER[..]], &Pubkey::new_from_array(PROGRAM)).0,
        Pubkey::find_program_address(&[&[TOKEN_TAG], &SENDER[..]], &Pubkey::new_from_array(PROGRAM)).0
    );
}

#[test]
fn create_token_transfer_checks_token_program_then_signer() {
    let ins = TransferInstruction::TransferToken(InitTokenInput { start_time: 1, amount: 1 });
    let wrong = token_create_accounts([42; 32], true);
    assert_eq!(run(&wrong, ins, 0), Err(EscrowError::IncorrectProgramId));
    let unsigned = token_create_accounts(token_program(), false);
    assert_eq!(run(&unsigned, ins, 0), Err(EscrowError::MissingRequiredSignature));
}

#[test]
fn withdraw_token_after_lock() {
    let accounts = token_withdraw_accounts(MINT, true);
    let plan = run(&accounts, withdraw_token(250), 1002).unwrap();
    let signer = AuthoritySeeds { tag: TOKEN_TAG, sender: SENDER, bump: bump_of(TOKEN_TAG, &SENDER) };
    assert_eq!(
        plan,
        vec![
            Action::CreateAssociatedAccount { funder: RECEIVER, wallet: RECEIVER, mint: MINT },
            Action::TokenTransfer {
                token_program: token_program(),
                source: VAULT_TOKENS,
                destination: RECEIVER_TOKENS,
                authority: VAULT,
                amount: 250,
                signed_by: Some(signer),
            },
        ]
    );
}

#[test]
fn scenario_d_withdraw_token_with_other_mint() {
    let accounts = token_withdraw_accounts(OTHER_MINT, true);
    let r = run(&accounts, withdraw_token(250), 5000);
    assert_eq!(r, Err(EscrowError::MintMismatch));
    assert_eq!(EscrowError::MintMismatch.kind(), ErrorKind::Ownership);
}

#[test]
fn withdraw_token_refusals() {
    let early = token_withdraw_accounts(MINT, true);
    assert_eq!(run(&early, withdraw_token(1), 1001), Err(EscrowError::WithdrawTimeLimitNotExceed));
    let unsigned = token_withdraw_accounts(MINT, false);
    assert_eq!(run(&unsigned, withdraw_token(1), 5000), Err(EscrowError::MissingRequiredSignature));
    let mut other = token_withdraw_accounts(MINT, true);
    other[3].key = [9; 32];
    assert_eq!(run(&other, withdraw_token(1), 5000), Err(EscrowError::ReceiverMismatch));
    let mut foreign = token_withdraw_accounts(MINT, true);
    foreign[0].owner = SYSTEM;
    assert_eq!(run(&foreign, withdraw_token(1), 5000), Err(EscrowError::IllegalEscrowOwner));
    let mut empty = token_withdraw_accounts(MINT, true);
    empty[0].data = vec![];
    assert_eq!(run(&empty, withdraw_token(1), 5000), Err(EscrowError::UninitializedAccount));
    let mut short = token_withdraw_accounts(MINT, true);
    short[0].data = vec![1u8; 50];
    assert_eq!(run(&short, withdraw_token(1), 5000), Err(EscrowError::InvalidAccountData));
    let mut wrong_service = token_withdraw_accounts(MINT, true);
    wrong_service[6].key = [42; 32];
    assert_eq!(run(&wrong_service, withdraw_token(1), 5000), Err(EscrowError::IncorrectProgramId));
    let mut few = token_withdraw_accounts(MINT, true);
    few.truncate(10);
    assert_eq!(run(&few, withdraw_token(1), 5000), Err(EscrowError::NotEnoughAccountKeys));
}
