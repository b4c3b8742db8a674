use vstd::prelude::*;
use crate::authority::{find_authority, program_address, token_program_address, token_program_id};
use crate::bytes::{Address, same_address};
use crate::error::{EscrowError, ErrorKind, kind_of};
use crate::instruction::{TransferInstruction, decodable, decoded};
use crate::state::{
    Escrow, TransferToken, TransferInput, WithdrawInput, InitTokenInput, WithdrawTokenInput,
    ESCROW_LEN, TOKEN_ESCROW_LEN, stored_escrow, stored_token_escrow,
};

verus! {

/// Domain tag of the custody address for native-value escrows.
pub const NATIVE_TAG: u8 = 0;

/// Domain tag of the custody address for token escrows.
pub const TOKEN_TAG: u8 = 1;

/// The lock delay this program is deployed with, in clock units.
pub const LOCK_DELAY: u64 = 2;

/// What the processor sees of one account handed to it.
#[derive(Debug, PartialEq, Eq)]
pub struct AccountInput {
    pub key: Address,
    pub owner: Address,
    pub is_signer: bool,
    pub data: Vec<u8>,
}

/// The seeds with which the program signs for the custody address of `sender`
/// in the domain `tag`: `[tag]`, `sender`, `[bump]`.
#[derive(Clone, Copy, Debug, PartialEq, Eq)]
pub struct AuthoritySeeds {
    pub tag: u8,
    pub sender: Address,
    pub bump: u8,
}

/// One request to the ledger or token service. A plan runs its actions in
/// order, inside one transaction: if any fails, none has effect.
#[derive(Clone, Copy, Debug, PartialEq, Eq)]
pub enum Action {
    /// Allocate `space` bytes at `account`, owned by `owner`, funded by `payer`
    /// to the rent-exempt minimum, signed for with `signer`.
    CreateAccount { payer: Address, account: Address, space: u64, owner: Address, signer: AuthoritySeeds },
    /// Store a native record in `account`.
    WriteEscrow { account: Address, record: Escrow },
    /// Store a token record in `account`.
    WriteTokenEscrow { account: Address, token_record: TransferToken },
    /// Move native value, signed for with `signer`.
    Transfer { from: Address, to: Address, lamports: u64, signer: AuthoritySeeds },
    /// Create the associated token account of `wallet` for `mint` if it is absent.
    CreateAssociatedAccount { funder: Address, wallet: Address, mint: Address },
    /// Move token units; `signed_by` is set where the program signs for `authority`.
    TokenTransfer {
        token_program: Address,
        source: Address,
        destination: Address,
        authority: Address,
        amount: u64,
        signed_by: Option<AuthoritySeeds>,
    },
}

/// The plan a call returned, as a sequence.
pub open spec fn planned(r: Result<Vec<Action>, EscrowError>) -> Result<Seq<Action>, EscrowError> {
    match r {
        Ok(v) => Ok(v@),
        Err(e) => Err(e),
    }
}

/// Whether the lock that started at `start_time` has run out at `now`.
pub open spec fn unlocked(start_time: u64, lock_delay: u64, now: u64) -> bool {
    now >= start_time + lock_delay
}

/// What CreateTransfer does with these accounts.
pub open spec fn create_transfer_outcome(
    program_id: Address,
    accounts: Seq<AccountInput>,
    start_time: u64,
    amount: u64,
) -> Result<Seq<Action>, EscrowError> {
    if accounts.len() < 5 {
        Err(EscrowError::NotEnoughAccountKeys)
    } else if !accounts[1].is_signer {
        Err(EscrowError::MissingRequiredSignature)
    } else {
        let escrow = accounts[0].key;
        let sender = accounts[1].key;
        match program_address(NATIVE_TAG, sender@, program_id@) {
            None => Err(EscrowError::NoViableAuthority),
            Some(found) => {
                let signer = AuthoritySeeds { tag: NATIVE_TAG, sender, bump: found.1 };
                let record = Escrow {
                    is_initialized: true,
                    start_time,
                    receiver: accounts[2].key,
                    amount_to_send: amount,
                    sender,
                };
                Ok(
                    seq![
                        Action::CreateAccount { payer: sender, account: escrow, space: ESCROW_LEN as u64, owner: program_id, signer },
                        Action::WriteEscrow { account: escrow, record },
                        Action::Transfer { from: sender, to: accounts[4].key, lamports: amount, signer },
                    ],
                )
            },
        }
    }
}

/// What Withdraw does with these accounts at clock `now`.
pub open spec fn withdraw_outcome(
    program_id: Address,
    accounts: Seq<AccountInput>,
    amount: u64,
    now: u64,
    lock_delay: u64,
) -> Result<Seq<Action>, EscrowError> {
    if accounts.len() < 5 {
        Err(EscrowError::NotEnoughAccountKeys)
    } else if accounts[0].owner != program_id {
        Err(EscrowError::IllegalEscrowOwner)
    } else {
        match stored_escrow(accounts[0].data@) {
            None => Err(EscrowError::InvalidAccountData),
            Some(record) => {
                let receiver = accounts[2];
                if !record.is_initialized {
                    Err(EscrowError::UninitializedAccount)
                } else if receiver.key != record.receiver {
                    Err(EscrowError::ReceiverMismatch)
                } else if !receiver.is_signer {
                    Err(EscrowError::MissingRequiredSignature)
                } else if !unlocked(record.start_time, lock_delay, now) {
                    Err(EscrowError::WithdrawTimeLimitNotExceed)
                } else {
                    match program_address(NATIVE_TAG, record.sender@, program_id@) {
                        None => Err(EscrowError::NoViableAuthority),
                        Some(found) => Ok(
                            seq![
                                Action::Transfer {
                                    from: accounts[4].key,
                                    to: receiver.key,
                                    lamports: amount,
                                    signer: AuthoritySeeds { tag: NATIVE_TAG, sender: record.sender, bump: found.1 },
                                },
                            ],
                        ),
                    }
                }
            },
        }
    }
}

/// What CreateTokenTransfer does with these accounts.
pub open spec fn create_token_transfer_outcome(
    program_id: Address,
    accounts: Seq<AccountInput>,
    start_time: u64,
    amount: u64,
) -> Result<Seq<Action>, EscrowError> {
    if accounts.len() < 11 {
        Err(EscrowError::NotEnoughAccountKeys)
    } else if accounts[5].key@ != token_program_address() {
        Err(EscrowError::IncorrectProgramId)
    } else if !accounts[1].is_signer {
        Err(EscrowError::MissingRequiredSignature)
    } else {
        let escrow = accounts[0].key;
        let sender = accounts[1].key;
        let mint = accounts[4].key;
        match program_address(TOKEN_TAG, sender@, program_id@) {
            None => Err(EscrowError::NoViableAuthority),
            Some(found) => {
                let signer = AuthoritySeeds { tag: TOKEN_TAG, sender, bump: found.1 };
                let record = TransferToken {
                    start_time,
                    amount,
                    token_mint: mint,
                    sender,
                    receiver: accounts[2].key,
                };
                Ok(
                    seq![
                        Action::CreateAccount { payer: sender, account: escrow, space: TOKEN_ESCROW_LEN as u64, owner: program_id, signer },
                        Action::WriteTokenEscrow { account: escrow, token_record: record },
                        Action::CreateAssociatedAccount { funder: sender, wallet: accounts[10].key, mint },
                        Action::TokenTransfer {
                            token_program: accounts[5].key,
                            source: accounts[6].key,
                            destination: accounts[7].key,
                            authority: sender,
                            amount,
                            signed_by: None,
                        },
                    ],
                )
            },
        }
    }
}

/// What WithdrawToken does with these accounts at clock `now`.
pub open spec fn withdraw_token_outcome(
    program_id: Address,
    accounts: Seq<AccountInput>,
    amount: u64,
    now: u64,
    lock_delay: u64,
) -> Result<Seq<Action>, EscrowError> {
    if accounts.len() < 11 {
        Err(EscrowError::NotEnoughAccountKeys)
    } else if accounts[0].owner != program_id {
        Err(EscrowError::IllegalEscrowOwner)
    } else if accounts[0].data@.len() == 0 {
        Err(EscrowError::UninitializedAccount)
    } else if accounts[6].key@ != token_program_address() {
        Err(EscrowError::IncorrectProgramId)
    } else {
        match stored_token_escrow(accounts[0].data@) {
            None => Err(EscrowError::InvalidAccountData),
            Some(record) => {
                let receiver = accounts[3];
                let mint = accounts[5].key;
                if record.token_mint != mint {
                    Err(EscrowError::MintMismatch)
                } else if receiver.key != record.receiver {
                    Err(EscrowError::ReceiverMismatch)
                } else if !receiver.is_signer {
                    Err(EscrowError::MissingRequiredSignature)
                } else if !unlocked(record.start_time, lock_delay, now) {
                    Err(EscrowError::WithdrawTimeLimitNotExceed)
                } else {
                    match program_address(TOKEN_TAG, record.sender@, program_id@) {
                        None => Err(EscrowError::NoViableAuthority),
                        Some(found) => Ok(
                            seq![
                                Action::CreateAssociatedAccount { funder: receiver.key, wallet: receiver.key, mint },
                                Action::TokenTransfer {
                                    token_program: accounts[6].key,
                                    source: accounts[7].key,
                                    destination: accounts[8].key,
                                    authority: accounts[2].key,
                                    amount,
                                    signed_by: Some(AuthoritySeeds { tag: TOKEN_TAG, sender: record.sender, bump: found.1 }),
                                },
                            ],
                        ),
                    }
                }
            },
        }
    }
}

/// What a call with these instruction bytes does.
pub open spec fn process_outcome(
    program_id: Address,
    accounts: Seq<AccountInput>,
    data: Seq<u8>,
    now: u64,
    lock_delay: u64,
) -> Result<Seq<Action>, EscrowError> {
    if !decodable(data) {
        Err(EscrowError::InvalidInstruction)
    } else {
        match decoded(data) {
            TransferInstruction::CreateTranfer(t) => create_transfer_outcome(
                program_id,
                accounts,
                t.start_time,
                t.amount_to_send,
            ),
            TransferInstruction::Withdraw(w) => withdraw_outcome(
                program_id,
                accounts,
                w.amount,
                now,
                lock_delay,
            ),
            TransferInstruction::TransferToken(t) => create_token_transfer_outcome(
                program_id,
                accounts,
                t.start_time,
                t.amount,
            ),
            TransferInstruction::WithdrawToken(w) => withdraw_token_outcome(
                program_id,
                accounts,
                w.amount,
                now,
                lock_delay,
            ),
        }
    }
}

/// A CreateTransfer whose sender did not sign is refused for want of a
/// signature: no plan comes back, so no record is created and no value moves.
pub proof fn lemma_create_transfer_needs_sender_signature(
    program_id: Address,
    accounts: Seq<AccountInput>,
    data: Seq<u8>,
    now: u64,
    lock_delay: u64,
)
    requires
        decodable(data),
        decoded(data) is CreateTranfer,
        accounts.len() >= 5,
        !accounts[1].is_signer,
    ensures
        process_outcome(program_id, accounts, data, now, lock_delay) == Err::<Seq<Action>, EscrowError>(
            EscrowError::MissingRequiredSignature,
        ),
        kind_of(EscrowError::MissingRequiredSignature) == ErrorKind::Auth,
{
}

/// A Withdraw on a valid record by its receiver, signing, before
/// `start_time + lock_delay` is refused with the timing error.
pub proof fn lemma_withdraw_before_unlock_fails(
    program_id: Address,
    accounts: Seq<AccountInput>,
    data: Seq<u8>,
    now: u64,
    lock_delay: u64,
    record: Escrow,
)
    requires
        decodable(data),
        decoded(data) is Withdraw,
        accounts.len() >= 5,
        accounts[0].owner == program_id,
        stored_escrow(accounts[0].data@) == Some(record),
        record.is_initialized,
        accounts[2].key == record.receiver,
        accounts[2].is_signer,
        now < record.start_time + lock_delay,
    ensures
        process_outcome(program_id, accounts, data, now, lock_delay) == Err::<Seq<Action>, EscrowError>(
            EscrowError::WithdrawTimeLimitNotExceed,
        ),
        kind_of(EscrowError::WithdrawTimeLimitNotExceed) == ErrorKind::Timing,
{
}

/// A Withdraw on a valid record by any receiver other than the recorded one
/// is refused as an ownership error, whether or not that receiver signed.
pub proof fn lemma_withdraw_by_other_receiver_fails(
    program_id: Address,
    accounts: Seq<AccountInput>,
    data: Seq<u8>,
    now: u64,
    lock_delay: u64,
    record: Escrow,
)
    requires
        decodable(data),
        decoded(data) is Withdraw,
        accounts.len() >= 5,
        accounts[0].owner == program_id,
        stored_escrow(accounts[0].data@) == Some(record),
        record.is_initialized,
        accounts[2].key != record.receiver,
    ensures
        process_outcome(program_id, accounts, data, now, lock_delay) == Err::<Seq<Action>, EscrowError>(
            EscrowError::ReceiverMismatch,
        ),
        kind_of(EscrowError::ReceiverMismatch) == ErrorKind::Ownership,
{
}

/// A WithdrawToken on a readable token record, naming a mint other than the
/// recorded one, is refused as an ownership error before any token moves.
pub proof fn lemma_withdraw_token_with_other_mint_fails(
    program_id: Address,
    accounts: Seq<AccountInput>,
    data: Seq<u8>,
    now: u64,
    lock_delay: u64,
    record: TransferToken,
)
    requires
        decodable(data),
        decoded(data) is WithdrawToken,
        accounts.len() >= 11,
        accounts[0].owner == program_id,
        accounts[6].key@ == token_program_address(),
        stored_token_escrow(accounts[0].data@) == Some(record),
        accounts[5].key != record.token_mint,
    ensures
        process_outcome(program_id, accounts, data, now, lock_delay) == Err::<Seq<Action>, EscrowError>(
            EscrowError::MintMismatch,
        ),
        kind_of(EscrowError::MintMismatch) == ErrorKind::Ownership,
{
}

/// Whether the lock that started at `start_time` has run out at `now`.
pub fn lock_expired(start_time: u64, lock_delay: u64, now: u64) -> (r: bool)
    ensures
        r == unlocked(start_time, lock_delay, now),
{
    now >= start_time && now - start_time >= lock_delay
}

/// The stateless dispatcher: decides each command and returns what the ledger
/// has to do for it.
pub struct Processor;

impl Processor {
    /// Decodes `instruction_data` and decides the command it holds, at clock
    /// `now` and with locks of `lock_delay`.
    pub fn process(
        program_id: &Address,
        accounts: &[AccountInput],
        instruction_data: &[u8],
        now: u64,
        lock_delay: u64,
    ) -> (r: Result<Vec<Action>, EscrowError>)
        ensures
            planned(r) == process_outcome(*program_id, accounts@, instruction_data@, now, lock_delay),
    {
        let instruction = TransferInstruction::unpack(instruction_data)?;
        match instruction {
            TransferInstruction::CreateTranfer(TransferInput { start_time, amount_to_send }) => {
                Self::process_create_transfer(program_id, accounts, start_time, amount_to_send)
            },
            TransferInstruction::Withdraw(WithdrawInput { amount }) => {
                Self::process_withdraw(program_id, accounts, amount, now, lock_delay)
            },
            TransferInstruction::TransferToken(InitTokenInput { start_time, amount }) => {
                Self::process_create_token_transfer(program_id, accounts, start_time, amount)
            },
            TransferInstruction::WithdrawToken(WithdrawTokenInput { amount }) => {
                Self::process_withdraw_token(program_id, accounts, amount, now, lock_delay)
            },
        }
    }

    /// Locks `amount_to_send` of native value from the sender for the receiver,
    /// from `start_time` on.
    pub fn process_create_transfer(
        program_id: &Address,
        accounts: &[AccountInput],
        start_time: u64,
        amount_to_send: u64,
    ) -> (r: Result<Vec<Action>, EscrowError>)
        ensures
            planned(r) == create_transfer_outcome(*program_id, accounts@, start_time, amount_to_send),
    {
        if accounts.len() < 5 {
            return Err(EscrowError::NotEnoughAccountKeys);
        }
        let escrow = accounts[0].key;
        let sender = accounts[1].key;
        if !accounts[1].is_signer {
            return Err(EscrowError::MissingRequiredSignature);
        }
        match find_authority(NATIVE_TAG, &sender, program_id) {
            None => Err(EscrowError::NoViableAuthority),
            Some(found) => {
                let signer = AuthoritySeeds { tag: NATIVE_TAG, sender, bump: found.1 };
                let record = Escrow {
                    is_initialized: true,
                    start_time,
                    receiver: accounts[2].key,
                    amount_to_send,
                    sender,
                };
                let mut plan: Vec<Action> = Vec::new();
                plan.push(
                    Action::CreateAccount {
                        payer: sender,
                        account: escrow,
                        space: ESCROW_LEN as u64,
                        owner: *program_id,
                        signer,
                    },
                );
                plan.push(Action::WriteEscrow { account: escrow, record });
                plan.push(
                    Action::Transfer { from: sender, to: accounts[4].key, lamports: amount_to_send, signer },
                );
                assert(plan@ =~= create_transfer_outcome(*program_id, accounts@, start_time, amount_to_send)->Ok_0);
                Ok(plan)
            },
        }
    }

    /// Pays `amount` of native value out of the vault to the record's receiver,
    /// once the lock has run out.
    pub fn process_withdraw(
        program_id: &Address,
        accounts: &[AccountInput],
        amount: u64,
        now: u64,
        lock_delay: u64,
    ) -> (r: Result<Vec<Action>, EscrowError>)
        ensures
            planned(r) == withdraw_outcome(*program_id, accounts@, amount, now, lock_delay),
    {
        if accounts.len() < 5 {
            return Err(EscrowError::NotEnoughAccountKeys);
        }
        if !same_address(&accounts[0].owner, program_id) {
            return Err(EscrowError::IllegalEscrowOwner);
        }
        let record = Escrow::unpack_from_slice(accounts[0].data.as_slice())?;
        let receiver = &accounts[2];
        if !record.is_initialized() {
            return Err(EscrowError::UninitializedAccount);
        }
        if !same_address(&receiver.key, &record.receiver) {
            return Err(EscrowError::ReceiverMismatch);
        }
        if !receiver.is_signer {
            return Err(EscrowError::MissingRequiredSignature);
        }
        if !lock_expired(record.start_time, lock_delay, now) {
            return Err(EscrowError::WithdrawTimeLimitNotExceed);
        }
        match find_authority(NATIVE_TAG, &record.sender, program_id) {
            None => Err(EscrowError::NoViableAuthority),
            Some(found) => {
                let mut plan: Vec<Action> = Vec::new();
                plan.push(
                    Action::Transfer {
                        from: accounts[4].key,
                        to: receiver.key,
                        lamports: amount,
                        signer: AuthoritySeeds { tag: NATIVE_TAG, sender: record.sender, bump: found.1 },
                    },
                );
                assert(plan@ =~= withdraw_outcome(*program_id, accounts@, amount, now, lock_delay)->Ok_0);
                Ok(plan)
            },
        }
    }

    /// Locks `amount` token units from the sender's token account for the
    /// receiver, from `start_time` on.
    pub fn process_create_token_transfer(
        program_id: &Address,
        accounts: &[AccountInput],
        start_time: u64,
        amount: u64,
    ) -> (r: Result<Vec<Action>, EscrowError>)
        ensures
            planned(r) == create_token_transfer_outcome(*program_id, accounts@, start_time, amount),
    {
        if accounts.len() < 11 {
            return Err(EscrowError::NotEnoughAccountKeys);
        }
        let escrow = accounts[0].key;
        let sender = accounts[1].key;
        let mint = accounts[4].key;
        let token_program = token_program_id();
        if !same_address(&accounts[5].key, &token_program) {
            return Err(EscrowError::IncorrectProgramId);
        }
        if !accounts[1].is_signer {
            return Err(EscrowError::MissingRequiredSignature);
        }
        match find_authority(TOKEN_TAG, &sender, program_id) {
            None => Err(EscrowError::NoViableAuthority),
            Some(found) => {
                let signer = AuthoritySeeds { tag: TOKEN_TAG, sender, bump: found.1 };
                let record = TransferToken {
                    start_time,
                    amount,
                    token_mint: mint,
                    sender,
                    receiver: accounts[2].key,
                };
                let mut plan: Vec<Action> = Vec::new();
                plan.push(
                    Action::CreateAccount {
                        payer: sender,
                        account: escrow,
                        space: TOKEN_ESCROW_LEN as u64,
                        owner: *program_id,
                        signer,
                    },
                );
                plan.push(Action::WriteTokenEscrow { account: escrow, token_record: record });
                plan.push(
                    Action::CreateAssociatedAccount { funder: sender, wallet: accounts[10].key, mint },
                );
                plan.push(
                    Action::TokenTransfer {
                        token_program: accounts[5].key,
                        source: accounts[6].key,
                        destination: accounts[7].key,
                        authority: sender,
                        amount,
                        signed_by: None,
                    },
                );
                assert(plan@ =~= create_token_transfer_outcome(*program_id, accounts@, start_time, amount)->Ok_0);
                Ok(plan)
            },
        }
    }

    /// Pays `amount` token units out of the vault's token account to the
    /// receiver's, once the lock has run out.
    pub fn process_withdraw_token(
        program_id: &Address,
        accounts: &[AccountInput],
        amount: u64,
        now: u64,
        lock_delay: u64,
    ) -> (r: Result<Vec<Action>, EscrowError>)
        ensures
            planned(r) == withdraw_token_outcome(*program_id, accounts@, amount, now, lock_delay),
    {
        if accounts.len() < 11 {
            return Err(EscrowError::NotEnoughAccountKeys);
        }
        if !same_address(&accounts[0].owner, program_id) {
            return Err(EscrowError::IllegalEscrowOwner);
        }
        if accounts[0].data.len() == 0 {
            return Err(EscrowError::UninitializedAccount);
        }
        let token_program = token_program_id();
        if !same_address(&accounts[6].key, &token_program) {
            return Err(EscrowError::IncorrectProgramId);
        }
        let record = TransferToken::unpack_from_slice(accounts[0].data.as_slice())?;
        let receiver = &accounts[3];
        let mint = accounts[5].key;
        if !same_address(&record.token_mint, &mint) {
            return Err(EscrowError::MintMismatch);
        }
        if !same_address(&receiver.key, &record.receiver) {
            return Err(EscrowError::ReceiverMismatch);
        }
        if !receiver.is_signer {
            return Err(EscrowError::MissingRequiredSignature);
        }
        if !lock_expired(record.start_time, lock_delay, now) {
            return Err(EscrowError::WithdrawTimeLimitNotExceed);
        }
        match find_authority(TOKEN_TAG, &record.sender, program_id) {
            None => Err(EscrowError::NoViableAuthority),
            Some(found) => {
                let mut plan: Vec<Action> = Vec::new();
                plan.push(
                    Action::CreateAssociatedAccount { funder: receiver.key, wallet: receiver.key, mint },
                );
                plan.push(
                    Action::TokenTransfer {
                        token_program: accounts[6].key,
                        source: accounts[7].key,
                        destination: accounts[8].key,
                        authority: accounts[2].key,
                        amount,
                        signed_by: Some(AuthoritySeeds { tag: TOKEN_TAG, sender: record.sender, bump: found.1 }),
                    },
                );
                assert(plan@ =~= withdraw_token_outcome(*program_id, accounts@, amount, now, lock_delay)->Ok_0);
                Ok(plan)
            },
        }
    }
}

} // verus!
