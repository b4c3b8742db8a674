use vstd::prelude::*;
use crate::bytes::{u64_from_le, u64_to_le, read_u64_le, push_u64_le, lemma_u64_le_round_trip};
use crate::error::EscrowError;
use crate::state::{TransferInput, WithdrawInput, InitTokenInput, WithdrawTokenInput};

verus! {

/// The four commands. On the wire: a tag byte, then little-endian `u64` fields.
#[derive(Clone, Copy, Debug, PartialEq, Eq, Structural)]
pub enum TransferInstruction {
    /// Tag 0: lock native value for a receiver.
    ///
    /// Accounts: escrow (writable), sender (signer), receiver, ledger service, vault.
    CreateTranfer(TransferInput),
    /// Tag 1: the receiver takes native value out of the vault.
    ///
    /// Accounts: escrow, sender, receiver (signer), ledger service, vault.
    Withdraw(WithdrawInput),
    /// Tag 2: lock token units for a receiver.
    ///
    /// Accounts: escrow, sender (signer), receiver, ledger service, token mint,
    /// token service, sender token account, vault token account, rent info,
    /// associated-account service, vault.
    TransferToken(InitTokenInput),
    /// Tag 3: the receiver takes token units out of the vault.
    ///
    /// Accounts: escrow, sender, vault, receiver (signer), ledger service, token
    /// mint, token service, vault token account, receiver token account, rent
    /// info, associated-account service.
    WithdrawToken(WithdrawTokenInput),
}

/// Number of payload bytes that follow a known tag.
pub open spec fn payload_len(tag: u8) -> int {
    if tag == 0 || tag == 2 {
        16
    } else {
        8
    }
}

/// Whether `s` starts with a known tag followed by its whole payload.
pub open spec fn decodable(s: Seq<u8>) -> bool {
    s.len() >= 1 && s[0] <= 3 && s.len() >= 1 + payload_len(s[0])
}

/// The command that a decodable buffer holds; bytes past the payload are ignored.
pub open spec fn decoded(s: Seq<u8>) -> TransferInstruction {
    let first = u64_from_le(s.subrange(1, 9));
    if s[0] == 0 {
        TransferInstruction::CreateTranfer(
            TransferInput { start_time: first, amount_to_send: u64_from_le(s.subrange(9, 17)) },
        )
    } else if s[0] == 1 {
        TransferInstruction::Withdraw(WithdrawInput { amount: first })
    } else if s[0] == 2 {
        TransferInstruction::TransferToken(
            InitTokenInput { start_time: first, amount: u64_from_le(s.subrange(9, 17)) },
        )
    } else {
        TransferInstruction::WithdrawToken(WithdrawTokenInput { amount: first })
    }
}

/// The wire bytes of a command.
pub open spec fn instruction_bytes(i: TransferInstruction) -> Seq<u8> {
    match i {
        TransferInstruction::CreateTranfer(t) => seq![0u8] + u64_to_le(t.start_time) + u64_to_le(
            t.amount_to_send,
        ),
        TransferInstruction::Withdraw(w) => seq![1u8] + u64_to_le(w.amount),
        TransferInstruction::TransferToken(t) => seq![2u8] + u64_to_le(t.start_time) + u64_to_le(
            t.amount,
        ),
        TransferInstruction::WithdrawToken(w) => seq![3u8] + u64_to_le(w.amount),
    }
}

/// Encoding a command and decoding the bytes, with anything appended, gives
/// back the same command with the same fields.
pub proof fn lemma_instruction_round_trip(i: TransferInstruction, extra: Seq<u8>)
    ensures
        decodable(instruction_bytes(i) + extra),
        decoded(instruction_bytes(i) + extra) == i,
{
    let s = instruction_bytes(i) + extra;
    match i {
        TransferInstruction::CreateTranfer(t) => {
            lemma_u64_le_round_trip(t.start_time);
            lemma_u64_le_round_trip(t.amount_to_send);
            assert(s.subrange(1, 9) =~= u64_to_le(t.start_time));
            assert(s.subrange(9, 17) =~= u64_to_le(t.amount_to_send));
        },
        TransferInstruction::Withdraw(w) => {
            lemma_u64_le_round_trip(w.amount);
            assert(s.subrange(1, 9) =~= u64_to_le(w.amount));
        },
        TransferInstruction::TransferToken(t) => {
            lemma_u64_le_round_trip(t.start_time);
            lemma_u64_le_round_trip(t.amount);
            assert(s.subrange(1, 9) =~= u64_to_le(t.start_time));
            assert(s.subrange(9, 17) =~= u64_to_le(t.amount));
        },
        TransferInstruction::WithdrawToken(w) => {
            lemma_u64_le_round_trip(w.amount);
            assert(s.subrange(1, 9) =~= u64_to_le(w.amount));
        },
    }
}

impl TransferInstruction {
    /// Decodes a command; fails on an empty buffer, an unknown tag or a short payload.
    pub fn unpack(instruction_data: &[u8]) -> (r: Result<TransferInstruction, EscrowError>)
        ensures
            match r {
                Ok(i) => decodable(instruction_data@) && i == decoded(instruction_data@),
                Err(e) => !decodable(instruction_data@) && e == EscrowError::InvalidInstruction,
            },
    {
        let n: usize = instruction_data.len();
        if n == 0 {
            return Err(EscrowError::InvalidInstruction);
        }
        let tag = instruction_data[0];
        if tag > 3 {
            return Err(EscrowError::InvalidInstruction);
        }
        if n < 9 {
            return Err(EscrowError::InvalidInstruction);
        }
        let first = read_u64_le(instruction_data, 1);
        if tag == 1 {
            return Ok(TransferInstruction::Withdraw(WithdrawInput { amount: first }));
        }
        if tag == 3 {
            return Ok(TransferInstruction::WithdrawToken(WithdrawTokenInput { amount: first }));
        }
        if n < 17 {
            return Err(EscrowError::InvalidInstruction);
        }
        let second = read_u64_le(instruction_data, 9);
        if tag == 0 {
            Ok(TransferInstruction::CreateTranfer(
                TransferInput { start_time: first, amount_to_send: second },
            ))
        } else {
            Ok(TransferInstruction::TransferToken(InitTokenInput { start_time: first, amount: second }))
        }
    }

    /// The wire bytes of this command.
    pub fn pack(&self) -> (r: Vec<u8>)
        ensures
            r@ == instruction_bytes(*self),
    {
        let mut out: Vec<u8> = Vec::new();
        match self {
            TransferInstruction::CreateTranfer(t) => {
                out.push(0u8);
                push_u64_le(&mut out, t.start_time);
                push_u64_le(&mut out, t.amount_to_send);
            },
            TransferInstruction::Withdraw(w) => {
                out.push(1u8);
                push_u64_le(&mut out, w.amount);
            },
            TransferInstruction::TransferToken(t) => {
                out.push(2u8);
                push_u64_le(&mut out, t.start_time);
                push_u64_le(&mut out, t.amount);
            },
            TransferInstruction::WithdrawToken(w) => {
                out.push(3u8);
                push_u64_le(&mut out, w.amount);
            },
        }
        out
    }
}

} // verus!
