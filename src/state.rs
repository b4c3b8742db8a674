use vstd::prelude::*;
use crate::bytes::{
    Address, u64_from_le, u64_to_le, read_u64_le, push_u64_le, read_address, push_address,
    lemma_u64_le_round_trip,
};
use crate::error::EscrowError;

verus! {

/// Payload of a native-value transfer: when the lock starts and how much is locked.
#[derive(Clone, Copy, Debug, PartialEq, Eq, Structural)]
pub struct TransferInput {
    pub start_time: u64,
    pub amount_to_send: u64,
}

/// Payload of a native-value withdrawal.
#[derive(Clone, Copy, Debug, PartialEq, Eq, Structural)]
pub struct WithdrawInput {
    pub amount: u64,
}

/// Payload of a token transfer: when the lock starts and how many units are locked.
#[derive(Clone, Copy, Debug, PartialEq, Eq, Structural)]
pub struct InitTokenInput {
    pub start_time: u64,
    pub amount: u64,
}

/// Payload of a token withdrawal.
#[derive(Clone, Copy, Debug, PartialEq, Eq, Structural)]
pub struct WithdrawTokenInput {
    pub amount: u64,
}

/// Stored size of a native escrow record.
pub const ESCROW_LEN: usize = 81;

/// Stored size of a token escrow record.
pub const TOKEN_ESCROW_LEN: usize = 112;

/// A native-value escrow record, stored as
/// `initialized(1) | start_time(8) | receiver(32) | amount_to_send(8) | sender(32)`.
#[derive(Clone, Copy, Debug, PartialEq, Eq)]
pub struct Escrow {
    pub is_initialized: bool,
    pub start_time: u64,
    pub receiver: Address,
    pub amount_to_send: u64,
    pub sender: Address,
}

/// A token escrow record, stored as
/// `start_time(8) | amount(8) | token_mint(32) | sender(32) | receiver(32)`.
#[derive(Clone, Copy, Debug, PartialEq, Eq)]
pub struct TransferToken {
    pub start_time: u64,
    pub amount: u64,
    pub token_mint: Address,
    pub sender: Address,
    pub receiver: Address,
}

/// The stored bytes of a native record.
pub open spec fn escrow_bytes(e: Escrow) -> Seq<u8> {
    seq![if e.is_initialized { 1u8 } else { 0u8 }] + u64_to_le(e.start_time) + e.receiver@
        + u64_to_le(e.amount_to_send) + e.sender@
}

/// Whether `s` starts with a native record: long enough, with a flag byte of 0 or 1.
pub open spec fn escrow_readable(s: Seq<u8>) -> bool {
    s.len() >= ESCROW_LEN && s[0] <= 1
}

/// `e` is what the first bytes of `s` say, field by field.
pub open spec fn escrow_read_as(s: Seq<u8>, e: Escrow) -> bool {
    &&& e.is_initialized == (s[0] == 1)
    &&& e.start_time == u64_from_le(s.subrange(1, 9))
    &&& e.receiver@ == s.subrange(9, 41)
    &&& e.amount_to_send == u64_from_le(s.subrange(41, 49))
    &&& e.sender@ == s.subrange(49, 81)
}

/// The native record that `s` holds, if it holds one.
pub open spec fn stored_escrow(s: Seq<u8>) -> Option<Escrow> {
    if escrow_readable(s) {
        Some(choose|e: Escrow| escrow_read_as(s, e))
    } else {
        None
    }
}

/// The stored bytes of a token record.
pub open spec fn token_escrow_bytes(t: TransferToken) -> Seq<u8> {
    u64_to_le(t.start_time) + u64_to_le(t.amount) + t.token_mint@ + t.sender@ + t.receiver@
}

/// `t` is what the first bytes of `s` say, field by field.
pub open spec fn token_escrow_read_as(s: Seq<u8>, t: TransferToken) -> bool {
    &&& t.start_time == u64_from_le(s.subrange(0, 8))
    &&& t.amount == u64_from_le(s.subrange(8, 16))
    &&& t.token_mint@ == s.subrange(16, 48)
    &&& t.sender@ == s.subrange(48, 80)
    &&& t.receiver@ == s.subrange(80, 112)
}

/// The token record that `s` holds, if it is long enough to hold one.
pub open spec fn stored_token_escrow(s: Seq<u8>) -> Option<TransferToken> {
    if s.len() >= TOKEN_ESCROW_LEN {
        Some(choose|t: TransferToken| token_escrow_read_as(s, t))
    } else {
        None
    }
}

proof fn lemma_escrow_read_unique(s: Seq<u8>, a: Escrow, b: Escrow)
    requires
        escrow_read_as(s, a),
        escrow_read_as(s, b),
    ensures
        a == b,
{
    assert(a.receiver =~= b.receiver);
    assert(a.sender =~= b.sender);
}

proof fn lemma_token_escrow_read_unique(s: Seq<u8>, a: TransferToken, b: TransferToken)
    requires
        token_escrow_read_as(s, a),
        token_escrow_read_as(s, b),
    ensures
        a == b,
{
    assert(a.token_mint =~= b.token_mint);
    assert(a.sender =~= b.sender);
    assert(a.receiver =~= b.receiver);
}

/// Storing a native record and reading it back gives the same record.
pub proof fn lemma_escrow_round_trip(e: Escrow)
    ensures
        escrow_bytes(e).len() == ESCROW_LEN,
        stored_escrow(escrow_bytes(e)) == Some(e),
{
    let s = escrow_bytes(e);
    lemma_u64_le_round_trip(e.start_time);
    lemma_u64_le_round_trip(e.amount_to_send);
    assert(s.subrange(1, 9) =~= u64_to_le(e.start_time));
    assert(s.subrange(9, 41) =~= e.receiver@);
    assert(s.subrange(41, 49) =~= u64_to_le(e.amount_to_send));
    assert(s.subrange(49, 81) =~= e.sender@);
    assert(escrow_read_as(s, e));
    let c = choose|c: Escrow| escrow_read_as(s, c);
    lemma_escrow_read_unique(s, c, e);
}

/// Storing a token record and reading it back gives the same record.
pub proof fn lemma_token_escrow_round_trip(t: TransferToken)
    ensures
        token_escrow_bytes(t).len() == TOKEN_ESCROW_LEN,
        stored_token_escrow(token_escrow_bytes(t)) == Some(t),
{
    let s = token_escrow_bytes(t);
    lemma_u64_le_round_trip(t.start_time);
    lemma_u64_le_round_trip(t.amount);
    assert(s.subrange(0, 8) =~= u64_to_le(t.start_time));
    assert(s.subrange(8, 16) =~= u64_to_le(t.amount));
    assert(s.subrange(16, 48) =~= t.token_mint@);
    assert(s.subrange(48, 80) =~= t.sender@);
    assert(s.subrange(80, 112) =~= t.receiver@);
    assert(token_escrow_read_as(s, t));
    let c = choose|c: TransferToken| token_escrow_read_as(s, c);
    lemma_token_escrow_read_unique(s, c, t);
}

impl Escrow {
    /// Whether the record was filled in by a transfer.
    pub fn is_initialized(&self) -> (r: bool)
        ensures
            r == self.is_initialized,
    {
        self.is_initialized
    }

    /// Reads a native record from the start of `src`.
    pub fn unpack_from_slice(src: &[u8]) -> (r: Result<Escrow, EscrowError>)
        ensures
            match r {
                Ok(e) => stored_escrow(src@) == Some(e),
                Err(err) => stored_escrow(src@) is None && err == EscrowError::InvalidAccountData,
            },
    {
        if src.len() < ESCROW_LEN {
            return Err(EscrowError::InvalidAccountData);
        }
        let flag = src[0];
        if flag > 1 {
            return Err(EscrowError::InvalidAccountData);
        }
        let e = Escrow {
            is_initialized: flag == 1,
            start_time: read_u64_le(src, 1),
            receiver: read_address(src, 9),
            amount_to_send: read_u64_le(src, 41),
            sender: read_address(src, 49),
        };
        proof {
            assert(escrow_read_as(src@, e));
            let c = choose|c: Escrow| escrow_read_as(src@, c);
            lemma_escrow_read_unique(src@, c, e);
        }
        Ok(e)
    }

    /// The stored bytes of this record.
    pub fn pack(&self) -> (r: Vec<u8>)
        ensures
            r@ == escrow_bytes(*self),
    {
        let mut out: Vec<u8> = Vec::new();
        out.push(if self.is_initialized { 1u8 } else { 0u8 });
        push_u64_le(&mut out, self.start_time);
        push_address(&mut out, &self.receiver);
        push_u64_le(&mut out, self.amount_to_send);
        push_address(&mut out, &self.sender);
        out
    }

    /// Writes this record over the first bytes of `dst`.
    pub fn pack_into_slice(&self, dst: &mut [u8])
        requires
            old(dst)@.len() >= ESCROW_LEN,
        ensures
            final(dst)@ == escrow_bytes(*self) + old(dst)@.subrange(ESCROW_LEN as int, old(dst)@.len() as int),
    {
        let bytes = self.pack();
        copy_prefix(dst, &bytes);
    }
}

/// Copies `bytes` over the start of `dst`, leaving the rest as it was.
fn copy_prefix(dst: &mut [u8], bytes: &Vec<u8>)
    requires
        bytes@.len() <= old(dst)@.len(),
    ensures
        final(dst)@ == bytes@ + old(dst)@.subrange(bytes@.len() as int, old(dst)@.len() as int),
{
    let n: usize = bytes.len();
    let mut i: usize = 0;
    while i < n
        invariant
            n == bytes@.len(),
            n <= old(dst)@.len(),
            dst@.len() == old(dst)@.len(),
            0 <= i <= n,
            forall|j: int| 0 <= j < i ==> dst@[j] == bytes@[j],
            forall|j: int| i <= j < dst@.len() ==> dst@[j] == old(dst)@[j],
        decreases n - i,
    {
        dst[i] = bytes[i];
        i = i + 1;
    }
    assert(dst@ =~= bytes@ + old(dst)@.subrange(n as int, old(dst)@.len() as int));
}

impl TransferToken {
    /// Reads a token record from the start of `src`.
    pub fn unpack_from_slice(src: &[u8]) -> (r: Result<TransferToken, EscrowError>)
        ensures
            match r {
                Ok(t) => stored_token_escrow(src@) == Some(t),
                Err(err) => stored_token_escrow(src@) is None && err == EscrowError::InvalidAccountData,
            },
    {
        if src.len() < TOKEN_ESCROW_LEN {
            return Err(EscrowError::InvalidAccountData);
        }
        let t = TransferToken {
            start_time: read_u64_le(src, 0),
            amount: read_u64_le(src, 8),
            token_mint: read_address(src, 16),
            sender: read_address(src, 48),
            receiver: read_address(src, 80),
        };
        proof {
            assert(token_escrow_read_as(src@, t));
            let c = choose|c: TransferToken| token_escrow_read_as(src@, c);
            lemma_token_escrow_read_unique(src@, c, t);
        }
        Ok(t)
    }

    /// The stored bytes of this record.
    pub fn pack(&self) -> (r: Vec<u8>)
        ensures
            r@ == token_escrow_bytes(*self),
    {
        let mut out: Vec<u8> = Vec::new();
        push_u64_le(&mut out, self.start_time);
        push_u64_le(&mut out, self.amount);
        push_address(&mut out, &self.token_mint);
        push_address(&mut out, &self.sender);
        push_address(&mut out, &self.receiver);
        out
    }

    /// Writes this record over the first bytes of `dst`.
    pub fn pack_into_slice(&self, dst: &mut [u8])
        requires
            old(dst)@.len() >= TOKEN_ESCROW_LEN,
        ensures
            final(dst)@ == token_escrow_bytes(*self) + old(dst)@.subrange(TOKEN_ESCROW_LEN as int, old(dst)@.len() as int),
    {
        let bytes = self.pack();
        copy_prefix(dst, &bytes);
    }
}

} // verus!
