use vstd::prelude::*;

verus! {

/// Why an instruction was refused. Every error aborts the whole invocation.
#[derive(Clone, Copy, Debug, PartialEq, Eq, Structural)]
pub enum EscrowError {
    /// The instruction bytes are empty, carry an unknown tag, or are too short.
    InvalidInstruction,
    /// Fewer accounts were supplied than the command reads.
    NotEnoughAccountKeys,
    /// An account that has to sign did not.
    MissingRequiredSignature,
    /// The receiver supplied is not the one the record names.
    ReceiverMismatch,
    /// The mint supplied is not the one the token record names.
    MintMismatch,
    /// The escrow account is not owned by this program.
    IllegalEscrowOwner,
    /// The account given as the token service is not the token program.
    IncorrectProgramId,
    /// The escrow account holds no record.
    UninitializedAccount,
    /// The escrow account's bytes are not a record.
    InvalidAccountData,
    /// The lock delay has not elapsed since the record's start time.
    WithdrawTimeLimitNotExceed,
    /// No custody address can be derived for the sender.
    NoViableAuthority,
}

/// The broad classes of failure.
#[derive(Clone, Copy, Debug, PartialEq, Eq, Structural)]
pub enum ErrorKind {
    Decode,
    Auth,
    Ownership,
    Timing,
    Data,
    ExternalService,
}

pub open spec fn kind_of(e: EscrowError) -> ErrorKind {
    match e {
        EscrowError::InvalidInstruction => ErrorKind::Decode,
        EscrowError::MissingRequiredSignature => ErrorKind::Auth,
        EscrowError::ReceiverMismatch | EscrowError::MintMismatch
        | EscrowError::IllegalEscrowOwner => ErrorKind::Ownership,
        EscrowError::WithdrawTimeLimitNotExceed => ErrorKind::Timing,
        EscrowError::NotEnoughAccountKeys | EscrowError::UninitializedAccount
        | EscrowError::InvalidAccountData => ErrorKind::Data,
        EscrowError::IncorrectProgramId | EscrowError::NoViableAuthority => ErrorKind::ExternalService,
    }
}

impl EscrowError {
    /// The class this error belongs to.
    pub fn kind(&self) -> (r: ErrorKind)
        ensures
            r == kind_of(*self),
    {
        match self {
            EscrowError::InvalidInstruction => ErrorKind::Decode,
            EscrowError::MissingRequiredSignature => ErrorKind::Auth,
            EscrowError::ReceiverMismatch | EscrowError::MintMismatch
            | EscrowError::IllegalEscrowOwner => ErrorKind::Ownership,
            EscrowError::WithdrawTimeLimitNotExceed => ErrorKind::Timing,
            EscrowError::NotEnoughAccountKeys | EscrowError::UninitializedAccount
            | EscrowError::InvalidAccountData => ErrorKind::Data,
            EscrowError::IncorrectProgramId | EscrowError::NoViableAuthority => ErrorKind::ExternalService,
        }
    }
}

} // verus!
