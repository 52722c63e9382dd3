//! The ways in which an escrow operation can fail.

use vstd::prelude::*;
use solana_program::program_error::ProgramError;

verus! {

/// Why the escrow rules aborted an operation.
#[derive(Clone, Copy, Debug, PartialEq, Eq, Structural)]
pub enum EscrowError {
    /// The instruction payload cannot be decoded into a known command.
    InvalidInstruction,
    /// A required signer did not sign.
    MissingRequiredSignature,
    /// An account is not owned by the token program.
    IncorrectProgramId,
    /// The escrow-record account lacks the balance to be rent-exempt.
    NotRentExempt,
    /// The escrow record is already marked as initialized.
    AccountAlreadyInitialized,
    /// The taker-supplied amount is not the custody account's balance.
    ExpectedAmountMismatch,
    /// An account does not match what the escrow record holds, or the
    /// record account has not the size of a record.
    InvalidAccountData,
    /// The rent refund would overflow the balance type.
    AmountOverflow,
}

/// Why an instruction was aborted.
#[derive(Debug, PartialEq, Eq)]
pub enum ProcessError {
    /// A rule of the escrow was broken.
    Escrow(EscrowError),
    /// The account list is shorter than the instruction needs.
    NotEnoughAccountKeys,
    /// No authority can be derived for the program.
    NoProgramAuthority,
    /// The ledger or the token program reported an error of its own.
    Collaborator(ProgramError),
}

/// The kind of a `ProcessError`: the error without what a collaborator
/// reported.
#[derive(Clone, Copy, Debug, PartialEq, Eq, Structural)]
pub enum ErrorKind {
    /// A rule of the escrow was broken.
    Escrow(EscrowError),
    /// The account list is shorter than the instruction needs.
    NotEnoughAccountKeys,
    /// No authority can be derived for the program.
    NoProgramAuthority,
    /// The ledger or the token program reported an error of its own.
    Collaborator,
}

impl ProcessError {
    /// The kind of this error.
    pub open spec fn spec_kind(self) -> ErrorKind {
        match self {
            ProcessError::Escrow(e) => ErrorKind::Escrow(e),
            ProcessError::NotEnoughAccountKeys => ErrorKind::NotEnoughAccountKeys,
            ProcessError::NoProgramAuthority => ErrorKind::NoProgramAuthority,
            ProcessError::Collaborator(_) => ErrorKind::Collaborator,
        }
    }

    /// The kind of this error.
    pub fn kind(&self) -> (kind: ErrorKind)
        ensures
            kind == self.spec_kind(),
    {
        match self {
            ProcessError::Escrow(e) => ErrorKind::Escrow(*e),
            ProcessError::NotEnoughAccountKeys => ErrorKind::NotEnoughAccountKeys,
            ProcessError::NoProgramAuthority => ErrorKind::NoProgramAuthority,
            ProcessError::Collaborator(_) => ErrorKind::Collaborator,
        }
    }
}

} // verus!
