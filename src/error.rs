//! Errors of the quadratic-funding program.

use vstd::prelude::*;

verus! {

/// Every way in which an instruction is refused. The first seven are the
/// program's own codes; the others stand for the ledger's generic errors.
#[derive(Clone, Copy, Debug, PartialEq, Eq, Structural)]
pub enum QFError {
    OwnerMismatch,
    RoundStatusError,
    VaultMismatch,
    RoundMismatch,
    ProjectAlreadyWithdraw,
    UnexpectedTokenProgramID,
    VoterMismatch,
    IncorrectProgramId,
    AccountAlreadyInitialized,
    UninitializedAccount,
    InvalidAccountData,
    AccountNotRentExempt,
    MissingRequiredSignature,
    InvalidInstructionData,
    /// A checked operation overflowed, underflowed or divided by zero.
    ArithmeticOverflow,
}

} // verus!
