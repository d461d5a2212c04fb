use vstd::prelude::*;

verus! {

/// Failure kinds surfaced by the instruction processor. Every failure is
/// terminal for the current instruction; none is retried internally.
#[derive(Clone, Copy, Debug, PartialEq, Eq, Structural)]
pub enum ProcessError {
    /// The instruction was invoked as a nested call instead of a top-level
    /// transaction instruction.
    UnsupportedProgramId,
    /// Malformed instruction tag or payload, a rejected proof, or a close
    /// whose refund destination is the account being closed.
    InvalidInstructionData,
    /// The context account is not owned by this program, or the signer of a
    /// close does not match the recorded authority.
    InvalidAccountOwner,
    /// The context account already holds an initialized record.
    AccountAlreadyInitialized,
    /// The account data cannot hold a context record, or its length does not
    /// exactly match the encoded record.
    InvalidAccountData,
    /// The claimed authority did not sign the transaction.
    MissingRequiredSignature,
    /// The instruction referenced an account index beyond the supplied list.
    NotEnoughAccountKeys,
    /// The compute budget cannot pay the fixed processing cost.
    InsufficientBudget,
    /// Crediting the refund destination would overflow its balance.
    ArithmeticOverflow,
}

} // verus!
