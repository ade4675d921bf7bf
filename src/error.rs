use vstd::prelude::*;

verus! {

/// The ways an invocation of the counter program can fail.
#[derive(Debug, Clone, Copy, PartialEq, Eq, Structural)]
pub enum CounterError {
    /// The account list was empty: there is no target account.
    MissingAccount,
    /// The target account is not owned by the running program.
    IncorrectOwner,
    /// The target account's storage does not hold exactly one counter record.
    DecodeError,
    /// The target account's storage is too small to take the encoded record.
    EncodeError,
}

} // verus!
