use vstd::prelude::*;

verus! {

/// The typed failures of the pool. Their numeric codes are part of the
/// contract's public interface and never change.
#[derive(Clone, Copy, Debug, PartialEq, Eq, Structural)]
pub enum Error {
    NotInitialized,
    InsufficientBalance,
    InvalidAmount,
    Paused,
    AssetNotApproved,
    Overflow,
    Insolvent,
}

/// The numeric code that callers see for each error.
pub open spec fn error_code(e: Error) -> u32 {
    match e {
        Error::NotInitialized => 1,
        Error::InsufficientBalance => 2,
        Error::InvalidAmount => 3,
        Error::Paused => 4,
        Error::AssetNotApproved => 5,
        Error::Overflow => 6,
        Error::Insolvent => 7,
    }
}

impl Error {
    /// The frozen numeric code of this error.
    pub fn code(&self) -> (c: u32)
        ensures
            c == error_code(*self),
            1 <= c <= 7,
    {
        match self {
            Error::NotInitialized => 1,
            Error::InsufficientBalance => 2,
            Error::InvalidAmount => 3,
            Error::Paused => 4,
            Error::AssetNotApproved => 5,
            Error::Overflow => 6,
            Error::Insolvent => 7,
        }
    }
}

/// The codes callers see: not initialized 1, insufficient balance 2,
/// invalid amount 3, paused 4, asset not approved 5, overflow 6,
/// insolvent 7.
pub proof fn lemma_error_code_values()
    ensures
        error_code(Error::NotInitialized) == 1,
        error_code(Error::InsufficientBalance) == 2,
        error_code(Error::InvalidAmount) == 3,
        error_code(Error::Paused) == 4,
        error_code(Error::AssetNotApproved) == 5,
        error_code(Error::Overflow) == 6,
        error_code(Error::Insolvent) == 7,
{
}

/// Distinct errors have distinct codes.
pub proof fn lemma_error_codes_distinct(a: Error, b: Error)
    ensures
        error_code(a) == error_code(b) <==> a == b,
{
}

} // verus!
