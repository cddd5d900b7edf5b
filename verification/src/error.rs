//! The failures a swap request can end in.

use vstd::prelude::*;

verus! {

/// Every way a request can fail. All of them are terminal for the request.
#[derive(Debug, Clone, Copy, PartialEq, Eq, Structural)]
pub enum AutoBuyerError {
    /// The instruction bytes do not decode.
    InvalidInstruction,
    /// The payer does not hold the amount to be swapped.
    InsufficientFunds,
    /// One of the pool's reserves is empty.
    InsufficientLiquidity,
    /// The quoted output is below the caller's minimum.
    SlippageTooHigh,
    /// No provider recognises the requested pair.
    PoolNotFound,
    /// A zero amount, or account data of the wrong shape.
    InvalidParameters,
    /// An account is not owned by the program it should belong to.
    InvalidAccountOwner,
    /// An arithmetic step left the 64-bit range.
    MathOverflow,
    /// The pool program rejected the call.
    CpiError,
    /// The asset is not supported.
    TokenNotSupported,
}

impl AutoBuyerError {
    /// The number under which the host runtime reports this error.
    pub open spec fn spec_code(self) -> u32 {
        match self {
            AutoBuyerError::InvalidInstruction => 0,
            AutoBuyerError::InsufficientFunds => 1,
            AutoBuyerError::InsufficientLiquidity => 2,
            AutoBuyerError::SlippageTooHigh => 3,
            AutoBuyerError::PoolNotFound => 4,
            AutoBuyerError::InvalidParameters => 5,
            AutoBuyerError::InvalidAccountOwner => 6,
            AutoBuyerError::MathOverflow => 7,
            AutoBuyerError::CpiError => 8,
            AutoBuyerError::TokenNotSupported => 9,
        }
    }

    /// The error a reported number stands for. Numbers that no error has
    /// read as `InvalidInstruction`.
    pub open spec fn spec_from_code(code: u32) -> AutoBuyerError {
        if code == 1 {
            AutoBuyerError::InsufficientFunds
        } else if code == 2 {
            AutoBuyerError::InsufficientLiquidity
        } else if code == 3 {
            AutoBuyerError::SlippageTooHigh
        } else if code == 4 {
            AutoBuyerError::PoolNotFound
        } else if code == 5 {
            AutoBuyerError::InvalidParameters
        } else if code == 6 {
            AutoBuyerError::InvalidAccountOwner
        } else if code == 7 {
            AutoBuyerError::MathOverflow
        } else if code == 8 {
            AutoBuyerError::CpiError
        } else if code == 9 {
            AutoBuyerError::TokenNotSupported
        } else {
            AutoBuyerError::InvalidInstruction
        }
    }

    /// The number under which the host runtime reports this error.
    #[verifier::when_used_as_spec(spec_code)]
    pub fn code(self) -> (code: u32)
        ensures
            code == self.spec_code(),
            code <= 9,
    {
        match self {
            AutoBuyerError::InvalidInstruction => 0,
            AutoBuyerError::InsufficientFunds => 1,
            AutoBuyerError::InsufficientLiquidity => 2,
            AutoBuyerError::SlippageTooHigh => 3,
            AutoBuyerError::PoolNotFound => 4,
            AutoBuyerError::InvalidParameters => 5,
            AutoBuyerError::InvalidAccountOwner => 6,
            AutoBuyerError::MathOverflow => 7,
            AutoBuyerError::CpiError => 8,
            AutoBuyerError::TokenNotSupported => 9,
        }
    }

    /// Reads a reported number back into an error.
    #[verifier::when_used_as_spec(spec_from_code)]
    pub fn from_code(code: u32) -> (error: AutoBuyerError)
        ensures
            error == Self::spec_from_code(code),
    {
        match code {
            1 => AutoBuyerError::InsufficientFunds,
            2 => AutoBuyerError::InsufficientLiquidity,
            3 => AutoBuyerError::SlippageTooHigh,
            4 => AutoBuyerError::PoolNotFound,
            5 => AutoBuyerError::InvalidParameters,
            6 => AutoBuyerError::InvalidAccountOwner,
            7 => AutoBuyerError::MathOverflow,
            8 => AutoBuyerError::CpiError,
            9 => AutoBuyerError::TokenNotSupported,
            _ => AutoBuyerError::InvalidInstruction,
        }
    }

    /// Reporting an error and reading the number back gives the error again.
    pub proof fn lemma_code_round_trip(error: AutoBuyerError)
        ensures
            Self::spec_from_code(error.spec_code()) == error,
    {
    }
}

} // verus!
