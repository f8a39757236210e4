//! The ways in which a transition can be refused.

use vstd::prelude::*;

verus! {

/// Why a transition handler refused its input.
#[derive(Clone, Copy, Debug, PartialEq, Eq, Structural)]
pub enum ErrorCode {
    /// The tax rate chosen for a burn is above 40.
    TaxRateTooHigh,
    /// The amount of a burn or of a transfer is zero.
    InvalidAmount,
    /// A transfer asks for more than the sender holds.
    InsufficientBalance,
    /// No yield has accrued.
    NothingToClaim,
    /// The participant's record was never written.
    UserAccountNotInitialized,
    /// The protocol's creator address is not the text of an identity.
    InvalidCreatorAddress,
    /// A sum or a product left the range of its type.
    Overflow,
    /// A difference fell below zero.
    Underflow,
    /// A division by zero.
    DivisionByZero,
    /// The creator named by the caller is not the recorded one.
    CreatorAddressMismatch,
}

/// Why the ledger refused a transition.
#[derive(Clone, Copy, Debug, PartialEq, Eq, Structural)]
pub enum LedgerError {
    /// The global record exists already; it is created once.
    AlreadyInitialized,
    /// The global record does not exist yet.
    NotInitialized,
    /// The transition's handler refused its input.
    Program(ErrorCode),
}

impl ErrorCode {
    /// The text shown for each code.
    pub open spec fn spec_message(self) -> Seq<char> {
        match self {
            ErrorCode::TaxRateTooHigh => "Tax rate cannot exceed 40%"@,
            ErrorCode::InvalidAmount => "Amount must be greater than 0"@,
            ErrorCode::InsufficientBalance => "Insufficient YRM balance"@,
            ErrorCode::NothingToClaim => "Nothing to claim"@,
            ErrorCode::UserAccountNotInitialized => "User account not initialized"@,
            ErrorCode::InvalidCreatorAddress => "Invalid creator address"@,
            ErrorCode::Overflow => "Arithmetic overflow"@,
            ErrorCode::Underflow => "Arithmetic underflow"@,
            ErrorCode::DivisionByZero => "Division by zero"@,
            ErrorCode::CreatorAddressMismatch => "Creator address mismatch"@,
        }
    }

    /// The text shown for this code.
    pub fn message(&self) -> (r: &'static str)
        ensures
            r@ == self.spec_message(),
    {
        match self {
            ErrorCode::TaxRateTooHigh => "Tax rate cannot exceed 40%",
            ErrorCode::InvalidAmount => "Amount must be greater than 0",
            ErrorCode::InsufficientBalance => "Insufficient YRM balance",
            ErrorCode::NothingToClaim => "Nothing to claim",
            ErrorCode::UserAccountNotInitialized => "User account not initialized",
            ErrorCode::InvalidCreatorAddress => "Invalid creator address",
            ErrorCode::Overflow => "Arithmetic overflow",
            ErrorCode::Underflow => "Arithmetic underflow",
            ErrorCode::DivisionByZero => "Division by zero",
            ErrorCode::CreatorAddressMismatch => "Creator address mismatch",
        }
    }
}

} // verus!
