//! The ways an operation is refused.

use vstd::prelude::*;
use vstd::string::StringExecFns;

verus! {

/// Why an operation was refused. A refused operation changes nothing.
#[derive(Clone, Copy, Debug, PartialEq, Eq, Structural)]
pub enum ReferandiumError {
    /// The question has more than 200 characters.
    QuestionTooLong,
    /// The description has more than 500 characters.
    DescriptionTooLong,
    /// The market identifier has more than 64 characters.
    MarketIdTooLong,
    /// The deadline is not strictly after the current time.
    EndDateInPast,
    /// The stake of a vote is zero.
    ZeroAmount,
    /// The market has left the pending state.
    MarketAlreadyResolved,
    /// The vote comes at or after the market's deadline.
    MarketExpired,
    /// A settlement proposes `Pending`.
    InvalidOutcome,
    /// The record to create is already there.
    AlreadyExists,
    /// A counter, a pool or a balance would pass its bound.
    ArithmeticOverflow,
    /// The caller is not the platform authority.
    Unauthorized,
    /// The voter holds less than the stake.
    InsufficientBalance,
}

impl ReferandiumError {
    /// The text shown to a caller for this error.
    pub open spec fn text(self) -> Seq<char> {
        match self {
            ReferandiumError::QuestionTooLong => "Question exceeds 200 characters."@,
            ReferandiumError::DescriptionTooLong => "Description exceeds 500 characters."@,
            ReferandiumError::MarketIdTooLong => "Market ID exceeds 64 characters."@,
            ReferandiumError::EndDateInPast => "End date must be in the future."@,
            ReferandiumError::ZeroAmount => "Deposit amount must be greater than zero."@,
            ReferandiumError::MarketAlreadyResolved => "This market has already been resolved."@,
            ReferandiumError::MarketExpired => "This market has expired."@,
            ReferandiumError::InvalidOutcome => "Invalid outcome. Must be Yes or No."@,
            ReferandiumError::AlreadyExists => "This record already exists."@,
            ReferandiumError::ArithmeticOverflow => "A counter would overflow."@,
            ReferandiumError::Unauthorized => "The caller is not the platform authority."@,
            ReferandiumError::InsufficientBalance => "The voter's balance is below the deposit."@,
        }
    }

    /// The text shown to a caller for this error.
    pub fn message(&self) -> (msg: String)
        ensures
            msg@ == self.text(),
    {
        match self {
            ReferandiumError::QuestionTooLong => String::from_str(
                "Question exceeds 200 characters.",
            ),
            ReferandiumError::DescriptionTooLong => String::from_str(
                "Description exceeds 500 characters.",
            ),
            ReferandiumError::MarketIdTooLong => String::from_str(
                "Market ID exceeds 64 characters.",
            ),
            ReferandiumError::EndDateInPast => String::from_str("End date must be in the future."),
            ReferandiumError::ZeroAmount => String::from_str(
                "Deposit amount must be greater than zero.",
            ),
            ReferandiumError::MarketAlreadyResolved => String::from_str(
                "This market has already been resolved.",
            ),
            ReferandiumError::MarketExpired => String::from_str("This market has expired."),
            ReferandiumError::InvalidOutcome => String::from_str(
                "Invalid outcome. Must be Yes or No.",
            ),
            ReferandiumError::AlreadyExists => String::from_str("This record already exists."),
            ReferandiumError::ArithmeticOverflow => String::from_str("A counter would overflow."),
            ReferandiumError::Unauthorized => String::from_str(
                "The caller is not the platform authority.",
            ),
            ReferandiumError::InsufficientBalance => String::from_str(
                "The voter's balance is below the deposit.",
            ),
        }
    }
}

} // verus!
