//! Why an operation failed.

use vstd::prelude::*;
use vstd::string::*;

verus! {

/// The broad kinds of failure.
#[derive(Clone, Copy, Debug, PartialEq, Eq, Structural)]
pub enum ErrorClass {
    /// The caller failed an identity check.
    Unauthorized,
    /// The operation came outside its window in the lifecycle.
    InvalidState,
    /// A challenge or a rolling hash did not match.
    IntegrityFailure,
    /// The input was malformed or out of range.
    ValidationFailure,
    /// The requester's stake is below the minimum.
    InsufficientStake,
}

/// Why an operation failed. A failed operation changes no state.
#[derive(Clone, Copy, Debug, PartialEq, Eq, Structural)]
pub enum ContractError {
    Unauthorized,
    VoteClosed,
    VoteStillOpen,
    AlreadyRevealed,
    NotFinalized,
    NothingLocked,
    ChallengeMismatch,
    HashMismatch,
    TooFewChoices,
    TitleTooShort,
    DescriptionTooShort,
    AliasTooShort,
    UnknownChoice,
    NotValid,
    VoteNotFound,
    Overflow,
    InsufficientStake,
}

impl ContractError {
    pub open spec fn spec_class(&self) -> ErrorClass {
        match self {
            ContractError::Unauthorized => ErrorClass::Unauthorized,
            ContractError::VoteClosed => ErrorClass::InvalidState,
            ContractError::VoteStillOpen => ErrorClass::InvalidState,
            ContractError::AlreadyRevealed => ErrorClass::InvalidState,
            ContractError::NotFinalized => ErrorClass::InvalidState,
            ContractError::NothingLocked => ErrorClass::InvalidState,
            ContractError::ChallengeMismatch => ErrorClass::IntegrityFailure,
            ContractError::HashMismatch => ErrorClass::IntegrityFailure,
            ContractError::TooFewChoices => ErrorClass::ValidationFailure,
            ContractError::TitleTooShort => ErrorClass::ValidationFailure,
            ContractError::DescriptionTooShort => ErrorClass::ValidationFailure,
            ContractError::AliasTooShort => ErrorClass::ValidationFailure,
            ContractError::UnknownChoice => ErrorClass::ValidationFailure,
            ContractError::NotValid => ErrorClass::ValidationFailure,
            ContractError::VoteNotFound => ErrorClass::ValidationFailure,
            ContractError::Overflow => ErrorClass::ValidationFailure,
            ContractError::InsufficientStake => ErrorClass::InsufficientStake,
        }
    }

    /// The kind of failure this is.
    #[verifier::when_used_as_spec(spec_class)]
    pub fn class(&self) -> (r: ErrorClass)
        ensures
            r == self.spec_class(),
    {
        match self {
            ContractError::Unauthorized => ErrorClass::Unauthorized,
            ContractError::VoteClosed => ErrorClass::InvalidState,
            ContractError::VoteStillOpen => ErrorClass::InvalidState,
            ContractError::AlreadyRevealed => ErrorClass::InvalidState,
            ContractError::NotFinalized => ErrorClass::InvalidState,
            ContractError::NothingLocked => ErrorClass::InvalidState,
            ContractError::ChallengeMismatch => ErrorClass::IntegrityFailure,
            ContractError::HashMismatch => ErrorClass::IntegrityFailure,
            ContractError::TooFewChoices => ErrorClass::ValidationFailure,
            ContractError::TitleTooShort => ErrorClass::ValidationFailure,
            ContractError::DescriptionTooShort => ErrorClass::ValidationFailure,
            ContractError::AliasTooShort => ErrorClass::ValidationFailure,
            ContractError::UnknownChoice => ErrorClass::ValidationFailure,
            ContractError::NotValid => ErrorClass::ValidationFailure,
            ContractError::VoteNotFound => ErrorClass::ValidationFailure,
            ContractError::Overflow => ErrorClass::ValidationFailure,
            ContractError::InsufficientStake => ErrorClass::InsufficientStake,
        }
    }

    pub open spec fn spec_message(&self) -> Seq<char> {
        match self {
            ContractError::Unauthorized => "unauthorized"@,
            ContractError::VoteClosed => "vote has ended"@,
            ContractError::VoteStillOpen => "vote has not ended yet"@,
            ContractError::AlreadyRevealed => "already finalized the vote"@,
            ContractError::NotFinalized => "vote hasn't been finalized yet"@,
            ContractError::NothingLocked => "nothing is locked in the staking pool"@,
            ContractError::ChallengeMismatch => "challenge did not match"@,
            ContractError::HashMismatch => "incorrect rolling hash"@,
            ContractError::TooFewChoices => "you have to provide at least two choices"@,
            ContractError::TitleTooShort => "poll title must be at least 2 characters long"@,
            ContractError::DescriptionTooShort => "poll description must be at least 10 characters long"@,
            ContractError::AliasTooShort => "poll author alias must be at least 3 characters long"@,
            ContractError::UnknownChoice => "choice does not exist in this poll"@,
            ContractError::NotValid => "vote hasn't passed quorum"@,
            ContractError::VoteNotFound => "no vote was found for this voter"@,
            ContractError::Overflow => "arithmetic overflow"@,
            ContractError::InsufficientStake => "insufficient staked amount"@,
        }
    }

    /// A human-readable description of the failure.
    pub fn message(&self) -> (r: String)
        ensures
            r@ == self.spec_message(),
    {
        let s: &str = match self {
            ContractError::Unauthorized => "unauthorized",
            ContractError::VoteClosed => "vote has ended",
            ContractError::VoteStillOpen => "vote has not ended yet",
            ContractError::AlreadyRevealed => "already finalized the vote",
            ContractError::NotFinalized => "vote hasn't been finalized yet",
            ContractError::NothingLocked => "nothing is locked in the staking pool",
            ContractError::ChallengeMismatch => "challenge did not match",
            ContractError::HashMismatch => "incorrect rolling hash",
            ContractError::TooFewChoices => "you have to provide at least two choices",
            ContractError::TitleTooShort => "poll title must be at least 2 characters long",
            ContractError::DescriptionTooShort => "poll description must be at least 10 characters long",
            ContractError::AliasTooShort => "poll author alias must be at least 3 characters long",
            ContractError::UnknownChoice => "choice does not exist in this poll",
            ContractError::NotValid => "vote hasn't passed quorum",
            ContractError::VoteNotFound => "no vote was found for this voter",
            ContractError::Overflow => "arithmetic overflow",
            ContractError::InsufficientStake => "insufficient staked amount",
        };
        String::from_str(s)
    }
}

} // verus!
