//! The named validation failures. Every operation of the registry either
//! commits in full or aborts with one of these reasons, leaving all state
//! and all reserved balances exactly as they were.

use vstd::prelude::*;

verus! {

/// A reason for rejecting an operation. Each variant is a distinct
/// validation failure; none of them is a crash.
#[derive(Clone, Copy, Debug, PartialEq, Eq)]
pub enum Error {
    /// The caller was not of the kind the operation demands
    /// (a signed account, or the privileged root actor).
    BadOrigin,
    /// The minimum-deposit parameter has not been configured.
    MinDepositNotSet,
    /// The apply-stage-length parameter has not been configured.
    ApplyStageLenNotSet,
    /// The commit-stage-length parameter has not been configured.
    CommitStageLenNotSet,
    /// A proposal's deposit is below the configured minimum.
    DepositTooLow,
    /// A proposal reuses a listing identifier that is already taken.
    ListingExists,
    /// No listing is known under the given identifier.
    ListingNotFound,
    /// The listing already has an active challenge.
    AlreadyChallenged,
    /// A listing's owner tried to challenge their own listing.
    SelfChallenge,
    /// A challenge's deposit is below the challenged listing's own stake.
    ChallengeDepositTooLow,
    /// The apply stage is over: the application can no longer be challenged.
    ApplyStagePassed,
    /// The apply stage is still running: the application cannot be accepted yet.
    ApplyStageNotPassed,
    /// The commit stage is over: votes can no longer be cast.
    CommitStagePassed,
    /// The commit stage is still running: the challenge cannot be resolved yet.
    CommitStageNotPassed,
    /// The apply stage is still running: too early to promote the application.
    TooEarlyToPromote,
    /// A challenged listing cannot be promoted.
    ChallengedListing,
    /// No challenge is known under the given identifier.
    ChallengeNotFound,
    /// The challenge has already been resolved.
    AlreadyResolved,
    /// The challenge has not been resolved yet.
    NotResolved,
    /// The account has already voted in this challenge.
    DuplicateVote,
    /// The account holds no vote in this challenge.
    VoteNotFound,
    /// The vote's reward has already been claimed.
    AlreadyClaimed,
    /// The account's free balance cannot cover the deposit to reserve.
    InsufficientBalance,
    /// An arithmetic result would not fit its type.
    Overflow,
    /// A reward share would divide by zero winning tokens.
    DivisionByZero,
}

impl Error {
    /// The text of each failure reason.
    pub open spec fn spec_message(self) -> Seq<char> {
        match self {
            Error::BadOrigin => "Bad origin for this operation."@,
            Error::MinDepositNotSet => "Min deposit not set"@,
            Error::ApplyStageLenNotSet => "Apply stage length not set."@,
            Error::CommitStageLenNotSet => "Commit stage length not set."@,
            Error::DepositTooLow => "deposit should be more than min_deposit"@,
            Error::ListingExists => "Listing already exists"@,
            Error::ListingNotFound => "Listing not found."@,
            Error::AlreadyChallenged => "Listing is already challenged."@,
            Error::SelfChallenge => "You cannot challenge your own listing."@,
            Error::ChallengeDepositTooLow => "Not enough deposit to challenge."@,
            Error::ApplyStagePassed => "Apply stage length has passed."@,
            Error::ApplyStageNotPassed => "Apply stage length has not passed."@,
            Error::CommitStagePassed => "Commit stage length has passed."@,
            Error::CommitStageNotPassed => "Commit stage length has not passed."@,
            Error::TooEarlyToPromote => "Too early to promote this application."@,
            Error::ChallengedListing => "Cannot promote a challenged listing."@,
            Error::ChallengeNotFound => "Challenge not found."@,
            Error::AlreadyResolved => "Challenge is already resolved."@,
            Error::NotResolved => "Challenge is not resolved."@,
            Error::DuplicateVote => "You have already voted for this challenge."@,
            Error::VoteNotFound => "Vote not found."@,
            Error::AlreadyClaimed => "Vote reward has already been claimed."@,
            Error::InsufficientBalance => "Not enough balance to reserve the deposit."@,
            Error::Overflow => "Overflow in an arithmetic operation."@,
            Error::DivisionByZero => "Division by zero in reward calculation."@,
        }
    }

    /// The failure reason as text, surfaced verbatim to callers.
    pub fn message(&self) -> (r: &'static str)
        ensures
            r@ == self.spec_message(),
    {
        match self {
            Error::BadOrigin => "Bad origin for this operation.",
            Error::MinDepositNotSet => "Min deposit not set",
            Error::ApplyStageLenNotSet => "Apply stage length not set.",
            Error::CommitStageLenNotSet => "Commit stage length not set.",
            Error::DepositTooLow => "deposit should be more than min_deposit",
            Error::ListingExists => "Listing already exists",
            Error::ListingNotFound => "Listing not found.",
            Error::AlreadyChallenged => "Listing is already challenged.",
            Error::SelfChallenge => "You cannot challenge your own listing.",
            Error::ChallengeDepositTooLow => "Not enough deposit to challenge.",
            Error::ApplyStagePassed => "Apply stage length has passed.",
            Error::ApplyStageNotPassed => "Apply stage length has not passed.",
            Error::CommitStagePassed => "Commit stage length has passed.",
            Error::CommitStageNotPassed => "Commit stage length has not passed.",
            Error::TooEarlyToPromote => "Too early to promote this application.",
            Error::ChallengedListing => "Cannot promote a challenged listing.",
            Error::ChallengeNotFound => "Challenge not found.",
            Error::AlreadyResolved => "Challenge is already resolved.",
            Error::NotResolved => "Challenge is not resolved.",
            Error::DuplicateVote => "You have already voted for this challenge.",
            Error::VoteNotFound => "Vote not found.",
            Error::AlreadyClaimed => "Vote reward has already been claimed.",
            Error::InsufficientBalance => "Not enough balance to reserve the deposit.",
            Error::Overflow => "Overflow in an arithmetic operation.",
            Error::DivisionByZero => "Division by zero in reward calculation.",
        }
    }
}

} // verus!
