//! The named refusals of the ledger.

use vstd::prelude::*;

verus! {

/// Every way an operation can be refused. An operation that returns one of
/// these has changed nothing.
#[derive(Clone, Copy, Debug, PartialEq, Eq, Structural)]
pub enum ErrorCode {
    AuthorityMismatch,
    TooManyEducationEntries,
    TooManyExperienceEntries,
    TooManySkills,
    TooManyCertifications,
    TooManyPortfolioItems,
    InvalidDeadline,
    JobNotOpen,
    NotJobClient,
    BidNotFound,
    InsufficientBalance,
    TitleTooLong,
    DescriptionTooLong,
    TooManyMilestones,
    MilestoneAmountMismatch,
    InvalidMilestoneDate,
    MilestoneAfterDeadline,
    CategoryTooLong,
    CannotBidOwnJob,
    NotAFreelancer,
    AlreadySubmittedBid,
    InvalidBidAmount,
    JobAlreadyAssigned,
    UnauthorizedUser,
    MaxBidsReached,
    BidExceedsBudget,
    JobNotInProgress,
    NotAssignedFreelancer,
    NoWorkSubmitted,
    UrlTooLong,
    InvalidRating,
    JobNotCompleted,
    AlreadyWithdrawn,
    PaymentNotCompleted,
    InvalidVotingPeriod,
    DisputeAlreadyExists,
    NoFreelancerAssigned,
    NoDispute,
    DisputeNotOpen,
    VotingClosed,
    AlreadyVoted,
    VotingStillActive,
    InvalidBump,
    InvalidRaiserUserAccount,
    InvalidRaiserAccount,
    InvalidAgainstAccount,
    CannotVoteOwnDispute,
    MaxVotersReached,
    NotFound,
    AlreadyExists,
    InsufficientFunds,
    Underfunded,
    ArithmeticOverflow,
}

/// The four families of refusal.
#[derive(Clone, Copy, Debug, PartialEq, Eq, Structural)]
pub enum ErrorKind {
    /// A length, count or range cap was exceeded.
    Validation,
    /// The caller is not the principal the operation is reserved for.
    Authorization,
    /// The operation does not apply in the record's current state.
    State,
    /// Funds cannot move as asked.
    Financial,
}

impl ErrorCode {
    /// The family an error belongs to.
    pub open spec fn spec_kind(self) -> ErrorKind {
        match self {
            ErrorCode::TooManyEducationEntries
            | ErrorCode::TooManyExperienceEntries
            | ErrorCode::TooManySkills
            | ErrorCode::TooManyCertifications
            | ErrorCode::TooManyPortfolioItems
            | ErrorCode::InvalidDeadline
            | ErrorCode::TitleTooLong
            | ErrorCode::DescriptionTooLong
            | ErrorCode::TooManyMilestones
            | ErrorCode::MilestoneAmountMismatch
            | ErrorCode::InvalidMilestoneDate
            | ErrorCode::MilestoneAfterDeadline
            | ErrorCode::CategoryTooLong
            | ErrorCode::InvalidBidAmount
            | ErrorCode::MaxBidsReached
            | ErrorCode::BidExceedsBudget
            | ErrorCode::UrlTooLong
            | ErrorCode::InvalidRating
            | ErrorCode::InvalidVotingPeriod
            | ErrorCode::MaxVotersReached
            | ErrorCode::ArithmeticOverflow => ErrorKind::Validation,
            ErrorCode::AuthorityMismatch
            | ErrorCode::NotJobClient
            | ErrorCode::CannotBidOwnJob
            | ErrorCode::NotAFreelancer
            | ErrorCode::UnauthorizedUser
            | ErrorCode::NotAssignedFreelancer
            | ErrorCode::InvalidBump
            | ErrorCode::InvalidRaiserUserAccount
            | ErrorCode::InvalidRaiserAccount
            | ErrorCode::InvalidAgainstAccount
            | ErrorCode::CannotVoteOwnDispute => ErrorKind::Authorization,
            ErrorCode::JobNotOpen
            | ErrorCode::BidNotFound
            | ErrorCode::AlreadySubmittedBid
            | ErrorCode::JobAlreadyAssigned
            | ErrorCode::JobNotInProgress
            | ErrorCode::NoWorkSubmitted
            | ErrorCode::JobNotCompleted
            | ErrorCode::PaymentNotCompleted
            | ErrorCode::DisputeAlreadyExists
            | ErrorCode::NoFreelancerAssigned
            | ErrorCode::NoDispute
            | ErrorCode::DisputeNotOpen
            | ErrorCode::VotingClosed
            | ErrorCode::AlreadyVoted
            | ErrorCode::VotingStillActive
            | ErrorCode::NotFound
            | ErrorCode::AlreadyExists => ErrorKind::State,
            ErrorCode::InsufficientBalance
            | ErrorCode::AlreadyWithdrawn
            | ErrorCode::InsufficientFunds
            | ErrorCode::Underfunded => ErrorKind::Financial,
        }
    }

    /// The family an error belongs to.
    #[verifier::when_used_as_spec(spec_kind)]
    pub fn kind(self) -> (k: ErrorKind)
        ensures
            k == self.spec_kind(),
    {
        match self {
            ErrorCode::TooManyEducationEntries
            | ErrorCode::TooManyExperienceEntries
            | ErrorCode::TooManySkills
            | ErrorCode::TooManyCertifications
            | ErrorCode::TooManyPortfolioItems
            | ErrorCode::InvalidDeadline
            | ErrorCode::TitleTooLong
            | ErrorCode::DescriptionTooLong
            | ErrorCode::TooManyMilestones
            | ErrorCode::MilestoneAmountMismatch
            | ErrorCode::InvalidMilestoneDate
            | ErrorCode::MilestoneAfterDeadline
            | ErrorCode::CategoryTooLong
            | ErrorCode::InvalidBidAmount
            | ErrorCode::MaxBidsReached
            | ErrorCode::BidExceedsBudget
            | ErrorCode::UrlTooLong
            | ErrorCode::InvalidRating
            | ErrorCode::InvalidVotingPeriod
            | ErrorCode::MaxVotersReached
            | ErrorCode::ArithmeticOverflow => ErrorKind::Validation,
            ErrorCode::AuthorityMismatch
            | ErrorCode::NotJobClient
            | ErrorCode::CannotBidOwnJob
            | ErrorCode::NotAFreelancer
            | ErrorCode::UnauthorizedUser
            | ErrorCode::NotAssignedFreelancer
            | ErrorCode::InvalidBump
            | ErrorCode::InvalidRaiserUserAccount
            | ErrorCode::InvalidRaiserAccount
            | ErrorCode::InvalidAgainstAccount
            | ErrorCode::CannotVoteOwnDispute => ErrorKind::Authorization,
            ErrorCode::JobNotOpen
            | ErrorCode::BidNotFound
            | ErrorCode::AlreadySubmittedBid
            | ErrorCode::JobAlreadyAssigned
            | ErrorCode::JobNotInProgress
            | ErrorCode::NoWorkSubmitted
            | ErrorCode::JobNotCompleted
            | ErrorCode::PaymentNotCompleted
            | ErrorCode::DisputeAlreadyExists
            | ErrorCode::NoFreelancerAssigned
            | ErrorCode::NoDispute
            | ErrorCode::DisputeNotOpen
            | ErrorCode::VotingClosed
            | ErrorCode::AlreadyVoted
            | ErrorCode::VotingStillActive
            | ErrorCode::NotFound
            | ErrorCode::AlreadyExists => ErrorKind::State,
            ErrorCode::InsufficientBalance
            | ErrorCode::AlreadyWithdrawn
            | ErrorCode::InsufficientFunds
            | ErrorCode::Underfunded => ErrorKind::Financial,
        }
    }

    /// The text shown to a caller for this error.
    pub fn message(self) -> (text: &'static str)
        ensures
            text@ == self.spec_message(),
    {
        match self {
            ErrorCode::AuthorityMismatch => "Authority mismatch",
            ErrorCode::TooManyEducationEntries => "Too many education entries (max 3)",
            ErrorCode::TooManyExperienceEntries => "Too many experience entries (max 3)",
            ErrorCode::TooManySkills => "Too many skills (max 10)",
            ErrorCode::TooManyCertifications => "Too many certifications (max 3)",
            ErrorCode::TooManyPortfolioItems => "Too many portfolio items (max 3)",
            ErrorCode::InvalidDeadline => "invalid deadline",
            ErrorCode::JobNotOpen => "Job not open",
            ErrorCode::NotJobClient => "Its not your job",
            ErrorCode::BidNotFound => "Bid not found",
            ErrorCode::InsufficientBalance => "Insufficient balance",
            ErrorCode::TitleTooLong => "Title too long",
            ErrorCode::DescriptionTooLong => "Description too long",
            ErrorCode::TooManyMilestones => "Too many milestones",
            ErrorCode::MilestoneAmountMismatch => "Milestone amounts don't match total budget",
            ErrorCode::InvalidMilestoneDate => "Invalid milestone date",
            ErrorCode::MilestoneAfterDeadline => "Milestone due date is after job deadline",
            ErrorCode::CategoryTooLong => "Category too long",
            ErrorCode::CannotBidOwnJob => "Cannot bid on your own job",
            ErrorCode::NotAFreelancer => "User is not registered as a freelancer",
            ErrorCode::AlreadySubmittedBid => "You have already submitted a bid for this job",
            ErrorCode::InvalidBidAmount => "Bid amount must be greater than zero",
            ErrorCode::JobAlreadyAssigned => "Job has already been assigned to a freelancer",
            ErrorCode::UnauthorizedUser => "Unauthorized user",
            ErrorCode::MaxBidsReached => "Maximum number of bids reached for this job",
            ErrorCode::BidExceedsBudget => "Bid amount exceeds reasonable budget limit",
            ErrorCode::JobNotInProgress => "Job is not in progress",
            ErrorCode::NotAssignedFreelancer => "You are not the assigned freelancer",
            ErrorCode::NoWorkSubmitted => "No work has been submitted yet",
            ErrorCode::UrlTooLong => "URL too long (max 500 characters)",
            ErrorCode::InvalidRating => "Invalid rating. Must be between 1 and 5 stars",
            ErrorCode::JobNotCompleted => "Job is not completed yet",
            ErrorCode::AlreadyWithdrawn => "Payment already withdrawn from escrow",
            ErrorCode::PaymentNotCompleted => "Payment has not been completed yet",
            ErrorCode::InvalidVotingPeriod => "voting period is invalid",
            ErrorCode::DisputeAlreadyExists => "dispute is already exist",
            ErrorCode::NoFreelancerAssigned => "No freelancer assign",
            ErrorCode::NoDispute => "No dispute exists for this job",
            ErrorCode::DisputeNotOpen => "Dispute isn't open",
            ErrorCode::VotingClosed => "Voting is closed",
            ErrorCode::AlreadyVoted => "You have already voted on this dispute",
            ErrorCode::VotingStillActive => "Voting period still active",
            ErrorCode::InvalidBump => "Invalid escrow PDA bump or escrow account",
            ErrorCode::InvalidRaiserUserAccount => "Invalid raiser or against user account supplied",
            ErrorCode::InvalidRaiserAccount => "Invalid raiser account provided",
            ErrorCode::InvalidAgainstAccount => "Invalid against account provided",
            ErrorCode::CannotVoteOwnDispute => "Cannot vote on your own dispute",
            ErrorCode::MaxVotersReached => "Maximum number of voters reached",
            ErrorCode::NotFound => "No record is stored under this key",
            ErrorCode::AlreadyExists => "A record is already stored under this key",
            ErrorCode::InsufficientFunds => "Insufficient funds for the deposit",
            ErrorCode::Underfunded => "Escrow holds less than the amount requested",
            ErrorCode::ArithmeticOverflow => "A balance or a counter would leave its range",
        }
    }

    /// The characters of `message`.
    pub open spec fn spec_message(self) -> Seq<char> {
        match self {
            ErrorCode::AuthorityMismatch => "Authority mismatch"@,
            ErrorCode::TooManyEducationEntries => "Too many education entries (max 3)"@,
            ErrorCode::TooManyExperienceEntries => "Too many experience entries (max 3)"@,
            ErrorCode::TooManySkills => "Too many skills (max 10)"@,
            ErrorCode::TooManyCertifications => "Too many certifications (max 3)"@,
            ErrorCode::TooManyPortfolioItems => "Too many portfolio items (max 3)"@,
            ErrorCode::InvalidDeadline => "invalid deadline"@,
            ErrorCode::JobNotOpen => "Job not open"@,
            ErrorCode::NotJobClient => "Its not your job"@,
            ErrorCode::BidNotFound => "Bid not found"@,
            ErrorCode::InsufficientBalance => "Insufficient balance"@,
            ErrorCode::TitleTooLong => "Title too long"@,
            ErrorCode::DescriptionTooLong => "Description too long"@,
            ErrorCode::TooManyMilestones => "Too many milestones"@,
            ErrorCode::MilestoneAmountMismatch => "Milestone amounts don't match total budget"@,
            ErrorCode::InvalidMilestoneDate => "Invalid milestone date"@,
            ErrorCode::MilestoneAfterDeadline => "Milestone due date is after job deadline"@,
            ErrorCode::CategoryTooLong => "Category too long"@,
            ErrorCode::CannotBidOwnJob => "Cannot bid on your own job"@,
            ErrorCode::NotAFreelancer => "User is not registered as a freelancer"@,
            ErrorCode::AlreadySubmittedBid => "You have already submitted a bid for this job"@,
            ErrorCode::InvalidBidAmount => "Bid amount must be greater than zero"@,
            ErrorCode::JobAlreadyAssigned => "Job has already been assigned to a freelancer"@,
            ErrorCode::UnauthorizedUser => "Unauthorized user"@,
            ErrorCode::MaxBidsReached => "Maximum number of bids reached for this job"@,
            ErrorCode::BidExceedsBudget => "Bid amount exceeds reasonable budget limit"@,
            ErrorCode::JobNotInProgress => "Job is not in progress"@,
            ErrorCode::NotAssignedFreelancer => "You are not the assigned freelancer"@,
            ErrorCode::NoWorkSubmitted => "No work has been submitted yet"@,
            ErrorCode::UrlTooLong => "URL too long (max 500 characters)"@,
            ErrorCode::InvalidRating => "Invalid rating. Must be between 1 and 5 stars"@,
            ErrorCode::JobNotCompleted => "Job is not completed yet"@,
            ErrorCode::AlreadyWithdrawn => "Payment already withdrawn from escrow"@,
            ErrorCode::PaymentNotCompleted => "Payment has not been completed yet"@,
            ErrorCode::InvalidVotingPeriod => "voting period is invalid"@,
            ErrorCode::DisputeAlreadyExists => "dispute is already exist"@,
            ErrorCode::NoFreelancerAssigned => "No freelancer assign"@,
            ErrorCode::NoDispute => "No dispute exists for this job"@,
            ErrorCode::DisputeNotOpen => "Dispute isn't open"@,
            ErrorCode::VotingClosed => "Voting is closed"@,
            ErrorCode::AlreadyVoted => "You have already voted on this dispute"@,
            ErrorCode::VotingStillActive => "Voting period still active"@,
            ErrorCode::InvalidBump => "Invalid escrow PDA bump or escrow account"@,
            ErrorCode::InvalidRaiserUserAccount => "Invalid raiser or against user account supplied"@,
            ErrorCode::InvalidRaiserAccount => "Invalid raiser account provided"@,
            ErrorCode::InvalidAgainstAccount => "Invalid against account provided"@,
            ErrorCode::CannotVoteOwnDispute => "Cannot vote on your own dispute"@,
            ErrorCode::MaxVotersReached => "Maximum number of voters reached"@,
            ErrorCode::NotFound => "No record is stored under this key"@,
            ErrorCode::AlreadyExists => "A record is already stored under this key"@,
            ErrorCode::InsufficientFunds => "Insufficient funds for the deposit"@,
            ErrorCode::Underfunded => "Escrow holds less than the amount requested"@,
            ErrorCode::ArithmeticOverflow => "A balance or a counter would leave its range"@,
        }
    }
}

/// Whether `r` reports `refusal`: success where there is none, and otherwise
/// exactly that error.
pub open spec fn reports(r: Result<(), ErrorCode>, refusal: Option<ErrorCode>) -> bool {
    match r {
        Ok(_) => refusal is None,
        Err(e) => refusal == Some(e),
    }
}

} // verus!
