//! Disputes: a party contests a job, others vote within a fixed window, and
//! the majority decides where the escrow goes and how the job ends.

use crate::contexts::{
    FinalizeDispute, FinalizeDisputeView, RaiseDispute, RaiseDisputeView, VoteDispute,
    VoteDisputeView,
};
use crate::error::ErrorCode;
use crate::principal::{is_some_of, Principal};
use crate::state::{
    byte_len, text_len, Dispute, DisputeStatus, DisputeView, JobStatus, JobView, UserView,
    MAX_REASON_LEN, MAX_VOTERS, VOTING_PERIOD,
};
use vstd::prelude::*;

verus! {

/// Whether `who` is among `voters`.
pub fn has_voted(voters: &Vec<Principal>, who: &Principal) -> (found: bool)
    ensures
        found == voters@.contains(*who),
{
    let mut i: usize = 0;
    while i < voters.len()
        invariant
            i <= voters.len(),
            forall|k: int| 0 <= k < i ==> voters@[k] != *who,
        decreases voters.len() - i,
    {
        if voters[i] == *who {
            return true;
        }
        i += 1;
    }
    false
}

impl RaiseDisputeView {
    /// Why raising a dispute is refused, if it is. The first failing test
    /// decides.
    pub open spec fn rejection(self, job_id: u64, reason: Seq<char>, now: i64) -> Option<
        ErrorCode,
    > {
        if self.job.job_id != job_id {
            Some(ErrorCode::NotFound)
        } else if self.job.has_open_dispute() {
            Some(ErrorCode::DisputeAlreadyExists)
        } else if self.job.status != JobStatus::Open && self.job.status != JobStatus::InProgress {
            Some(ErrorCode::JobNotInProgress)
        } else if self.job.freelancer is None {
            Some(ErrorCode::NoFreelancerAssigned)
        } else if !self.job.is_party(self.authority) {
            Some(ErrorCode::UnauthorizedUser)
        } else if self.raiser_user.authority != self.authority {
            Some(ErrorCode::UnauthorizedUser)
        } else if byte_len(reason) > MAX_REASON_LEN {
            Some(ErrorCode::DescriptionTooLong)
        } else if now + VOTING_PERIOD > i64::MAX {
            Some(ErrorCode::InvalidVotingPeriod)
        } else if !self.fits() {
            Some(ErrorCode::ArithmeticOverflow)
        } else {
            None
        }
    }

    /// The raiser's count of disputes stays within sixty-four bits.
    pub open spec fn fits(self) -> bool {
        self.raiser_user.disputes_raised < u64::MAX
    }

    /// The dispute that is raised at time `now`: open, without votes, with a
    /// voting window that starts now and lasts the voting period.
    pub open spec fn new_dispute(self, reason: Seq<char>, now: i64) -> DisputeView {
        DisputeView {
            raiser: self.authority,
            reason,
            status: DisputeStatus::Open,
            created_at: now,
            resolved_at: None,
            resolution: None,
            voting_start: now,
            voting_end: (now + VOTING_PERIOD) as i64,
            votes_for: 0,
            votes_against: 0,
            voters: Seq::<Principal>::empty(),
        }
    }

    /// What raising the dispute at time `now` makes of the records: the job
    /// is disputed and carries the new dispute, and the raiser counts one
    /// more dispute raised.
    pub open spec fn outcome(self, reason: Seq<char>, now: i64) -> RaiseDisputeView {
        RaiseDisputeView {
            job: JobView {
                status: JobStatus::Disputed,
                dispute: Some(self.new_dispute(reason, now)),
                updated_at: now,
                ..self.job
            },
            raiser_user: UserView {
                disputes_raised: (self.raiser_user.disputes_raised + 1) as u64,
                ..self.raiser_user
            },
            authority: self.authority,
        }
    }
}

/// A party of job `job_id` contests it: the job is disputed and voting opens.
pub fn raise_dispute(ctx: &mut RaiseDispute, job_id: u64, reason: String, now: i64) -> (r: Result<
    (),
    ErrorCode,
>)
    ensures
        match r {
            Ok(()) => {
                &&& old(ctx)@.rejection(job_id, reason@, now) is None
                &&& final(ctx)@ == old(ctx)@.outcome(reason@, now)
            },
            Err(e) => {
                &&& old(ctx)@.rejection(job_id, reason@, now) == Some(e)
                &&& *final(ctx) == *old(ctx)
            },
        },
        old(ctx).job.status.steps_to(final(ctx).job.status),
        final(ctx).job.total_paid == old(ctx).job.total_paid,
        old(ctx).job@.wf() ==> final(ctx).job@.wf(),
{
    if ctx.job.job_id != job_id {
        return Err(ErrorCode::NotFound);
    }
    let disputed = match &ctx.job.dispute {
        Some(dispute) => dispute.status == DisputeStatus::Open,
        None => false,
    };
    if disputed {
        return Err(ErrorCode::DisputeAlreadyExists);
    }
    if ctx.job.status != JobStatus::Open && ctx.job.status != JobStatus::InProgress {
        return Err(ErrorCode::JobNotInProgress);
    }
    if ctx.job.freelancer.is_none() {
        return Err(ErrorCode::NoFreelancerAssigned);
    }
    if ctx.job.client != ctx.authority && !is_some_of(&ctx.job.freelancer, &ctx.authority) {
        return Err(ErrorCode::UnauthorizedUser);
    }
    if ctx.raiser_user.authority != ctx.authority {
        return Err(ErrorCode::UnauthorizedUser);
    }
    if text_len(&reason) > MAX_REASON_LEN {
        return Err(ErrorCode::DescriptionTooLong);
    }
    if now > i64::MAX - VOTING_PERIOD {
        return Err(ErrorCode::InvalidVotingPeriod);
    }
    if ctx.raiser_user.disputes_raised == u64::MAX {
        return Err(ErrorCode::ArithmeticOverflow);
    }
    let dispute = Dispute {
        raiser: ctx.authority,
        reason,
        status: DisputeStatus::Open,
        created_at: now,
        resolved_at: None,
        resolution: None,
        voting_start: now,
        voting_end: now + VOTING_PERIOD,
        votes_for: 0,
        votes_against: 0,
        voters: Vec::new(),
    };
    ctx.job.status = JobStatus::Disputed;
    ctx.job.dispute = Some(dispute);
    ctx.job.updated_at = now;
    ctx.raiser_user.disputes_raised = ctx.raiser_user.disputes_raised + 1;
    Ok(())
}

impl VoteDisputeView {
    /// Why the vote is refused, if it is. The first failing test decides.
    pub open spec fn rejection(self, job_id: u64, support: bool, now: i64) -> Option<ErrorCode> {
        if self.job.job_id != job_id {
            Some(ErrorCode::NotFound)
        } else {
            match self.job.dispute {
                None => Some(ErrorCode::NoDispute),
                Some(dispute) => {
                    if dispute.status != DisputeStatus::Open {
                        Some(ErrorCode::DisputeNotOpen)
                    } else if now > dispute.voting_end {
                        Some(ErrorCode::VotingClosed)
                    } else if self.voter_user.authority != self.voter {
                        Some(ErrorCode::UnauthorizedUser)
                    } else if dispute.has_voted(self.voter) {
                        Some(ErrorCode::AlreadyVoted)
                    } else if self.voter == dispute.raiser || self.job.is_party(self.voter) {
                        Some(ErrorCode::CannotVoteOwnDispute)
                    } else if dispute.voters.len() >= MAX_VOTERS {
                        Some(ErrorCode::MaxVotersReached)
                    } else if !self.fits(support) {
                        Some(ErrorCode::ArithmeticOverflow)
                    } else {
                        None
                    }
                },
            }
        }
    }

    /// The count that the vote raises stays within sixty-four bits.
    pub open spec fn fits(self, support: bool) -> bool {
        self.job.dispute matches Some(dispute) ==> if support {
            dispute.votes_for < u64::MAX
        } else {
            dispute.votes_against < u64::MAX
        }
    }

    /// The dispute after the vote: one more vote on the side chosen, and the
    /// voter last in the list of voters.
    pub open spec fn dispute_after(self, support: bool) -> DisputeView
        recommends
            self.job.dispute is Some,
    {
        let dispute = self.job.dispute->0;
        DisputeView {
            votes_for: if support {
                (dispute.votes_for + 1) as u64
            } else {
                dispute.votes_for
            },
            votes_against: if support {
                dispute.votes_against
            } else {
                (dispute.votes_against + 1) as u64
            },
            voters: dispute.voters.push(self.voter),
            ..dispute
        }
    }

    /// What the vote makes of the records: the job carries the dispute with
    /// the vote counted; nothing else changes.
    pub open spec fn outcome(self, support: bool) -> VoteDisputeView
        recommends
            self.job.dispute is Some,
    {
        VoteDisputeView {
            job: JobView { dispute: Some(self.dispute_after(support)), ..self.job },
            ..self
        }
    }
}

/// A principal who is no party of job `job_id` votes on its dispute:
/// `support` is a vote for the side that raised it.
pub fn vote_dispute(ctx: &mut VoteDispute, job_id: u64, support: bool, now: i64) -> (r: Result<
    (),
    ErrorCode,
>)
    ensures
        match r {
            Ok(()) => {
                &&& old(ctx)@.rejection(job_id, support, now) is None
                &&& final(ctx)@ == old(ctx)@.outcome(support)
            },
            Err(e) => {
                &&& old(ctx)@.rejection(job_id, support, now) == Some(e)
                &&& *final(ctx) == *old(ctx)
            },
        },
        final(ctx).job.status == old(ctx).job.status,
        final(ctx).job.total_paid == old(ctx).job.total_paid,
        old(ctx).job@.wf() ==> final(ctx).job@.wf(),
{
    if ctx.job.job_id != job_id {
        return Err(ErrorCode::NotFound);
    }
    match &ctx.job.dispute {
        None => {
            return Err(ErrorCode::NoDispute);
        },
        Some(dispute) => {
            if dispute.status != DisputeStatus::Open {
                return Err(ErrorCode::DisputeNotOpen);
            }
            if now > dispute.voting_end {
                return Err(ErrorCode::VotingClosed);
            }
            if ctx.voter_user.authority != ctx.voter {
                return Err(ErrorCode::UnauthorizedUser);
            }
            if has_voted(&dispute.voters, &ctx.voter) {
                return Err(ErrorCode::AlreadyVoted);
            }
            if ctx.voter == dispute.raiser || ctx.voter == ctx.job.client || is_some_of(
                &ctx.job.freelancer,
                &ctx.voter,
            ) {
                return Err(ErrorCode::CannotVoteOwnDispute);
            }
            if dispute.voters.len() >= MAX_VOTERS {
                return Err(ErrorCode::MaxVotersReached);
            }
            if (support && dispute.votes_for == u64::MAX) || (!support && dispute.votes_against
                == u64::MAX) {
                return Err(ErrorCode::ArithmeticOverflow);
            }
        },
    }
    let mut dispute = ctx.job.dispute.take().unwrap();
    if support {
        dispute.votes_for = dispute.votes_for + 1;
    } else {
        dispute.votes_against = dispute.votes_against + 1;
    }
    dispute.voters.push(ctx.voter);
    ctx.job.dispute = Some(dispute);
    Ok(())
}

impl FinalizeDisputeView {
    /// Why settling the dispute is refused, if it is. The first failing test
    /// decides.
    pub open spec fn rejection(self, job_id: u64, now: i64) -> Option<ErrorCode> {
        if self.job.job_id != job_id {
            Some(ErrorCode::NotFound)
        } else {
            match self.job.dispute {
                None => Some(ErrorCode::NoDispute),
                Some(dispute) => {
                    if dispute.status != DisputeStatus::Open {
                        Some(ErrorCode::DisputeNotOpen)
                    } else if now <= dispute.voting_end {
                        Some(ErrorCode::VotingStillActive)
                    } else if self.job.freelancer is None {
                        Some(ErrorCode::NoFreelancerAssigned)
                    } else if !self.job.is_party(dispute.raiser) || self.raiser.owner
                        != dispute.raiser {
                        Some(ErrorCode::InvalidRaiserAccount)
                    } else if self.against.owner != self.job.other_party(dispute.raiser) {
                        Some(ErrorCode::InvalidAgainstAccount)
                    } else if self.raiser_user.authority != self.raiser.owner
                        || self.against_user.authority != self.against.owner {
                        Some(ErrorCode::InvalidRaiserUserAccount)
                    } else if self.escrow.job_id != job_id {
                        Some(ErrorCode::InvalidBump)
                    } else if self.job.total_paid != 0 {
                        Some(ErrorCode::AlreadyWithdrawn)
                    } else if !self.fits() {
                        Some(ErrorCode::ArithmeticOverflow)
                    } else {
                        None
                    }
                },
            }
        }
    }

    /// The side that raised the dispute has the majority. A tie goes to the
    /// other side.
    pub open spec fn raiser_prevails(self) -> bool
        recommends
            self.job.dispute is Some,
    {
        self.job.dispute->0.favours_raiser()
    }

    /// The principal the escrow goes to: the raiser with a majority, else the
    /// party the dispute is raised against.
    pub open spec fn payee(self) -> Principal {
        if self.raiser_prevails() {
            self.raiser.owner
        } else {
            self.against.owner
        }
    }

    /// The state the job ends in: cancelled where the funds go back to the
    /// client, completed where they go to the freelancer.
    pub open spec fn verdict(self) -> JobStatus {
        if self.payee() == self.job.client {
            JobStatus::Cancelled
        } else {
            JobStatus::Completed
        }
    }

    /// The wallet that is paid and the counters that settling moves stay
    /// within sixty-four bits.
    pub open spec fn fits(self) -> bool {
        &&& self.raiser_prevails() ==> self.raiser.balance + self.escrow.balance <= u64::MAX
        &&& !self.raiser_prevails() ==> self.against.balance + self.escrow.balance <= u64::MAX
        &&& self.raiser_user.disputes_resolved < u64::MAX
        &&& self.against_user.disputes_resolved < u64::MAX
    }

    /// What settling at time `now` makes of the records: all the escrow held
    /// has gone to the payee's wallet, the dispute is resolved, the job has
    /// ended in the state of the verdict, marked as paid out, and both
    /// parties count one more dispute resolved.
    pub open spec fn outcome(self, now: i64) -> FinalizeDisputeView
        recommends
            self.job.dispute is Some,
    {
        FinalizeDisputeView {
            job: JobView {
                status: self.verdict(),
                dispute: Some(
                    DisputeView {
                        status: DisputeStatus::Resolved,
                        resolved_at: Some(now),
                        ..self.job.dispute->0
                    },
                ),
                total_paid: self.job.budget,
                escrow: Principal::nobody(),
                updated_at: now,
                ..self.job
            },
            escrow: self.escrow.after_withdrawal(self.escrow.balance),
            raiser: if self.raiser_prevails() {
                self.raiser.credited(self.escrow.balance)
            } else {
                self.raiser
            },
            against: if self.raiser_prevails() {
                self.against
            } else {
                self.against.credited(self.escrow.balance)
            },
            raiser_user: UserView {
                disputes_resolved: (self.raiser_user.disputes_resolved + 1) as u64,
                ..self.raiser_user
            },
            against_user: UserView {
                disputes_resolved: (self.against_user.disputes_resolved + 1) as u64,
                ..self.against_user
            },
        }
    }
}

/// Settles the dispute of job `job_id` once voting has ended: the majority
/// decides who gets the escrow and how the job ends.
pub fn finalize_dispute(ctx: &mut FinalizeDispute, job_id: u64, now: i64) -> (r: Result<
    (),
    ErrorCode,
>)
    ensures
        match r {
            Ok(()) => {
                &&& old(ctx)@.rejection(job_id, now) is None
                &&& final(ctx)@ == old(ctx)@.outcome(now)
            },
            Err(e) => {
                &&& old(ctx)@.rejection(job_id, now) == Some(e)
                &&& *final(ctx) == *old(ctx)
            },
        },
        old(ctx).job@.wf() ==> old(ctx).job.status.steps_to(final(ctx).job.status),
        old(ctx).job.total_paid != 0 ==> final(ctx).job.total_paid == old(ctx).job.total_paid,
        old(ctx).job@.wf() ==> final(ctx).job@.wf(),
        old(ctx).escrow@.conserved() ==> final(ctx).escrow@.conserved(),
        r is Ok && old(ctx).escrow@.conserved() ==> final(ctx).escrow@.deposited
            == final(ctx).escrow@.withdrawn,
        final(ctx).raiser.balance + final(ctx).against.balance + final(ctx).escrow.balance
            == old(ctx).raiser.balance + old(ctx).against.balance + old(ctx).escrow.balance,
{
    if ctx.job.job_id != job_id {
        return Err(ErrorCode::NotFound);
    }
    let raiser_prevails;
    match &ctx.job.dispute {
        None => {
            return Err(ErrorCode::NoDispute);
        },
        Some(dispute) => {
            if dispute.status != DisputeStatus::Open {
                return Err(ErrorCode::DisputeNotOpen);
            }
            if now <= dispute.voting_end {
                return Err(ErrorCode::VotingStillActive);
            }
            match &ctx.job.freelancer {
                None => {
                    return Err(ErrorCode::NoFreelancerAssigned);
                },
                Some(freelancer) => {
                    let raised_by_client = dispute.raiser == ctx.job.client;
                    let raised_by_freelancer = dispute.raiser == *freelancer;
                    if !(raised_by_client || raised_by_freelancer) || ctx.raiser.owner
                        != dispute.raiser {
                        return Err(ErrorCode::InvalidRaiserAccount);
                    }
                    let other = if raised_by_client {
                        *freelancer
                    } else {
                        ctx.job.client
                    };
                    if ctx.against.owner != other {
                        return Err(ErrorCode::InvalidAgainstAccount);
                    }
                },
            }
            if ctx.raiser_user.authority != ctx.raiser.owner || ctx.against_user.authority
                != ctx.against.owner {
                return Err(ErrorCode::InvalidRaiserUserAccount);
            }
            if ctx.escrow.job_id != job_id {
                return Err(ErrorCode::InvalidBump);
            }
            if ctx.job.total_paid != 0 {
                return Err(ErrorCode::AlreadyWithdrawn);
            }
            raiser_prevails = dispute.votes_for > dispute.votes_against;
        },
    }
    let held = ctx.escrow.balance();
    if (raiser_prevails && held > u64::MAX - ctx.raiser.balance) || (!raiser_prevails && held
        > u64::MAX - ctx.against.balance) || ctx.raiser_user.disputes_resolved == u64::MAX
        || ctx.against_user.disputes_resolved == u64::MAX {
        return Err(ErrorCode::ArithmeticOverflow);
    }
    let verdict = if raiser_prevails {
        match ctx.escrow.withdraw(&mut ctx.job, &mut ctx.raiser, held) {
            Ok(()) => {},
            Err(e) => {
                return Err(e);
            },
        }
        if ctx.raiser.owner == ctx.job.client {
            JobStatus::Cancelled
        } else {
            JobStatus::Completed
        }
    } else {
        match ctx.escrow.withdraw(&mut ctx.job, &mut ctx.against, held) {
            Ok(()) => {},
            Err(e) => {
                return Err(e);
            },
        }
        if ctx.against.owner == ctx.job.client {
            JobStatus::Cancelled
        } else {
            JobStatus::Completed
        }
    };
    let mut dispute = ctx.job.dispute.take().unwrap();
    dispute.status = DisputeStatus::Resolved;
    dispute.resolved_at = Some(now);
    ctx.job.dispute = Some(dispute);
    ctx.job.status = verdict;
    ctx.job.updated_at = now;
    ctx.raiser_user.disputes_resolved = ctx.raiser_user.disputes_resolved + 1;
    ctx.against_user.disputes_resolved = ctx.against_user.disputes_resolved + 1;
    Ok(())
}

} // verus!
