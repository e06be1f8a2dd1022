//! Bids: a freelancer proposes a price for an open job.

use crate::contexts::{SubmitProposal, SubmitProposalView};
use crate::error::ErrorCode;
use crate::principal::Principal;
use crate::state::{has_bid_from, has_matching_bid, Bid, JobStatus, JobView, UserView, MAX_BIDS};
use vstd::prelude::*;

verus! {

/// Whether `who` has a bid among `bids`.
pub fn bid_exists(bids: &Vec<Bid>, who: &Principal) -> (found: bool)
    ensures
        found == has_bid_from(bids@, *who),
{
    let mut i: usize = 0;
    while i < bids.len()
        invariant
            i <= bids.len(),
            forall|k: int| 0 <= k < i ==> (#[trigger] bids@[k]).freelancer != *who,
        decreases bids.len() - i,
    {
        if bids[i].freelancer == *who {
            return true;
        }
        i += 1;
    }
    false
}

/// Whether `who` has bid exactly `amount` among `bids`.
pub fn matching_bid_exists(bids: &Vec<Bid>, who: &Principal, amount: u64) -> (found: bool)
    ensures
        found == has_matching_bid(bids@, *who, amount),
{
    let mut i: usize = 0;
    while i < bids.len()
        invariant
            i <= bids.len(),
            forall|k: int|
                0 <= k < i ==> !((#[trigger] bids@[k]).freelancer == *who
                    && bids@[k].proposed_amount == amount),
        decreases bids.len() - i,
    {
        if bids[i].freelancer == *who && bids[i].proposed_amount == amount {
            return true;
        }
        i += 1;
    }
    false
}

impl SubmitProposalView {
    /// Why the bid is refused, if it is. The first failing test decides.
    pub open spec fn rejection(self, job_id: u64, proposed_amount: u64) -> Option<ErrorCode> {
        if self.job.job_id != job_id {
            Some(ErrorCode::NotFound)
        } else if self.job.status != JobStatus::Open {
            Some(ErrorCode::JobNotOpen)
        } else if self.job.client == self.freelancer {
            Some(ErrorCode::CannotBidOwnJob)
        } else if self.user.authority != self.freelancer {
            Some(ErrorCode::UnauthorizedUser)
        } else if !self.user.is_freelancer {
            Some(ErrorCode::NotAFreelancer)
        } else if self.job.freelancer is Some {
            Some(ErrorCode::JobAlreadyAssigned)
        } else if has_bid_from(self.job.bidders, self.freelancer) {
            Some(ErrorCode::AlreadySubmittedBid)
        } else if proposed_amount == 0 {
            Some(ErrorCode::InvalidBidAmount)
        } else if self.job.bidders.len() >= MAX_BIDS {
            Some(ErrorCode::MaxBidsReached)
        } else if !self.fits() {
            Some(ErrorCode::ArithmeticOverflow)
        } else {
            None
        }
    }

    /// The freelancer's count of pending jobs stays within sixty-four bits.
    pub open spec fn fits(self) -> bool {
        self.user.pending_jobs < u64::MAX
    }

    /// What a bid at time `now` makes of the records: the bid stands last in
    /// the job's list and the freelancer counts one more pending job.
    pub open spec fn outcome(self, proposed_amount: u64, now: i64) -> SubmitProposalView {
        SubmitProposalView {
            job: JobView {
                bidders: self.job.bidders.push(
                    Bid { freelancer: self.freelancer, proposed_amount, timestamp: now },
                ),
                updated_at: now,
                ..self.job
            },
            user: UserView { pending_jobs: (self.user.pending_jobs + 1) as u64, ..self.user },
            freelancer: self.freelancer,
        }
    }
}

/// A freelancer bids `proposed_amount` on the open job `job_id`.
pub fn submit_proposal(ctx: &mut SubmitProposal, job_id: u64, proposed_amount: u64, now: i64) -> (r:
    Result<(), ErrorCode>)
    ensures
        match r {
            Ok(()) => {
                &&& old(ctx)@.rejection(job_id, proposed_amount) is None
                &&& final(ctx)@ == old(ctx)@.outcome(proposed_amount, now)
            },
            Err(e) => {
                &&& old(ctx)@.rejection(job_id, proposed_amount) == Some(e)
                &&& *final(ctx) == *old(ctx)
            },
        },
        final(ctx).job.status == old(ctx).job.status,
        final(ctx).job.total_paid == old(ctx).job.total_paid,
        old(ctx).job@.wf() ==> final(ctx).job@.wf(),
{
    if ctx.job.job_id != job_id {
        return Err(ErrorCode::NotFound);
    }
    if ctx.job.status != JobStatus::Open {
        return Err(ErrorCode::JobNotOpen);
    }
    if ctx.job.client == ctx.freelancer {
        return Err(ErrorCode::CannotBidOwnJob);
    }
    if ctx.user.authority != ctx.freelancer {
        return Err(ErrorCode::UnauthorizedUser);
    }
    if !ctx.user.is_freelancer {
        return Err(ErrorCode::NotAFreelancer);
    }
    if ctx.job.freelancer.is_some() {
        return Err(ErrorCode::JobAlreadyAssigned);
    }
    if bid_exists(&ctx.job.bidders, &ctx.freelancer) {
        return Err(ErrorCode::AlreadySubmittedBid);
    }
    if proposed_amount == 0 {
        return Err(ErrorCode::InvalidBidAmount);
    }
    if ctx.job.bidders.len() >= MAX_BIDS {
        return Err(ErrorCode::MaxBidsReached);
    }
    if ctx.user.pending_jobs == u64::MAX {
        return Err(ErrorCode::ArithmeticOverflow);
    }
    let bid = Bid { freelancer: ctx.freelancer, proposed_amount, timestamp: now };
    ctx.job.bidders.push(bid);
    ctx.job.updated_at = now;
    ctx.user.pending_jobs = ctx.user.pending_jobs + 1;
    Ok(())
}

} // verus!
