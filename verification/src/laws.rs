//! What holds of the operations, each proved from what the operations are
//! stated to refuse and to make of the records.

use crate::contexts::{
    AcceptWorkView, AssignJobView, CreateJobView, FinalizeDisputeView, RaiseDisputeView,
    RequestRevisionView, SubmitProposalView, SubmitWorkView, VoteDisputeView,
    WithdrawFromEscrowView,
};
use crate::error::ErrorCode;
use crate::escrow::EscrowView;
use crate::principal::Principal;
use crate::state::{DisputeStatus, JobStatus, JobView, MAX_VOTERS};
use vstd::prelude::*;

verus! {

/// Every move of the job state machine goes strictly forward, and no move
/// leaves a terminal state.
pub proof fn status_moves_forward(from: JobStatus, to: JobStatus)
    requires
        from.can_move_to(to),
    ensures
        from.rank() < to.rank(),
        !from.is_terminal(),
        !to.can_move_to(from),
{
}

/// However many steps a job takes, its status never comes back to an earlier
/// one: along any run of steps the rank does not fall, and a terminal status
/// once reached is kept.
pub proof fn status_never_returns(run: Seq<JobStatus>, i: int, j: int)
    requires
        forall|k: int| 0 <= k < run.len() - 1 ==> (#[trigger] run[k]).steps_to(run[k + 1]),
        0 <= i <= j < run.len(),
    ensures
        run[i].rank() <= run[j].rank(),
        run[i].is_terminal() ==> run[j] == run[i],
    decreases j - i,
{
    if i < j {
        status_never_returns(run, i, j - 1);
        assert(run[j - 1].steps_to(run[j - 1 + 1]));
    }
}

/// The only moves are those of the life of a job: from open to in progress,
/// from in progress to completed, and through a dispute to completed or
/// cancelled. Nothing skips from open to a terminal state.
pub proof fn status_moves_are_the_lifecycle(from: JobStatus, to: JobStatus)
    requires
        from.can_move_to(to),
    ensures
        from is Open ==> to is InProgress || to is Disputed,
        from is InProgress ==> to is Completed || to is Disputed,
        from is Disputed ==> to is Completed || to is Cancelled,
{
}

/// A well-formed job has paid out nothing or exactly its budget, and has
/// paid out only once it has ended.
pub proof fn paid_nothing_or_budget(job: JobView)
    requires
        job.wf(),
    ensures
        job.total_paid == 0 || job.total_paid == job.budget,
        job.total_paid != 0 ==> job.status.is_terminal(),
{
}

/// A payout happens once: after a payout that went through, any further
/// payout for the same job is refused as already withdrawn, whatever the
/// rating.
pub proof fn payout_happens_once(
    ctx: WithdrawFromEscrowView,
    job_id: u64,
    rating: u8,
    now: i64,
    next_rating: u8,
)
    requires
        ctx.job.wf(),
        ctx.rejection(job_id, rating) is None,
    ensures
        ctx.outcome(rating, now).job.total_paid == ctx.job.budget,
        ctx.outcome(rating, now).rejection(job_id, next_rating) == Some(
            ErrorCode::AlreadyWithdrawn,
        ),
{
}

/// An escrow that has kept its books and holds nothing has paid out all that
/// was ever paid in.
pub proof fn empty_escrow_is_settled(escrow: EscrowView)
    requires
        escrow.conserved(),
        escrow.balance == 0,
    ensures
        escrow.deposited == escrow.withdrawn,
{
}

/// Paying in and paying out keep the books of an escrow: after a deposit or
/// a withdrawal of no more than is held, what was paid in is still what was
/// paid out plus what is held.
pub proof fn escrow_keeps_its_books(escrow: EscrowView, amount: u64)
    requires
        escrow.conserved(),
    ensures
        escrow.balance + amount <= u64::MAX ==> escrow.after_deposit(amount).conserved(),
        amount <= escrow.balance ==> escrow.after_withdrawal(amount).conserved(),
        escrow.after_withdrawal(escrow.balance).deposited == escrow.after_withdrawal(
            escrow.balance,
        ).withdrawn,
{
}

/// A freelancer has at most one bid per job: after a bid that went through,
/// any further bid of the same freelancer on the same job is refused as
/// already submitted, whatever the amount.
pub proof fn second_bid_is_refused(
    ctx: SubmitProposalView,
    job_id: u64,
    amount: u64,
    now: i64,
    next_amount: u64,
)
    requires
        ctx.rejection(job_id, amount) is None,
    ensures
        ctx.outcome(amount, now).rejection(job_id, next_amount) == Some(
            ErrorCode::AlreadySubmittedBid,
        ),
{
    let bids = ctx.outcome(amount, now).job.bidders;
    assert(bids[bids.len() - 1].freelancer == ctx.freelancer);
}

/// A principal votes at most once on a dispute: after a vote that went
/// through, any further vote of the same principal is refused; as long as
/// voting is open, it is refused as already voted.
pub proof fn second_vote_is_refused(
    ctx: VoteDisputeView,
    job_id: u64,
    support: bool,
    now: i64,
    next_support: bool,
    next_now: i64,
)
    requires
        ctx.rejection(job_id, support, now) is None,
    ensures
        ctx.outcome(support).rejection(job_id, next_support, next_now) is Some,
        next_now <= ctx.job.dispute->0.voting_end ==> ctx.outcome(support).rejection(
            job_id,
            next_support,
            next_now,
        ) == Some(ErrorCode::AlreadyVoted),
{
    let voters = ctx.outcome(support).job.dispute->0.voters;
    assert(voters[voters.len() - 1] == ctx.voter);
}

/// A dispute takes a hundred votes and no more: a vote on an open dispute
/// that has a hundred voters, cast in time by a principal who may vote and
/// has not yet, is refused because the maximum is reached.
pub proof fn vote_beyond_the_hundredth_is_refused(
    ctx: VoteDisputeView,
    job_id: u64,
    support: bool,
    now: i64,
)
    requires
        ctx.job.job_id == job_id,
        ctx.job.dispute is Some,
        ctx.job.dispute->0.status is Open,
        now <= ctx.job.dispute->0.voting_end,
        ctx.voter_user.authority == ctx.voter,
        !ctx.job.dispute->0.has_voted(ctx.voter),
        ctx.voter != ctx.job.dispute->0.raiser,
        !ctx.job.is_party(ctx.voter),
        ctx.job.dispute->0.voters.len() >= MAX_VOTERS,
    ensures
        ctx.rejection(job_id, support, now) == Some(ErrorCode::MaxVotersReached),
{
}

/// Settling an open dispute while its voting window has not yet passed is
/// refused because voting is still active.
pub proof fn early_finalize_is_refused(ctx: FinalizeDisputeView, job_id: u64, now: i64)
    requires
        ctx.job.job_id == job_id,
        ctx.job.dispute is Some,
        ctx.job.dispute->0.status is Open,
        now <= ctx.job.dispute->0.voting_end,
    ensures
        ctx.rejection(job_id, now) == Some(ErrorCode::VotingStillActive),
{
}

/// A dispute is settled once: after a settlement that went through, any
/// further one is refused because the dispute is no longer open, whenever it
/// is tried.
pub proof fn second_finalize_is_refused(
    ctx: FinalizeDisputeView,
    job_id: u64,
    now: i64,
    next_now: i64,
)
    requires
        ctx.rejection(job_id, now) is None,
    ensures
        ctx.outcome(now).job.dispute->0.status == DisputeStatus::Resolved,
        ctx.outcome(now).rejection(job_id, next_now) == Some(ErrorCode::DisputeNotOpen),
{
}

/// The majority decides a dispute, and a tie goes against the side that
/// raised it: with more votes for than against the escrow goes to the raiser,
/// otherwise to the other party; the job is cancelled exactly when the funds
/// go back to the client, and completed otherwise.
pub proof fn majority_decides(ctx: FinalizeDisputeView, job_id: u64, now: i64)
    requires
        ctx.rejection(job_id, now) is None,
    ensures
        ctx.job.dispute->0.votes_for > ctx.job.dispute->0.votes_against ==> ctx.payee()
            == ctx.job.dispute->0.raiser,
        ctx.job.dispute->0.votes_for <= ctx.job.dispute->0.votes_against ==> ctx.payee()
            == ctx.job.other_party(ctx.job.dispute->0.raiser),
        ctx.outcome(now).job.status == JobStatus::Cancelled <==> ctx.payee() == ctx.job.client,
        ctx.outcome(now).job.status == JobStatus::Completed <==> ctx.payee() != ctx.job.client,
{
}

/// What one operation may make of a job: the same job, well formed if it was,
/// with its status kept or moved one step forward, and with what it has paid
/// out kept once that is not nothing.
pub open spec fn job_step(before: JobView, after: JobView) -> bool {
    &&& after.job_id == before.job_id
    &&& after.client == before.client
    &&& before.status.steps_to(after.status)
    &&& before.total_paid != 0 ==> after.total_paid == before.total_paid
    &&& before.wf() ==> after.wf()
}

/// Posting makes a well-formed open job, numbered by the counter, and moves
/// the counter on.
pub proof fn posting_makes_an_open_job(
    ctx: CreateJobView,
    title: Seq<char>,
    description: Seq<char>,
    budget: u64,
    deadline: i64,
    skills: Seq<String>,
    category: Seq<char>,
    now: i64,
)
    requires
        ctx.rejection(title, description, deadline, skills, category, now) is None,
    ensures
        ({
            let after = ctx.outcome(title, description, budget, deadline, skills, category, now);
            &&& after.job.wf()
            &&& after.job.status == JobStatus::Open
            &&& after.job.total_paid == 0
            &&& after.job.job_id == ctx.job_counter.count
            &&& after.job_counter.count == ctx.job_counter.count + 1
            &&& after.user.authority == ctx.authority
        }),
{
}

/// A bid that goes through is a step of the job.
pub proof fn bidding_is_a_step(ctx: SubmitProposalView, job_id: u64, amount: u64, now: i64)
    requires
        ctx.rejection(job_id, amount) is None,
    ensures
        job_step(ctx.job, ctx.outcome(amount, now).job),
        ctx.job.job_id == job_id,
        ctx.outcome(amount, now).user.authority == ctx.freelancer,
{
}

/// An assignment that goes through is a step of the job, and the escrow
/// keeps its books over it.
pub proof fn assigning_is_a_step(
    ctx: AssignJobView,
    job_id: u64,
    freelancer: Principal,
    bid_amount: u64,
    now: i64,
)
    requires
        ctx.rejection(job_id, freelancer, bid_amount) is None,
    ensures
        ({
            let after = ctx.outcome(freelancer, bid_amount, now);
            &&& job_step(ctx.job, after.job)
            &&& ctx.job.job_id == job_id
            &&& after.escrow.job_id == job_id
            &&& after.client.owner == ctx.client.owner
            &&& after.client_user.authority == ctx.client.owner
            &&& after.freelancer_user.authority == freelancer
            &&& ctx.escrow.conserved() ==> after.escrow.conserved()
            &&& after.client.balance + after.escrow.balance == ctx.client.balance
                + ctx.escrow.balance
        }),
{
}

/// Handing in work is a step of the job.
pub proof fn submitting_work_is_a_step(
    ctx: SubmitWorkView,
    job_id: u64,
    work_url: Seq<char>,
    work_description: Seq<char>,
    now: i64,
)
    requires
        ctx.rejection(job_id, work_url, work_description) is None,
    ensures
        job_step(ctx.job, ctx.outcome(work_url, work_description, now).job),
        ctx.job.job_id == job_id,
{
}

/// Asking for a revision is a step of the job.
pub proof fn requesting_revision_is_a_step(
    ctx: RequestRevisionView,
    job_id: u64,
    revision_description: Seq<char>,
    now: i64,
)
    requires
        ctx.rejection(job_id, revision_description) is None,
    ensures
        job_step(ctx.job, ctx.outcome(revision_description, now).job),
        ctx.job.job_id == job_id,
{
}

/// Accepting the work is a step of the job.
pub proof fn accepting_is_a_step(ctx: AcceptWorkView, job_id: u64, rating: u8, now: i64)
    requires
        ctx.rejection(job_id, rating) is None,
    ensures
        ({
            let after = ctx.outcome(rating, now);
            &&& job_step(ctx.job, after.job)
            &&& ctx.job.job_id == job_id
            &&& after.client_user.authority == ctx.client
            &&& ctx.job.freelancer == Some(after.freelancer_user.authority)
        }),
{
}

/// The payout is a step of the job; it empties the escrow, which keeps its
/// books over it and has then paid out all that was paid in.
pub proof fn paying_out_is_a_step(ctx: WithdrawFromEscrowView, job_id: u64, rating: u8, now: i64)
    requires
        ctx.rejection(job_id, rating) is None,
    ensures
        ({
            let after = ctx.outcome(rating, now);
            &&& job_step(ctx.job, after.job)
            &&& ctx.job.job_id == job_id
            &&& after.escrow.job_id == job_id
            &&& after.escrow.balance == 0
            &&& after.freelancer.owner == ctx.freelancer.owner
            &&& after.freelancer_user.authority == ctx.freelancer.owner
            &&& after.client_user.authority == ctx.job.client
            &&& ctx.escrow.conserved() ==> after.escrow.conserved() && after.escrow.deposited
                == after.escrow.withdrawn
            &&& after.freelancer.balance + after.escrow.balance == ctx.freelancer.balance
                + ctx.escrow.balance
        }),
{
}

/// Raising a dispute is a step of the job.
pub proof fn raising_a_dispute_is_a_step(
    ctx: RaiseDisputeView,
    job_id: u64,
    reason: Seq<char>,
    now: i64,
)
    requires
        ctx.rejection(job_id, reason, now) is None,
    ensures
        job_step(ctx.job, ctx.outcome(reason, now).job),
        ctx.job.job_id == job_id,
        ctx.outcome(reason, now).raiser_user.authority == ctx.authority,
{
}

/// A vote is a step of the job.
pub proof fn voting_is_a_step(ctx: VoteDisputeView, job_id: u64, support: bool, now: i64)
    requires
        ctx.rejection(job_id, support, now) is None,
    ensures
        job_step(ctx.job, ctx.outcome(support).job),
        ctx.job.job_id == job_id,
{
    let before = ctx.job.dispute->0;
    let after = ctx.dispute_after(support);
    if ctx.job.wf() {
        assert(after.voters.no_duplicates()) by {
            assert forall|i: int, j: int|
                0 <= i < after.voters.len() && 0 <= j < after.voters.len() && i != j implies
                after.voters[i] != after.voters[j] by {
                if i < before.voters.len() && j < before.voters.len() {
                    assert(before.voters[i] != before.voters[j]);
                } else if i < before.voters.len() {
                    assert(before.voters.contains(before.voters[i]));
                } else if j < before.voters.len() {
                    assert(before.voters.contains(before.voters[j]));
                }
            }
        }
        assert(!after.voters.contains(after.raiser)) by {
            if after.voters.contains(after.raiser) {
                let i = choose|i: int|
                    0 <= i < after.voters.len() && after.voters[i] == after.raiser;
                if i < before.voters.len() {
                    assert(before.voters.contains(before.voters[i]));
                }
            }
        }
    }
}

/// Settling a dispute is a step of a well-formed job; it empties the escrow,
/// which keeps its books over it and has then paid out all that was paid in.
pub proof fn settling_is_a_step(ctx: FinalizeDisputeView, job_id: u64, now: i64)
    requires
        ctx.rejection(job_id, now) is None,
        ctx.job.wf(),
    ensures
        ({
            let after = ctx.outcome(now);
            &&& job_step(ctx.job, after.job)
            &&& ctx.job.job_id == job_id
            &&& after.escrow.job_id == job_id
            &&& after.escrow.balance == 0
            &&& after.raiser.owner == ctx.raiser.owner
            &&& after.against.owner == ctx.against.owner
            &&& after.raiser_user.authority == ctx.raiser.owner
            &&& after.against_user.authority == ctx.against.owner
            &&& ctx.escrow.conserved() ==> after.escrow.conserved() && after.escrow.deposited
                == after.escrow.withdrawn
            &&& after.raiser.balance + after.against.balance + after.escrow.balance
                == ctx.raiser.balance + ctx.against.balance + ctx.escrow.balance
        }),
{
}

} // verus!
