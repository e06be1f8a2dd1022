use backend::bidding::submit_proposal;
use backend::contexts::{
    AcceptWork, AssignJob, CreateJob, DeleteJob, FinalizeDispute, Initialize, RaiseDispute,
    RequestRevision, SubmitProposal, SubmitWork, VoteDispute, WithdrawFromEscrow,
};
use backend::dispute::{finalize_dispute, raise_dispute, vote_dispute};
use backend::error::ErrorCode;
use backend::escrow::{Escrow, Wallet};
use backend::lifecycle::{
    accept_work, assign_job, create_job, delete_job, request_revision, submit_work,
    withdraw_from_escrow,
};
use backend::principal::Principal;
use backend::state::{DisputeStatus, Job, JobCounter, JobStatus, User, VOTING_PERIOD};
use backend::users::register_user;

const DAY: i64 = 86_400;

fn principal(tag: u8) -> Principal {
    Principal::new([tag; 32])
}

fn text(len: usize) -> String {
    "x".repeat(len)
}

fn user(who: Principal, is_client: bool, is_freelancer: bool) -> User {
    let mut ctx = Initialize { user: User::blank(), authority: who };
    assert_eq!(register_user(&mut ctx, "someone".to_string(), is_client, is_freelancer, None, 1), Ok(()));
    ctx.user
}

/// An open job numbered `job_id`, posted by `client` with budget 1000.
fn open_job(client: Principal, job_id: u64) -> Job {
    let mut ctx = CreateJob {
        job: Job::blank(),
        job_counter: JobCounter { count: job_id },
        authority: client,
        user: user(client, true, false),
    };
    assert_eq!(
        create_job(
            &mut ctx,
            "title".to_string(),
            "description".to_string(),
            1000,
            1_000 + DAY,
            vec![],
            "category".to_string(),
            1_000,
        ),
        Ok(())
    );
    ctx.job
}

/// The job with a bid of `amount` by `freelancer` added.
fn with_bid(job: Job, freelancer: Principal, amount: u64) -> Job {
    let job_id = job.job_id;
    let mut ctx = SubmitProposal { job, user: user(freelancer, false, true), freelancer };
    assert_eq!(submit_proposal(&mut ctx, job_id, amount, 1_100), Ok(()));
    ctx.job
}

/// Job 7 of client 1, in progress for freelancer 2 at 900, with the escrow
/// that holds the 900.
fn job_in_progress() -> (Job, Escrow) {
    let client = principal(1);
    let freelancer = principal(2);
    let job = with_bid(open_job(client, 7), freelancer, 900);
    let mut client_user = user(client, true, false);
    client_user.active_jobs = 1;
    let mut ctx = AssignJob {
        job,
        client: Wallet::new(client, 900),
        client_user,
        freelancer_user: user(freelancer, false, true),
        escrow: Escrow::new(principal(70), 7),
    };
    assert_eq!(assign_job(&mut ctx, 7, freelancer, 900, 1_200), Ok(()));
    (ctx.job, ctx.escrow)
}

/// The job of `job_in_progress` with work handed in.
fn job_with_work() -> (Job, Escrow) {
    let (job, escrow) = job_in_progress();
    let freelancer = principal(2);
    let mut ctx = SubmitWork { job, freelancer_user: user(freelancer, false, true), freelancer };
    assert_eq!(
        submit_work(&mut ctx, 7, "https://example.org/work".to_string(), "done".to_string(), 1_300),
        Ok(())
    );
    (ctx.job, escrow)
}

/// The job of `job_with_work`, accepted and so completed.
fn job_completed() -> (Job, Escrow) {
    let (job, escrow) = job_with_work();
    let client = principal(1);
    let mut client_user = user(client, true, false);
    client_user.pending_jobs = 1;
    let mut freelancer_user = user(principal(2), false, true);
    freelancer_user.pending_jobs = 1;
    let mut ctx = AcceptWork { job, client_user, freelancer_user, client };
    assert_eq!(accept_work(&mut ctx, 7, 5, 1_400), Ok(()));
    (ctx.job, escrow)
}

/// The job of `job_in_progress` with a dispute raised by the client at time
/// 10 000.
fn job_disputed() -> (Job, Escrow) {
    let (job, escrow) = job_in_progress();
    let client = principal(1);
    let mut ctx = RaiseDispute { job, raiser_user: user(client, true, false), authority: client };
    assert_eq!(raise_dispute(&mut ctx, 7, "late".to_string(), 10_000), Ok(()));
    (ctx.job, escrow)
}

fn vote(job: Job, voter: Principal, support: bool, now: i64) -> (Job, Result<(), ErrorCode>) {
    let mut ctx = VoteDispute { job, voter_user: user(voter, false, false), voter };
    let r = vote_dispute(&mut ctx, 7, support, now);
    (ctx.job, r)
}

fn settle_ctx(job: Job, escrow: Escrow) -> FinalizeDispute {
    FinalizeDispute {
        job,
        escrow,
        raiser: Wallet::new(principal(1), 100),
        against: Wallet::new(principal(2), 40),
        raiser_user: user(principal(1), true, false),
        against_user: user(principal(2), false, true),
    }
}

fn snapshot(job: &Job) -> String {
    format!("{:?}", job)
}

fn raise_ctx(job: Job, raiser: Principal) -> RaiseDispute {
    RaiseDispute { job, raiser_user: user(raiser, true, true), authority: raiser }
}

#[test]
fn raise_dispute_opens_the_vote() {
    let (job, _) = job_in_progress();
    let mut ctx = raise_ctx(job, principal(2));
    assert_eq!(raise_dispute(&mut ctx, 7, text(500), 10_000), Ok(()));
    assert_eq!(ctx.job.status, JobStatus::Disputed);
    assert_eq!(ctx.job.updated_at, 10_000);
    assert_eq!(ctx.raiser_user.disputes_raised, 1);
    let dispute = ctx.job.dispute.as_ref().unwrap();
    assert_eq!(dispute.raiser, principal(2));
    assert_eq!(dispute.reason, text(500));
    assert_eq!(dispute.status, DisputeStatus::Open);
    assert_eq!(dispute.created_at, 10_000);
    assert_eq!(dispute.resolved_at, None);
    assert_eq!(dispute.resolution, None);
    assert_eq!(dispute.voting_start, 10_000);
    assert_eq!(dispute.voting_end, 10_000 + VOTING_PERIOD);
    assert_eq!(VOTING_PERIOD, 3 * DAY);
    assert_eq!(dispute.votes_for, 0);
    assert_eq!(dispute.votes_against, 0);
    assert!(dispute.voters.is_empty());
}

#[test]
fn raise_dispute_refusals_in_order() {
    let client = principal(1);
    let mut ctx = raise_ctx(job_in_progress().0, client);
    assert_eq!(raise_dispute(&mut ctx, 8, text(501), i64::MAX), Err(ErrorCode::NotFound));

    let mut ctx = raise_ctx(job_disputed().0, principal(3));
    let before = snapshot(&ctx.job);
    assert_eq!(raise_dispute(&mut ctx, 7, text(501), i64::MAX), Err(ErrorCode::DisputeAlreadyExists));
    assert_eq!(snapshot(&ctx.job), before);

    let mut ctx = raise_ctx(job_completed().0, principal(3));
    assert_eq!(raise_dispute(&mut ctx, 7, text(501), i64::MAX), Err(ErrorCode::JobNotInProgress));

    let mut ctx = raise_ctx(open_job(client, 7), client);
    assert_eq!(raise_dispute(&mut ctx, 7, text(501), i64::MAX), Err(ErrorCode::NoFreelancerAssigned));

    let mut ctx = raise_ctx(job_in_progress().0, principal(3));
    assert_eq!(raise_dispute(&mut ctx, 7, text(501), i64::MAX), Err(ErrorCode::UnauthorizedUser));

    let mut ctx = raise_ctx(job_in_progress().0, client);
    ctx.raiser_user = user(principal(3), true, false);
    assert_eq!(raise_dispute(&mut ctx, 7, text(501), i64::MAX), Err(ErrorCode::UnauthorizedUser));

    let mut ctx = raise_ctx(job_in_progress().0, client);
    assert_eq!(raise_dispute(&mut ctx, 7, text(501), i64::MAX), Err(ErrorCode::DescriptionTooLong));
    assert_eq!(raise_dispute(&mut ctx, 7, text(500), i64::MAX), Err(ErrorCode::InvalidVotingPeriod));
    assert_eq!(
        raise_dispute(&mut ctx, 7, text(500), i64::MAX - VOTING_PERIOD + 1),
        Err(ErrorCode::InvalidVotingPeriod)
    );
    assert_eq!(ctx.job.status, JobStatus::InProgress);
    assert!(ctx.job.dispute.is_none());
    assert_eq!(ctx.raiser_user.disputes_raised, 0);
    assert_eq!(raise_dispute(&mut ctx, 7, text(500), i64::MAX - VOTING_PERIOD), Ok(()));
    assert_eq!(ctx.job.dispute.as_ref().unwrap().voting_end, i64::MAX);
}

#[test]
fn vote_dispute_refusals_in_order() {
    let (job, _) = job_in_progress();
    let (job, r) = vote(job, principal(20), true, 5);
    assert_eq!(r, Err(ErrorCode::NoDispute));
    let mut ctx = VoteDispute { job, voter_user: user(principal(20), false, false), voter: principal(20) };
    assert_eq!(vote_dispute(&mut ctx, 8, true, 5), Err(ErrorCode::NotFound));

    let (mut job, _) = job_disputed();
    job.dispute.as_mut().unwrap().status = DisputeStatus::Resolved;
    let (_, r) = vote(job, principal(20), true, 10_000 + VOTING_PERIOD + 1);
    assert_eq!(r, Err(ErrorCode::DisputeNotOpen));

    let (job, _) = job_disputed();
    let (job, r) = vote(job, principal(1), true, 10_000 + VOTING_PERIOD + 1);
    assert_eq!(r, Err(ErrorCode::VotingClosed));

    let mut ctx = VoteDispute { job, voter_user: user(principal(21), false, false), voter: principal(20) };
    assert_eq!(vote_dispute(&mut ctx, 7, true, 10_001), Err(ErrorCode::UnauthorizedUser));

    // The raiser (the client) and the freelancer may not vote.
    let (job, r) = vote(ctx.job, principal(1), true, 10_001);
    assert_eq!(r, Err(ErrorCode::CannotVoteOwnDispute));
    let (job, r) = vote(job, principal(2), false, 10_001);
    assert_eq!(r, Err(ErrorCode::CannotVoteOwnDispute));

    // The last moment of the window still counts.
    let (job, r) = vote(job, principal(20), true, 10_000 + VOTING_PERIOD);
    assert_eq!(r, Ok(()));
    let before = snapshot(&job);
    let (job, r) = vote(job, principal(20), false, 10_001);
    assert_eq!(r, Err(ErrorCode::AlreadyVoted));
    assert_eq!(snapshot(&job), before);
    let dispute = job.dispute.as_ref().unwrap();
    assert_eq!(dispute.votes_for, 1);
    assert_eq!(dispute.votes_against, 0);
    assert_eq!(dispute.voters, vec![principal(20)]);
    assert_eq!(job.status, JobStatus::Disputed);
}

#[test]
fn the_hundred_and_first_vote_is_refused() {
    let (mut job, _) = job_disputed();
    for tag in 0..100u8 {
        let (next, r) = vote(job, principal(100 + tag), tag % 3 == 0, 10_001);
        assert_eq!(r, Ok(()));
        job = next;
    }
    {
        let dispute = job.dispute.as_ref().unwrap();
        assert_eq!(dispute.voters.len(), 100);
        assert_eq!(dispute.votes_for, 34);
        assert_eq!(dispute.votes_against, 66);
    }
    let before = snapshot(&job);
    let (job, r) = vote(job, principal(50), true, 10_001);
    assert_eq!(r, Err(ErrorCode::MaxVotersReached));
    assert_eq!(snapshot(&job), before);
    // One who has voted is told so, also when the list is full.
    let (_, r) = vote(job, principal(100), true, 10_001);
    assert_eq!(r, Err(ErrorCode::AlreadyVoted));
}

#[test]
fn finalize_dispute_refusals_in_order() {
    let after = 10_000 + VOTING_PERIOD + 1;

    let (job, escrow) = job_in_progress();
    let mut ctx = settle_ctx(job, escrow);
    assert_eq!(finalize_dispute(&mut ctx, 8, after), Err(ErrorCode::NotFound));
    assert_eq!(finalize_dispute(&mut ctx, 7, after), Err(ErrorCode::NoDispute));

    let (mut job, escrow) = job_disputed();
    job.dispute.as_mut().unwrap().status = DisputeStatus::Rejected;
    let mut ctx = settle_ctx(job, escrow);
    assert_eq!(finalize_dispute(&mut ctx, 7, 10_000), Err(ErrorCode::DisputeNotOpen));

    let (mut job, escrow) = job_disputed();
    job.freelancer = None;
    let mut ctx = settle_ctx(job, escrow);
    assert_eq!(finalize_dispute(&mut ctx, 7, 10_000), Err(ErrorCode::VotingStillActive));
    assert_eq!(finalize_dispute(&mut ctx, 7, after), Err(ErrorCode::NoFreelancerAssigned));

    let (job, escrow) = job_disputed();
    let mut ctx = settle_ctx(job, escrow);
    ctx.raiser = Wallet::new(principal(2), 0);
    assert_eq!(finalize_dispute(&mut ctx, 7, after), Err(ErrorCode::InvalidRaiserAccount));

    let (mut job, escrow) = job_disputed();
    job.dispute.as_mut().unwrap().raiser = principal(3);
    let mut ctx = settle_ctx(job, escrow);
    ctx.raiser = Wallet::new(principal(3), 0);
    assert_eq!(finalize_dispute(&mut ctx, 7, after), Err(ErrorCode::InvalidRaiserAccount));

    let (job, escrow) = job_disputed();
    let mut ctx = settle_ctx(job, escrow);
    ctx.against = Wallet::new(principal(3), 0);
    assert_eq!(finalize_dispute(&mut ctx, 7, after), Err(ErrorCode::InvalidAgainstAccount));

    let (job, escrow) = job_disputed();
    let mut ctx = settle_ctx(job, escrow);
    ctx.raiser_user = user(principal(3), true, false);
    assert_eq!(finalize_dispute(&mut ctx, 7, after), Err(ErrorCode::InvalidRaiserUserAccount));

    let (job, escrow) = job_disputed();
    let mut ctx = settle_ctx(job, escrow);
    ctx.against_user = user(principal(3), true, false);
    assert_eq!(finalize_dispute(&mut ctx, 7, after), Err(ErrorCode::InvalidRaiserUserAccount));

    let (job, _) = job_disputed();
    let mut ctx = settle_ctx(job, Escrow::holding(principal(70), 8, 900));
    assert_eq!(finalize_dispute(&mut ctx, 7, after), Err(ErrorCode::InvalidBump));

    let (mut job, escrow) = job_disputed();
    job.total_paid = 900;
    let mut ctx = settle_ctx(job, escrow);
    let before = snapshot(&ctx.job);
    assert_eq!(finalize_dispute(&mut ctx, 7, after), Err(ErrorCode::AlreadyWithdrawn));
    assert_eq!(snapshot(&ctx.job), before);
    assert_eq!(ctx.escrow.balance(), 900);
    assert_eq!(ctx.raiser.balance, 100);
    assert_eq!(ctx.against.balance, 40);
    assert_eq!(ctx.raiser_user.disputes_resolved, 0);
    assert_eq!(ctx.against_user.disputes_resolved, 0);
}

/// Settles the dispute of `job_disputed` after the given votes for and
/// against the raiser.
fn settled(votes_for: u8, votes_against: u8) -> FinalizeDispute {
    let (mut job, escrow) = job_disputed();
    for tag in 0..votes_for {
        job = vote(job, principal(100 + tag), true, 10_001).0;
    }
    for tag in 0..votes_against {
        job = vote(job, principal(150 + tag), false, 10_001).0;
    }
    let mut ctx = settle_ctx(job, escrow);
    assert_eq!(finalize_dispute(&mut ctx, 7, 10_000 + VOTING_PERIOD + 1), Ok(()));
    ctx
}

#[test]
fn a_majority_for_the_client_refunds_the_client() {
    let ctx = settled(2, 1);
    assert_eq!(ctx.job.status, JobStatus::Cancelled);
    assert_eq!(ctx.raiser.balance, 1_000);
    assert_eq!(ctx.against.balance, 40);
    assert_eq!(ctx.escrow.balance(), 0);
    assert_eq!(ctx.job.total_paid, 900);
    assert!(ctx.job.escrow.is_nobody());
    assert_eq!(ctx.raiser_user.disputes_resolved, 1);
    assert_eq!(ctx.against_user.disputes_resolved, 1);
    let dispute = ctx.job.dispute.as_ref().unwrap();
    assert_eq!(dispute.status, DisputeStatus::Resolved);
    assert_eq!(dispute.resolved_at, Some(10_000 + VOTING_PERIOD + 1));
    assert_eq!(dispute.votes_for, 2);
    assert_eq!(dispute.votes_against, 1);
}

#[test]
fn a_tie_goes_against_the_raiser() {
    let ctx = settled(2, 2);
    assert_eq!(ctx.job.status, JobStatus::Completed);
    assert_eq!(ctx.raiser.balance, 100);
    assert_eq!(ctx.against.balance, 940);
    let ctx = settled(0, 0);
    assert_eq!(ctx.job.status, JobStatus::Completed);
    assert_eq!(ctx.against.balance, 940);
}

#[test]
fn a_dispute_raised_by_the_freelancer() {
    let win = |votes_for: u8, votes_against: u8| {
        let (job, escrow) = job_in_progress();
        let mut raise = raise_ctx(job, principal(2));
        assert_eq!(raise_dispute(&mut raise, 7, "unpaid".to_string(), 10_000), Ok(()));
        let mut job = raise.job;
        for tag in 0..votes_for {
            job = vote(job, principal(100 + tag), true, 10_001).0;
        }
        for tag in 0..votes_against {
            job = vote(job, principal(150 + tag), false, 10_001).0;
        }
        let mut ctx = FinalizeDispute {
            job,
            escrow,
            raiser: Wallet::new(principal(2), 40),
            against: Wallet::new(principal(1), 100),
            raiser_user: user(principal(2), false, true),
            against_user: user(principal(1), true, false),
        };
        assert_eq!(finalize_dispute(&mut ctx, 7, 10_000 + VOTING_PERIOD + 1), Ok(()));
        ctx
    };
    let ctx = win(3, 2);
    assert_eq!(ctx.job.status, JobStatus::Completed);
    assert_eq!(ctx.raiser.balance, 940);
    assert_eq!(ctx.against.balance, 100);
    let ctx = win(2, 3);
    assert_eq!(ctx.job.status, JobStatus::Cancelled);
    assert_eq!(ctx.raiser.balance, 40);
    assert_eq!(ctx.against.balance, 1_000);
}

#[test]
fn no_payout_after_a_settled_dispute() {
    let ctx = settled(0, 1);
    assert_eq!(ctx.job.status, JobStatus::Completed);
    let mut payout = WithdrawFromEscrow {
        job: ctx.job,
        freelancer_user: ctx.against_user,
        client_user: ctx.raiser_user,
        escrow: ctx.escrow,
        freelancer: ctx.against,
    };
    assert_eq!(withdraw_from_escrow(&mut payout, 7, 5, 99_999_999), Err(ErrorCode::AlreadyWithdrawn));
    assert_eq!(payout.freelancer.balance, 940);

    // No new dispute on a job that has ended.
    let mut again = raise_ctx(payout.job, principal(1));
    assert_eq!(raise_dispute(&mut again, 7, "again".to_string(), 99_999_999), Err(ErrorCode::JobNotInProgress));
    assert_eq!(again.job.status, JobStatus::Completed);
}

#[test]
fn dispute_counters_do_not_wrap() {
    let mut ctx = raise_ctx(job_in_progress().0, principal(1));
    ctx.raiser_user.disputes_raised = u64::MAX;
    assert_eq!(raise_dispute(&mut ctx, 7, text(1), 10_000), Err(ErrorCode::ArithmeticOverflow));
    assert_eq!(ctx.job.status, JobStatus::InProgress);

    let (mut job, _) = job_disputed();
    job.dispute.as_mut().unwrap().votes_for = u64::MAX;
    let (job, r) = vote(job, principal(20), true, 10_001);
    assert_eq!(r, Err(ErrorCode::ArithmeticOverflow));
    assert!(job.dispute.as_ref().unwrap().voters.is_empty());
    let (job, r) = vote(job, principal(20), false, 10_001);
    assert_eq!(r, Ok(()));
    assert_eq!(job.dispute.as_ref().unwrap().votes_against, 1);

    let (job, escrow) = job_disputed();
    let mut ctx = settle_ctx(job, escrow);
    ctx.against = Wallet::new(principal(2), u64::MAX - 899);
    assert_eq!(finalize_dispute(&mut ctx, 7, 10_001 + VOTING_PERIOD), Err(ErrorCode::ArithmeticOverflow));
    assert_eq!(ctx.job.status, JobStatus::Disputed);
    assert_eq!(ctx.escrow.balance(), 900);
    // The wallet that is not paid may be full.
    let (job, escrow) = job_disputed();
    let mut ctx = settle_ctx(job, escrow);
    ctx.raiser = Wallet::new(principal(1), u64::MAX);
    assert_eq!(finalize_dispute(&mut ctx, 7, 10_001 + VOTING_PERIOD), Ok(()));
    assert_eq!(ctx.raiser.balance, u64::MAX);
    assert_eq!(ctx.against.balance, 940);
}
