//! The dispute operations of a marketplace.

use crate::contexts::{
    FinalizeDispute, FinalizeDisputeView, RaiseDispute, RaiseDisputeView, VoteDispute,
    VoteDisputeView,
};
use crate::dispute::{finalize_dispute, raise_dispute, vote_dispute};
use crate::error::{reports, ErrorCode};
use crate::keys::AccountKey;
use crate::market::accounts::{
    escrow_or_new, job_or_other, put, sound, take_escrow, take_job, take_user, take_wallet,
    user_or_stranger, wallet_at, with_escrow, with_job, with_user, with_wallet, Accounts,
};
use crate::market::job_ops::{assigned_to, assignee};
use crate::principal::Principal;
use crate::state::{Job, JobView};
use crate::store::{Account, AccountStore};
use vstd::prelude::*;

verus! {

/// The records that raising a dispute on job `job_id` works on: the job and
/// the raiser's user record.
pub open spec fn raise_dispute_records(
    accounts: Accounts,
    raiser: Principal,
    job_id: u64,
) -> RaiseDisputeView {
    RaiseDisputeView {
        job: job_or_other(accounts, job_id),
        raiser_user: user_or_stranger(accounts, raiser),
        authority: raiser,
    }
}

/// Why raising a dispute on job `job_id` is refused, if it is.
pub open spec fn raise_dispute_refusal(
    accounts: Accounts,
    raiser: Principal,
    job_id: u64,
    reason: Seq<char>,
    now: i64,
) -> Option<ErrorCode> {
    raise_dispute_records(accounts, raiser, job_id).rejection(job_id, reason, now)
}

/// The records after raising a dispute on job `job_id` at time `now`: as
/// before where it is refused, and otherwise with the job and the raiser's
/// user record as the dispute leaves them.
pub open spec fn raise_dispute_after(
    accounts: Accounts,
    raiser: Principal,
    job_id: u64,
    reason: Seq<char>,
    now: i64,
) -> Accounts {
    if raise_dispute_refusal(accounts, raiser, job_id, reason, now) is Some {
        accounts
    } else {
        let after = raise_dispute_records(accounts, raiser, job_id).outcome(reason, now);
        with_user(with_job(accounts, after.job), after.raiser_user)
    }
}

/// The operation `raise_dispute` of a marketplace, on its store.
pub(crate) fn raise_dispute_on(
    store: &mut AccountStore,
    raiser: Principal,
    job_id: u64,
    reason: String,
    now: i64,
) -> (r: Result<(), ErrorCode>)
    requires
        sound(old(store)@),
    ensures
        reports(r, raise_dispute_refusal(old(store)@, raiser, job_id, reason@, now)),
        final(store)@ == raise_dispute_after(old(store)@, raiser, job_id, reason@, now),
        sound(final(store)@),
{
    let ghost before = store@;
    let (job, had_job) = take_job(store, job_id);
    let (raiser_user, had_user) = take_user(store, &raiser);
    let mut ctx = RaiseDispute { job, raiser_user, authority: raiser };
    let r = raise_dispute(&mut ctx, job_id, reason, now);
    if had_job {
        put(store, Account::Job(ctx.job));
    }
    if had_user {
        put(store, Account::User(ctx.raiser_user));
    }
    assert(store@ =~= raise_dispute_after(before, raiser, job_id, reason@, now));
    r
}

/// The records that a vote on the dispute of job `job_id` works on: the job
/// and the voter's user record.
pub open spec fn vote_dispute_records(
    accounts: Accounts,
    voter: Principal,
    job_id: u64,
) -> VoteDisputeView {
    VoteDisputeView {
        job: job_or_other(accounts, job_id),
        voter_user: user_or_stranger(accounts, voter),
        voter,
    }
}

/// Why a vote on the dispute of job `job_id` is refused, if it is.
pub open spec fn vote_dispute_refusal(
    accounts: Accounts,
    voter: Principal,
    job_id: u64,
    support: bool,
    now: i64,
) -> Option<ErrorCode> {
    vote_dispute_records(accounts, voter, job_id).rejection(job_id, support, now)
}

/// The records after a vote on the dispute of job `job_id`: as before where
/// it is refused, and otherwise with the job as the vote leaves it.
pub open spec fn vote_dispute_after(
    accounts: Accounts,
    voter: Principal,
    job_id: u64,
    support: bool,
    now: i64,
) -> Accounts {
    if vote_dispute_refusal(accounts, voter, job_id, support, now) is Some {
        accounts
    } else {
        let after = vote_dispute_records(accounts, voter, job_id).outcome(support);
        with_job(accounts, after.job)
    }
}

/// The operation `vote_dispute` of a marketplace, on its store.
pub(crate) fn vote_dispute_on(
    store: &mut AccountStore,
    voter: Principal,
    job_id: u64,
    support: bool,
    now: i64,
) -> (r: Result<(), ErrorCode>)
    requires
        sound(old(store)@),
    ensures
        reports(r, vote_dispute_refusal(old(store)@, voter, job_id, support, now)),
        final(store)@ == vote_dispute_after(old(store)@, voter, job_id, support, now),
        sound(final(store)@),
{
    let ghost before = store@;
    let (job, had_job) = take_job(store, job_id);
    let (voter_user, had_user) = take_user(store, &voter);
    let mut ctx = VoteDispute { job, voter_user, voter };
    let r = vote_dispute(&mut ctx, job_id, support, now);
    if had_job {
        put(store, Account::Job(ctx.job));
    }
    if had_user {
        put(store, Account::User(ctx.voter_user));
    }
    assert(store@ =~= vote_dispute_after(before, voter, job_id, support, now));
    r
}

/// The principal who raised the dispute of a job; nobody where there is no
/// dispute.
pub open spec fn raised_by(job: JobView) -> Principal {
    match job.dispute {
        Some(dispute) => dispute.raiser,
        None => Principal::nobody(),
    }
}

/// The party the dispute of a job is raised against: the party of the job
/// that did not raise it. Nobody where there is no dispute.
pub open spec fn raised_against(job: JobView) -> Principal {
    match job.dispute {
        Some(dispute) => if dispute.raiser == job.client {
            assigned_to(job)
        } else {
            job.client
        },
        None => Principal::nobody(),
    }
}

/// The principal who raised the dispute of `job`.
pub(crate) fn raiser_of(job: &Job) -> (who: Principal)
    ensures
        who == raised_by(job@),
{
    match &job.dispute {
        Some(dispute) => dispute.raiser,
        None => Principal::default(),
    }
}

/// The party the dispute of `job` is raised against.
pub(crate) fn opponent_of(job: &Job) -> (who: Principal)
    ensures
        who == raised_against(job@),
{
    match &job.dispute {
        Some(dispute) => if dispute.raiser == job.client {
            assignee(job)
        } else {
            job.client
        },
        None => Principal::default(),
    }
}

/// The records that settling the dispute of job `job_id` works on: the job,
/// its escrow, and the wallets and user records of both sides of the
/// dispute.
pub open spec fn finalize_dispute_records(accounts: Accounts, job_id: u64) -> FinalizeDisputeView {
    FinalizeDisputeView {
        job: job_or_other(accounts, job_id),
        escrow: escrow_or_new(accounts, job_id, Principal::nobody()),
        raiser: wallet_at(accounts, raised_by(job_or_other(accounts, job_id))),
        against: wallet_at(
            accounts.remove(AccountKey::Wallet(raised_by(job_or_other(accounts, job_id)))),
            raised_against(job_or_other(accounts, job_id)),
        ),
        raiser_user: user_or_stranger(accounts, raised_by(job_or_other(accounts, job_id))),
        against_user: user_or_stranger(
            accounts.remove(AccountKey::User(raised_by(job_or_other(accounts, job_id)))),
            raised_against(job_or_other(accounts, job_id)),
        ),
    }
}

/// Why settling the dispute of job `job_id` is refused, if it is.
pub open spec fn finalize_dispute_refusal(
    accounts: Accounts,
    job_id: u64,
    now: i64,
) -> Option<ErrorCode> {
    finalize_dispute_records(accounts, job_id).rejection(job_id, now)
}

/// The records after settling the dispute of job `job_id` at time `now`: as
/// before where it is refused, and otherwise with the job, both user
/// records, the escrow and both wallets as settling leaves them.
pub open spec fn finalize_dispute_after(accounts: Accounts, job_id: u64, now: i64) -> Accounts {
    if finalize_dispute_refusal(accounts, job_id, now) is Some {
        accounts
    } else {
        let after = finalize_dispute_records(accounts, job_id).outcome(now);
        with_wallet(
            with_wallet(
                with_escrow(
                    with_user(
                        with_user(with_job(accounts, after.job), after.raiser_user),
                        after.against_user,
                    ),
                    after.escrow,
                ),
                after.raiser,
            ),
            after.against,
        )
    }
}

/// The operation `finalize_dispute` of a marketplace, on its store.
pub(crate) fn finalize_dispute_on(
    store: &mut AccountStore,
    job_id: u64,
    now: i64,
) -> (r: Result<(), ErrorCode>)
    requires
        sound(old(store)@),
    ensures
        reports(r, finalize_dispute_refusal(old(store)@, job_id, now)),
        final(store)@ == finalize_dispute_after(old(store)@, job_id, now),
        sound(final(store)@),
{
    let ghost before = store@;
    let (job, had_job) = take_job(store, job_id);
    let raiser = raiser_of(&job);
    let against = opponent_of(&job);
    let (raiser_user, had_raiser) = take_user(store, &raiser);
    let (against_user, had_against) = take_user(store, &against);
    let (escrow, had_escrow) = take_escrow(store, job_id, Principal::default());
    let (raiser_wallet, had_raiser_wallet) = take_wallet(store, &raiser);
    let (against_wallet, had_against_wallet) = take_wallet(store, &against);
    let mut ctx = FinalizeDispute {
        job,
        escrow,
        raiser: raiser_wallet,
        against: against_wallet,
        raiser_user,
        against_user,
    };
    let r = finalize_dispute(&mut ctx, job_id, now);
    let done = r.is_ok();
    if had_job {
        put(store, Account::Job(ctx.job));
    }
    if had_raiser {
        put(store, Account::User(ctx.raiser_user));
    }
    if had_against {
        put(store, Account::User(ctx.against_user));
    }
    if had_escrow || done {
        put(store, Account::Escrow(ctx.escrow));
    }
    if had_raiser_wallet || done {
        put(store, Account::Wallet(ctx.raiser));
    }
    if had_against_wallet || done {
        put(store, Account::Wallet(ctx.against));
    }
    assert(store@ =~= finalize_dispute_after(before, job_id, now));
    r
}

} // verus!
