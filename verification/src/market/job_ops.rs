//! The job operations of a marketplace.

use crate::bidding::submit_proposal;
use crate::contexts::{
    AcceptWork, AcceptWorkView, AssignJob, AssignJobView, CreateJob, CreateJobView, DeleteJob,
    DeleteJobView, RequestRevision, RequestRevisionView, SubmitProposal, SubmitProposalView,
    SubmitWork, SubmitWorkView, WithdrawFromEscrow, WithdrawFromEscrowView,
};
use crate::error::{reports, ErrorCode};
use crate::escrow::Wallet;
use crate::keys::AccountKey;
use crate::lifecycle::{
    accept_work, assign_job, create_job, delete_job, request_revision, submit_work,
    withdraw_from_escrow,
};
use crate::market::accounts::{
    counter_at, escrow_or_new, job_at, job_or_other, put, sound, take_counter, take_escrow,
    take_job, take_user, take_wallet, user_or_stranger, wallet_at, with_counter, with_escrow,
    with_job, with_user, with_wallet, Accounts,
};
use crate::principal::Principal;
use crate::state::{Job, JobView};
use crate::store::{Account, AccountStore};
use vstd::prelude::*;

verus! {

/// The records that posting a job works on, or why they cannot be had: the
/// job counter, the client's user record and a blank job record. The counter
/// must be set up and the number it shows must be free.
pub open spec fn create_job_records(accounts: Accounts, authority: Principal) -> Result<
    CreateJobView,
    ErrorCode,
> {
    match counter_at(accounts) {
        None => Err(ErrorCode::NotFound),
        Some(job_counter) => if job_at(accounts, job_counter.count) is Some {
            Err(ErrorCode::AlreadyExists)
        } else {
            Ok(
                CreateJobView {
                    job: JobView::blank(),
                    job_counter,
                    authority,
                    user: user_or_stranger(accounts, authority),
                },
            )
        },
    }
}

/// Why posting a job is refused, if it is: a record cannot be had, or the
/// posting itself is refused.
pub open spec fn create_job_refusal(
    accounts: Accounts,
    authority: Principal,
    title: Seq<char>,
    description: Seq<char>,
    deadline: i64,
    skills: Seq<String>,
    category: Seq<char>,
    now: i64,
) -> Option<ErrorCode> {
    match create_job_records(accounts, authority) {
        Err(e) => Some(e),
        Ok(ctx) => ctx.rejection(title, description, deadline, skills, category, now),
    }
}

/// The records after posting a job at time `now`: as before where it is
/// refused, and otherwise with the new job under the number the counter
/// showed, the counter moved on and the client's user record as the posting
/// leaves it.
pub open spec fn create_job_after(
    accounts: Accounts,
    authority: Principal,
    title: Seq<char>,
    description: Seq<char>,
    budget: u64,
    deadline: i64,
    skills: Seq<String>,
    category: Seq<char>,
    now: i64,
) -> Accounts {
    if create_job_refusal(accounts, authority, title, description, deadline, skills, category, now)
        is Some {
        accounts
    } else {
        let after = create_job_records(accounts, authority)->Ok_0.outcome(
            title,
            description,
            budget,
            deadline,
            skills,
            category,
            now,
        );
        with_user(with_counter(with_job(accounts, after.job), after.job_counter), after.user)
    }
}

/// The operation `create_job` of a marketplace, on its store.
pub(crate) fn create_job_on(
    store: &mut AccountStore,
    authority: Principal,
    title: String,
    description: String,
    budget: u64,
    deadline: i64,
    skills: Vec<String>,
    category: String,
    now: i64,
) -> (r: Result<(), ErrorCode>)
    requires
        sound(old(store)@),
    ensures
        reports(
            r,
            create_job_refusal(
                old(store)@,
                authority,
                title@,
                description@,
                deadline,
                skills@,
                category@,
                now,
            ),
        ),
        final(store)@ == create_job_after(
            old(store)@,
            authority,
            title@,
            description@,
            budget,
            deadline,
            skills@,
            category@,
            now,
        ),
        sound(final(store)@),
{
    let ghost before = store@;
    let job_counter = match take_counter(store) {
        Ok(counter) => counter,
        Err(e) => {
            return Err(e);
        },
    };
    if store.contains_key(&AccountKey::Job(job_counter.count)) {
        put(store, Account::JobCounter(job_counter));
        assert(store@ =~= before);
        return Err(ErrorCode::AlreadyExists);
    }
    let (user, had_user) = take_user(store, &authority);
    let mut ctx = CreateJob { job: Job::blank(), job_counter, authority, user };
    let r = create_job(&mut ctx, title, description, budget, deadline, skills, category, now);
    if r.is_ok() {
        put(store, Account::Job(ctx.job));
    }
    put(store, Account::JobCounter(ctx.job_counter));
    if had_user {
        put(store, Account::User(ctx.user));
    }
    assert(store@ =~= create_job_after(
        before,
        authority,
        title@,
        description@,
        budget,
        deadline,
        skills@,
        category@,
        now,
    ));
    r
}

/// The records that a bid of `freelancer` on job `job_id` works on: the job
/// and the freelancer's user record.
pub open spec fn submit_proposal_records(
    accounts: Accounts,
    freelancer: Principal,
    job_id: u64,
) -> SubmitProposalView {
    SubmitProposalView {
        job: job_or_other(accounts, job_id),
        user: user_or_stranger(accounts, freelancer),
        freelancer,
    }
}

/// Why a bid of `freelancer` on job `job_id` is refused, if it is.
pub open spec fn submit_proposal_refusal(
    accounts: Accounts,
    freelancer: Principal,
    job_id: u64,
    proposed_amount: u64,
) -> Option<ErrorCode> {
    submit_proposal_records(accounts, freelancer, job_id).rejection(job_id, proposed_amount)
}

/// The records after a bid of `freelancer` on job `job_id` at time `now`: as
/// before where it is refused, and otherwise with the job and the user
/// record as the bid leaves them.
pub open spec fn submit_proposal_after(
    accounts: Accounts,
    freelancer: Principal,
    job_id: u64,
    proposed_amount: u64,
    now: i64,
) -> Accounts {
    if submit_proposal_refusal(accounts, freelancer, job_id, proposed_amount) is Some {
        accounts
    } else {
        let after = submit_proposal_records(
            accounts,
            freelancer,
            job_id,
        ).outcome(proposed_amount, now);
        with_user(with_job(accounts, after.job), after.user)
    }
}

/// The operation `submit_proposal` of a marketplace, on its store.
pub(crate) fn submit_proposal_on(
    store: &mut AccountStore,
    freelancer: Principal,
    job_id: u64,
    proposed_amount: u64,
    now: i64,
) -> (r: Result<(), ErrorCode>)
    requires
        sound(old(store)@),
    ensures
        reports(r, submit_proposal_refusal(old(store)@, freelancer, job_id, proposed_amount)),
        final(store)@ == submit_proposal_after(
            old(store)@,
            freelancer,
            job_id,
            proposed_amount,
            now,
        ),
        sound(final(store)@),
{
    let ghost before = store@;
    let (job, had_job) = take_job(store, job_id);
    let (user, had_user) = take_user(store, &freelancer);
    let mut ctx = SubmitProposal { job, user, freelancer };
    let r = submit_proposal(&mut ctx, job_id, proposed_amount, now);
    if had_job {
        put(store, Account::Job(ctx.job));
    }
    if had_user {
        put(store, Account::User(ctx.user));
    }
    assert(store@ =~= submit_proposal_after(before, freelancer, job_id, proposed_amount, now));
    r
}

/// The freelancer a job is assigned to; nobody where it is unassigned.
pub open spec fn assigned_to(job: JobView) -> Principal {
    match job.freelancer {
        Some(freelancer) => freelancer,
        None => Principal::nobody(),
    }
}

/// The freelancer `job` is assigned to; nobody where it is unassigned.
pub(crate) fn assignee(job: &Job) -> (who: Principal)
    ensures
        who == assigned_to(job@),
{
    match job.freelancer {
        Some(freelancer) => freelancer,
        None => Principal::default(),
    }
}

/// The records that assigning job `job_id` works on: the job, the client's
/// wallet and user record, the freelancer's user record and the job's
/// escrow. An escrow that has no record yet starts empty under
/// `escrow_address`.
pub open spec fn assign_job_records(
    accounts: Accounts,
    client: Principal,
    job_id: u64,
    freelancer: Principal,
    escrow_address: Principal,
) -> AssignJobView {
    AssignJobView {
        job: job_or_other(accounts, job_id),
        client: wallet_at(accounts, client),
        client_user: user_or_stranger(accounts, client),
        freelancer_user: user_or_stranger(accounts.remove(AccountKey::User(client)), freelancer),
        escrow: escrow_or_new(accounts, job_id, escrow_address),
    }
}

/// Why assigning job `job_id` is refused, if it is.
pub open spec fn assign_job_refusal(
    accounts: Accounts,
    client: Principal,
    job_id: u64,
    freelancer: Principal,
    bid_amount: u64,
    escrow_address: Principal,
) -> Option<ErrorCode> {
    assign_job_records(
        accounts,
        client,
        job_id,
        freelancer,
        escrow_address,
    ).rejection(job_id, freelancer, bid_amount)
}

/// The records after assigning job `job_id` at time `now`: as before where
/// it is refused, and otherwise with the job, both user records, the
/// client's wallet and the escrow as the assignment leaves them.
pub open spec fn assign_job_after(
    accounts: Accounts,
    client: Principal,
    job_id: u64,
    freelancer: Principal,
    bid_amount: u64,
    escrow_address: Principal,
    now: i64,
) -> Accounts {
    if assign_job_refusal(
        accounts,
        client,
        job_id,
        freelancer,
        bid_amount,
        escrow_address,
    ) is Some {
        accounts
    } else {
        let after = assign_job_records(
            accounts,
            client,
            job_id,
            freelancer,
            escrow_address,
        ).outcome(freelancer, bid_amount, now);
        with_escrow(
            with_wallet(
                with_user(
                    with_user(with_job(accounts, after.job), after.client_user),
                    after.freelancer_user,
                ),
                after.client,
            ),
            after.escrow,
        )
    }
}

/// The operation `assign_job` of a marketplace, on its store.
pub(crate) fn assign_job_on(
    store: &mut AccountStore,
    client: Principal,
    job_id: u64,
    freelancer: Principal,
    bid_amount: u64,
    escrow_address: Principal,
    now: i64,
) -> (r: Result<(), ErrorCode>)
    requires
        sound(old(store)@),
    ensures
        reports(
            r,
            assign_job_refusal(old(store)@, client, job_id, freelancer, bid_amount, escrow_address),
        ),
        final(store)@ == assign_job_after(
            old(store)@,
            client,
            job_id,
            freelancer,
            bid_amount,
            escrow_address,
            now,
        ),
        sound(final(store)@),
{
    let ghost before = store@;
    let (job, had_job) = take_job(store, job_id);
    let (client_user, had_client) = take_user(store, &client);
    let (freelancer_user, had_freelancer) = take_user(store, &freelancer);
    let (wallet, had_wallet) = take_wallet(store, &client);
    let (escrow, had_escrow) = take_escrow(store, job_id, escrow_address);
    let mut ctx = AssignJob { job, client: wallet, client_user, freelancer_user, escrow };
    let r = assign_job(&mut ctx, job_id, freelancer, bid_amount, now);
    let done = r.is_ok();
    if had_job {
        put(store, Account::Job(ctx.job));
    }
    if had_client {
        put(store, Account::User(ctx.client_user));
    }
    if had_freelancer {
        put(store, Account::User(ctx.freelancer_user));
    }
    if had_wallet || done {
        put(store, Account::Wallet(ctx.client));
    }
    if had_escrow || done {
        put(store, Account::Escrow(ctx.escrow));
    }
    assert(store@ =~= assign_job_after(
        before,
        client,
        job_id,
        freelancer,
        bid_amount,
        escrow_address,
        now,
    ));
    r
}

/// The records that handing in work for job `job_id` works on: the job and
/// the freelancer's user record.
pub open spec fn submit_work_records(
    accounts: Accounts,
    freelancer: Principal,
    job_id: u64,
) -> SubmitWorkView {
    SubmitWorkView {
        job: job_or_other(accounts, job_id),
        freelancer_user: user_or_stranger(accounts, freelancer),
        freelancer,
    }
}

/// Why handing in work for job `job_id` is refused, if it is.
pub open spec fn submit_work_refusal(
    accounts: Accounts,
    freelancer: Principal,
    job_id: u64,
    work_url: Seq<char>,
    work_description: Seq<char>,
) -> Option<ErrorCode> {
    submit_work_records(accounts, freelancer, job_id).rejection(job_id, work_url, work_description)
}

/// The records after handing in work for job `job_id` at time `now`: as
/// before where it is refused, and otherwise with the job as the submission
/// leaves it.
pub open spec fn submit_work_after(
    accounts: Accounts,
    freelancer: Principal,
    job_id: u64,
    work_url: Seq<char>,
    work_description: Seq<char>,
    now: i64,
) -> Accounts {
    if submit_work_refusal(accounts, freelancer, job_id, work_url, work_description) is Some {
        accounts
    } else {
        let after = submit_work_records(
            accounts,
            freelancer,
            job_id,
        ).outcome(work_url, work_description, now);
        with_job(accounts, after.job)
    }
}

/// The operation `submit_work` of a marketplace, on its store.
pub(crate) fn submit_work_on(
    store: &mut AccountStore,
    freelancer: Principal,
    job_id: u64,
    work_url: String,
    work_description: String,
    now: i64,
) -> (r: Result<(), ErrorCode>)
    requires
        sound(old(store)@),
    ensures
        reports(
            r,
            submit_work_refusal(old(store)@, freelancer, job_id, work_url@, work_description@),
        ),
        final(store)@ == submit_work_after(
            old(store)@,
            freelancer,
            job_id,
            work_url@,
            work_description@,
            now,
        ),
        sound(final(store)@),
{
    let ghost before = store@;
    let (job, had_job) = take_job(store, job_id);
    let (freelancer_user, had_user) = take_user(store, &freelancer);
    let mut ctx = SubmitWork { job, freelancer_user, freelancer };
    let r = submit_work(&mut ctx, job_id, work_url, work_description, now);
    if had_job {
        put(store, Account::Job(ctx.job));
    }
    if had_user {
        put(store, Account::User(ctx.freelancer_user));
    }
    assert(store@ =~= submit_work_after(
        before,
        freelancer,
        job_id,
        work_url@,
        work_description@,
        now,
    ));
    r
}

/// The records that asking for a revision of job `job_id` works on.
pub open spec fn request_revision_records(
    accounts: Accounts,
    client: Principal,
    job_id: u64,
) -> RequestRevisionView {
    RequestRevisionView {
        job: job_or_other(accounts, job_id),
        client,
    }
}

/// Why asking for a revision of job `job_id` is refused, if it is.
pub open spec fn request_revision_refusal(
    accounts: Accounts,
    client: Principal,
    job_id: u64,
    revision_description: Seq<char>,
) -> Option<ErrorCode> {
    request_revision_records(accounts, client, job_id).rejection(job_id, revision_description)
}

/// The records after asking for a revision of job `job_id` at time `now`: as
/// before where it is refused, and otherwise with the job as the request
/// leaves it.
pub open spec fn request_revision_after(
    accounts: Accounts,
    client: Principal,
    job_id: u64,
    revision_description: Seq<char>,
    now: i64,
) -> Accounts {
    if request_revision_refusal(accounts, client, job_id, revision_description) is Some {
        accounts
    } else {
        let after = request_revision_records(
            accounts,
            client,
            job_id,
        ).outcome(revision_description, now);
        with_job(accounts, after.job)
    }
}

/// The operation `request_revision` of a marketplace, on its store.
pub(crate) fn request_revision_on(
    store: &mut AccountStore,
    client: Principal,
    job_id: u64,
    revision_description: String,
    now: i64,
) -> (r: Result<(), ErrorCode>)
    requires
        sound(old(store)@),
    ensures
        reports(r, request_revision_refusal(old(store)@, client, job_id, revision_description@)),
        final(store)@ == request_revision_after(
            old(store)@,
            client,
            job_id,
            revision_description@,
            now,
        ),
        sound(final(store)@),
{
    let ghost before = store@;
    let (job, had_job) = take_job(store, job_id);
    let mut ctx = RequestRevision { job, client };
    let r = request_revision(&mut ctx, job_id, revision_description, now);
    if had_job {
        put(store, Account::Job(ctx.job));
    }
    assert(store@ =~= request_revision_after(before, client, job_id, revision_description@, now));
    r
}

/// The records that accepting the work of job `job_id` works on: the job,
/// the client's user record and the user record of the job's freelancer.
pub open spec fn accept_work_records(
    accounts: Accounts,
    client: Principal,
    job_id: u64,
) -> AcceptWorkView {
    AcceptWorkView {
        job: job_or_other(accounts, job_id),
        client_user: user_or_stranger(accounts, client),
        freelancer_user: user_or_stranger(
            accounts.remove(AccountKey::User(client)),
            assigned_to(job_or_other(accounts, job_id)),
        ),
        client,
    }
}

/// Why accepting the work of job `job_id` is refused, if it is.
pub open spec fn accept_work_refusal(
    accounts: Accounts,
    client: Principal,
    job_id: u64,
    freelancer_rating: u8,
) -> Option<ErrorCode> {
    accept_work_records(accounts, client, job_id).rejection(job_id, freelancer_rating)
}

/// The records after accepting the work of job `job_id` at time `now`: as
/// before where it is refused, and otherwise with the job and both user
/// records as acceptance leaves them.
pub open spec fn accept_work_after(
    accounts: Accounts,
    client: Principal,
    job_id: u64,
    freelancer_rating: u8,
    now: i64,
) -> Accounts {
    if accept_work_refusal(accounts, client, job_id, freelancer_rating) is Some {
        accounts
    } else {
        let after = accept_work_records(accounts, client, job_id).outcome(freelancer_rating, now);
        with_user(
            with_user(with_job(accounts, after.job), after.client_user),
            after.freelancer_user,
        )
    }
}

/// The operation `accept_work` of a marketplace, on its store.
pub(crate) fn accept_work_on(
    store: &mut AccountStore,
    client: Principal,
    job_id: u64,
    freelancer_rating: u8,
    now: i64,
) -> (r: Result<(), ErrorCode>)
    requires
        sound(old(store)@),
    ensures
        reports(r, accept_work_refusal(old(store)@, client, job_id, freelancer_rating)),
        final(store)@ == accept_work_after(old(store)@, client, job_id, freelancer_rating, now),
        sound(final(store)@),
{
    let ghost before = store@;
    let (job, had_job) = take_job(store, job_id);
    let (client_user, had_client) = take_user(store, &client);
    let freelancer = assignee(&job);
    let (freelancer_user, had_freelancer) = take_user(store, &freelancer);
    let mut ctx = AcceptWork { job, client_user, freelancer_user, client };
    let r = accept_work(&mut ctx, job_id, freelancer_rating, now);
    if had_job {
        put(store, Account::Job(ctx.job));
    }
    if had_client {
        put(store, Account::User(ctx.client_user));
    }
    if had_freelancer {
        put(store, Account::User(ctx.freelancer_user));
    }
    assert(store@ =~= accept_work_after(before, client, job_id, freelancer_rating, now));
    r
}

/// The records that the payout of job `job_id` works on: the job, the user
/// records of the freelancer and of the job's client, the job's escrow and
/// the freelancer's wallet.
pub open spec fn withdraw_from_escrow_records(
    accounts: Accounts,
    freelancer: Principal,
    job_id: u64,
) -> WithdrawFromEscrowView {
    WithdrawFromEscrowView {
        job: job_or_other(accounts, job_id),
        freelancer_user: user_or_stranger(accounts, freelancer),
        client_user: user_or_stranger(
            accounts.remove(AccountKey::User(freelancer)),
            job_or_other(accounts, job_id).client,
        ),
        escrow: escrow_or_new(accounts, job_id, Principal::nobody()),
        freelancer: wallet_at(accounts, freelancer),
    }
}

/// Why the payout of job `job_id` is refused, if it is.
pub open spec fn withdraw_from_escrow_refusal(
    accounts: Accounts,
    freelancer: Principal,
    job_id: u64,
    client_rating: u8,
) -> Option<ErrorCode> {
    withdraw_from_escrow_records(accounts, freelancer, job_id).rejection(job_id, client_rating)
}

/// The records after the payout of job `job_id` at time `now`: as before
/// where it is refused, and otherwise with the job, both user records, the
/// escrow and the freelancer's wallet as the payout leaves them.
pub open spec fn withdraw_from_escrow_after(
    accounts: Accounts,
    freelancer: Principal,
    job_id: u64,
    client_rating: u8,
    now: i64,
) -> Accounts {
    if withdraw_from_escrow_refusal(accounts, freelancer, job_id, client_rating) is Some {
        accounts
    } else {
        let after = withdraw_from_escrow_records(
            accounts,
            freelancer,
            job_id,
        ).outcome(client_rating, now);
        with_wallet(
            with_escrow(
                with_user(
                    with_user(with_job(accounts, after.job), after.freelancer_user),
                    after.client_user,
                ),
                after.escrow,
            ),
            after.freelancer,
        )
    }
}

/// The operation `withdraw_from_escrow` of a marketplace, on its store.
pub(crate) fn withdraw_from_escrow_on(
    store: &mut AccountStore,
    freelancer: Principal,
    job_id: u64,
    client_rating: u8,
    now: i64,
) -> (r: Result<(), ErrorCode>)
    requires
        sound(old(store)@),
    ensures
        reports(r, withdraw_from_escrow_refusal(old(store)@, freelancer, job_id, client_rating)),
        final(store)@ == withdraw_from_escrow_after(
            old(store)@,
            freelancer,
            job_id,
            client_rating,
            now,
        ),
        sound(final(store)@),
{
    let ghost before = store@;
    let (job, had_job) = take_job(store, job_id);
    let (freelancer_user, had_freelancer) = take_user(store, &freelancer);
    let (client_user, had_client) = take_user(store, &job.client);
    let (escrow, had_escrow) = take_escrow(store, job_id, Principal::default());
    let (wallet, had_wallet) = take_wallet(store, &freelancer);
    let mut ctx = WithdrawFromEscrow {
        job,
        freelancer_user,
        client_user,
        escrow,
        freelancer: wallet,
    };
    let r = withdraw_from_escrow(&mut ctx, job_id, client_rating, now);
    let done = r.is_ok();
    if had_job {
        put(store, Account::Job(ctx.job));
    }
    if had_freelancer {
        put(store, Account::User(ctx.freelancer_user));
    }
    if had_client {
        put(store, Account::User(ctx.client_user));
    }
    if had_escrow || done {
        put(store, Account::Escrow(ctx.escrow));
    }
    if had_wallet || done {
        put(store, Account::Wallet(ctx.freelancer));
    }
    assert(store@ =~= withdraw_from_escrow_after(before, freelancer, job_id, client_rating, now));
    r
}

/// The records that deleting job `job_id` works on. A marketplace reserves
/// no storage deposit for a job, so none goes back to the client.
pub open spec fn delete_job_records(accounts: Accounts, client: Principal, job_id: u64)
    -> DeleteJobView {
    DeleteJobView {
        job: job_at(accounts, job_id),
        reserve: 0,
        authority: Wallet { owner: client, balance: 0 },
    }
}

/// Why deleting job `job_id` is refused, if it is.
pub open spec fn delete_job_refusal(accounts: Accounts, client: Principal, job_id: u64) -> Option<
    ErrorCode,
> {
    delete_job_records(accounts, client, job_id).rejection(job_id)
}

/// The records after deleting job `job_id`: as before where it is refused,
/// and otherwise without the job.
pub open spec fn delete_job_after(accounts: Accounts, client: Principal, job_id: u64) -> Accounts {
    if delete_job_refusal(accounts, client, job_id) is Some {
        accounts
    } else {
        accounts.remove(AccountKey::Job(job_id))
    }
}

/// The operation `delete_job` of a marketplace, on its store.
pub(crate) fn delete_job_on(store: &mut AccountStore, client: Principal, job_id: u64) -> (r: Result<
    (),
    ErrorCode,
>)
    requires
        sound(old(store)@),
    ensures
        reports(r, delete_job_refusal(old(store)@, client, job_id)),
        final(store)@ == delete_job_after(old(store)@, client, job_id),
        sound(final(store)@),
{
    let ghost before = store@;
    let (job, had_job) = take_job(store, job_id);
    let slot = if had_job {
        Some(job)
    } else {
        None
    };
    let mut ctx = DeleteJob { job: slot, reserve: 0, authority: Wallet::new(client, 0) };
    let r = delete_job(&mut ctx, job_id);
    match ctx.job {
        Some(job) => {
            put(store, Account::Job(job));
        },
        None => {},
    }
    assert(store@ =~= delete_job_after(before, client, job_id));
    r
}

} // verus!
