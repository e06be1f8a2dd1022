//! What holds of every operation of a marketplace.

use crate::keys::AccountKey;
use crate::laws::{
    accepting_is_a_step, assigning_is_a_step, bidding_is_a_step, job_step, paying_out_is_a_step,
    posting_makes_an_open_job, raising_a_dispute_is_a_step, requesting_revision_is_a_step,
    settling_is_a_step, submitting_work_is_a_step, voting_is_a_step,
};
use crate::market::accounts::{escrow_at, job_at, sound, Accounts};
use crate::market::dispute_ops::{
    finalize_dispute_after, finalize_dispute_records, finalize_dispute_refusal, raise_dispute_after,
    raise_dispute_records, raise_dispute_refusal, vote_dispute_after, vote_dispute_records,
    vote_dispute_refusal,
};
use crate::market::job_ops::{
    accept_work_after, accept_work_records, accept_work_refusal, assign_job_after,
    assign_job_records, assign_job_refusal, create_job_after, create_job_records,
    create_job_refusal, delete_job_after, request_revision_after, request_revision_records,
    request_revision_refusal, submit_proposal_after, submit_proposal_records,
    submit_proposal_refusal, submit_work_after, submit_work_records, submit_work_refusal,
    withdraw_from_escrow_after, withdraw_from_escrow_records, withdraw_from_escrow_refusal,
};
use crate::market::operation::Operation;
use crate::market::user_ops::{
    fund_wallet_after, initialize_job_counter_after, register_user_after, update_resume_after,
    update_user_info_after,
};
use crate::principal::Principal;
use crate::state::Resume;
use crate::users::text_of;
use vstd::prelude::*;

verus! {

/// What every operation respects, between the records before it and the
/// records after it: the records are still as a marketplace keeps them; each
/// job that was there is still there, unless it is the job the operation is
/// about and the operation deletes; each has made at most one step; and
/// every job and every escrow that the operation is not about is as it was.
pub open spec fn orderly(before: Accounts, after: Accounts, about: Option<u64>, deletes: bool)
    -> bool {
    &&& sound(after)
    &&& forall|job_id: u64| (#[trigger] job_at(
        before,
        job_id,
    )) is Some ==> match job_at(after, job_id) {
        Some(job) => {
            &&& job_step(job_at(before, job_id)->0, job)
            &&& about != Some(job_id) ==> job == job_at(before, job_id)->0
        },
        None => deletes && about == Some(job_id),
    }
    &&& forall|job_id: u64|
        about != Some(job_id) ==> (#[trigger] escrow_at(after, job_id)) == escrow_at(
            before,
            job_id,
        )
}

proof fn register_user_is_orderly(
    accounts: Accounts,
    authority: Principal,
    name: Seq<char>,
    is_client: bool,
    is_freelancer: bool,
    resume: Option<Resume>,
    now: i64,
)
    requires
        sound(accounts),
    ensures
        orderly(
            accounts,
            register_user_after(accounts, authority, name, is_client, is_freelancer, resume, now),
            None,
            false,
        ),
{
}

proof fn update_user_info_is_orderly(
    accounts: Accounts,
    authority: Principal,
    new_name: Option<Seq<char>>,
    new_is_client: Option<bool>,
    new_is_freelancer: Option<bool>,
)
    requires
        sound(accounts),
    ensures
        orderly(
            accounts,
            update_user_info_after(accounts, authority, new_name, new_is_client, new_is_freelancer),
            None,
            false,
        ),
{
}

proof fn update_resume_is_orderly(
    accounts: Accounts,
    authority: Principal,
    new_resume: Resume,
    now: i64,
)
    requires
        sound(accounts),
    ensures
        orderly(accounts, update_resume_after(accounts, authority, new_resume, now), None, false),
{
}

proof fn initialize_job_counter_is_orderly(accounts: Accounts)
    requires
        sound(accounts),
    ensures
        orderly(accounts, initialize_job_counter_after(accounts), None, false),
{
}

proof fn fund_wallet_is_orderly(accounts: Accounts, owner: Principal, amount: u64)
    requires
        sound(accounts),
    ensures
        orderly(accounts, fund_wallet_after(accounts, owner, amount), None, false),
{
}

proof fn create_job_is_orderly(
    accounts: Accounts,
    authority: Principal,
    title: Seq<char>,
    description: Seq<char>,
    budget: u64,
    deadline: i64,
    skills: Seq<String>,
    category: Seq<char>,
    now: i64,
)
    requires
        sound(accounts),
    ensures
        orderly(
            accounts,
            create_job_after(
                accounts,
                authority,
                title,
                description,
                budget,
                deadline,
                skills,
                category,
                now,
            ),
            None,
            false,
        ),
{
    if create_job_refusal(accounts, authority, title, description, deadline, skills, category, now)
        is None {
        posting_makes_an_open_job(
            create_job_records(accounts, authority)->Ok_0,
            title,
            description,
            budget,
            deadline,
            skills,
            category,
            now,
        );
    }
}

proof fn submit_proposal_is_orderly(
    accounts: Accounts,
    freelancer: Principal,
    job_id: u64,
    proposed_amount: u64,
    now: i64,
)
    requires
        sound(accounts),
    ensures
        orderly(
            accounts,
            submit_proposal_after(accounts, freelancer, job_id, proposed_amount, now),
            Some(job_id),
            false,
        ),
{
    if submit_proposal_refusal(accounts, freelancer, job_id, proposed_amount) is None {
        bidding_is_a_step(
            submit_proposal_records(accounts, freelancer, job_id),
            job_id,
            proposed_amount,
            now,
        );
    }
}

proof fn assign_job_is_orderly(
    accounts: Accounts,
    client: Principal,
    job_id: u64,
    freelancer: Principal,
    bid_amount: u64,
    escrow_address: Principal,
    now: i64,
)
    requires
        sound(accounts),
    ensures
        orderly(
            accounts,
            assign_job_after(accounts, client, job_id, freelancer, bid_amount, escrow_address, now),
            Some(job_id),
            false,
        ),
{
    if assign_job_refusal(accounts, client, job_id, freelancer, bid_amount, escrow_address)
        is None {
        assigning_is_a_step(
            assign_job_records(accounts, client, job_id, freelancer, escrow_address),
            job_id,
            freelancer,
            bid_amount,
            now,
        );
    }
}

proof fn submit_work_is_orderly(
    accounts: Accounts,
    freelancer: Principal,
    job_id: u64,
    work_url: Seq<char>,
    work_description: Seq<char>,
    now: i64,
)
    requires
        sound(accounts),
    ensures
        orderly(
            accounts,
            submit_work_after(accounts, freelancer, job_id, work_url, work_description, now),
            Some(job_id),
            false,
        ),
{
    if submit_work_refusal(accounts, freelancer, job_id, work_url, work_description) is None {
        submitting_work_is_a_step(
            submit_work_records(accounts, freelancer, job_id),
            job_id,
            work_url,
            work_description,
            now,
        );
    }
}

proof fn request_revision_is_orderly(
    accounts: Accounts,
    client: Principal,
    job_id: u64,
    revision_description: Seq<char>,
    now: i64,
)
    requires
        sound(accounts),
    ensures
        orderly(
            accounts,
            request_revision_after(accounts, client, job_id, revision_description, now),
            Some(job_id),
            false,
        ),
{
    if request_revision_refusal(accounts, client, job_id, revision_description) is None {
        requesting_revision_is_a_step(
            request_revision_records(accounts, client, job_id),
            job_id,
            revision_description,
            now,
        );
    }
}

proof fn accept_work_is_orderly(
    accounts: Accounts,
    client: Principal,
    job_id: u64,
    rating: u8,
    now: i64,
)
    requires
        sound(accounts),
    ensures
        orderly(
            accounts,
            accept_work_after(accounts, client, job_id, rating, now),
            Some(job_id),
            false,
        ),
{
    if accept_work_refusal(accounts, client, job_id, rating) is None {
        accepting_is_a_step(accept_work_records(accounts, client, job_id), job_id, rating, now);
    }
}

proof fn withdraw_from_escrow_is_orderly(
    accounts: Accounts,
    freelancer: Principal,
    job_id: u64,
    rating: u8,
    now: i64,
)
    requires
        sound(accounts),
    ensures
        orderly(
            accounts,
            withdraw_from_escrow_after(accounts, freelancer, job_id, rating, now),
            Some(job_id),
            false,
        ),
{
    if withdraw_from_escrow_refusal(accounts, freelancer, job_id, rating) is None {
        paying_out_is_a_step(
            withdraw_from_escrow_records(accounts, freelancer, job_id),
            job_id,
            rating,
            now,
        );
    }
}

proof fn delete_job_is_orderly(accounts: Accounts, client: Principal, job_id: u64)
    requires
        sound(accounts),
    ensures
        orderly(accounts, delete_job_after(accounts, client, job_id), Some(job_id), true),
{
}

proof fn raise_dispute_is_orderly(
    accounts: Accounts,
    raiser: Principal,
    job_id: u64,
    reason: Seq<char>,
    now: i64,
)
    requires
        sound(accounts),
    ensures
        orderly(
            accounts,
            raise_dispute_after(accounts, raiser, job_id, reason, now),
            Some(job_id),
            false,
        ),
{
    if raise_dispute_refusal(accounts, raiser, job_id, reason, now) is None {
        raising_a_dispute_is_a_step(
            raise_dispute_records(accounts, raiser, job_id),
            job_id,
            reason,
            now,
        );
    }
}

proof fn vote_dispute_is_orderly(
    accounts: Accounts,
    voter: Principal,
    job_id: u64,
    support: bool,
    now: i64,
)
    requires
        sound(accounts),
    ensures
        orderly(
            accounts,
            vote_dispute_after(accounts, voter, job_id, support, now),
            Some(job_id),
            false,
        ),
{
    if vote_dispute_refusal(accounts, voter, job_id, support, now) is None {
        voting_is_a_step(vote_dispute_records(accounts, voter, job_id), job_id, support, now);
    }
}

proof fn finalize_dispute_is_orderly(accounts: Accounts, job_id: u64, now: i64)
    requires
        sound(accounts),
    ensures
        orderly(accounts, finalize_dispute_after(accounts, job_id, now), Some(job_id), false),
{
    if finalize_dispute_refusal(accounts, job_id, now) is None {
        settling_is_a_step(finalize_dispute_records(accounts, job_id), job_id, now);
    }
}

/// Every operation is orderly, whichever it is and whatever the time.
pub proof fn every_operation_is_orderly(operation: Operation, accounts: Accounts, now: i64)
    requires
        sound(accounts),
    ensures
        orderly(
            accounts,
            operation.after(accounts, now),
            operation.job(),
            operation is DeleteJob,
        ),
{
    match operation {
        Operation::RegisterUser {
            authority,
            name,
            is_client,
            is_freelancer,
            resume,
        } => register_user_is_orderly(
            accounts,
            authority,
            name@,
            is_client,
            is_freelancer,
            resume,
            now,
        ),
        Operation::UpdateUserInfo {
            authority,
            new_name,
            new_is_client,
            new_is_freelancer,
        } => update_user_info_is_orderly(
            accounts,
            authority,
            text_of(new_name),
            new_is_client,
            new_is_freelancer,
        ),
        Operation::UpdateResume { authority, new_resume } => update_resume_is_orderly(
            accounts,
            authority,
            new_resume,
            now,
        ),
        Operation::InitializeJobCounter { .. } => initialize_job_counter_is_orderly(accounts),
        Operation::CreateJob {
            authority,
            title,
            description,
            budget,
            deadline,
            skills,
            category,
        } => create_job_is_orderly(
            accounts,
            authority,
            title@,
            description@,
            budget,
            deadline,
            skills@,
            category@,
            now,
        ),
        Operation::SubmitProposal {
            freelancer,
            job_id,
            proposed_amount,
        } => submit_proposal_is_orderly(accounts, freelancer, job_id, proposed_amount, now),
        Operation::AssignJob {
            client,
            job_id,
            freelancer,
            bid_amount,
            escrow_address,
        } => assign_job_is_orderly(
            accounts,
            client,
            job_id,
            freelancer,
            bid_amount,
            escrow_address,
            now,
        ),
        Operation::SubmitWork {
            freelancer,
            job_id,
            work_url,
            work_description,
        } => submit_work_is_orderly(
            accounts,
            freelancer,
            job_id,
            work_url@,
            work_description@,
            now,
        ),
        Operation::RequestRevision {
            client,
            job_id,
            revision_description,
        } => request_revision_is_orderly(accounts, client, job_id, revision_description@, now),
        Operation::AcceptWork { client, job_id, freelancer_rating } => accept_work_is_orderly(
            accounts,
            client,
            job_id,
            freelancer_rating,
            now,
        ),
        Operation::WithdrawFromEscrow {
            freelancer,
            job_id,
            client_rating,
        } => withdraw_from_escrow_is_orderly(accounts, freelancer, job_id, client_rating, now),
        Operation::DeleteJob { client, job_id } => delete_job_is_orderly(accounts, client, job_id),
        Operation::RaiseDispute { raiser, job_id, reason } => raise_dispute_is_orderly(
            accounts,
            raiser,
            job_id,
            reason@,
            now,
        ),
        Operation::VoteDispute { voter, job_id, support } => vote_dispute_is_orderly(
            accounts,
            voter,
            job_id,
            support,
            now,
        ),
        Operation::FinalizeDispute { job_id } => finalize_dispute_is_orderly(
            accounts,
            job_id,
            now,
        ),
        Operation::FundWallet { owner, amount } => fund_wallet_is_orderly(accounts, owner, amount),
    }
}

/// An operation that is refused changes nothing.
pub proof fn refused_changes_nothing(operation: Operation, accounts: Accounts, now: i64)
    requires
        operation.refusal(accounts, now) is Some,
    ensures
        operation.after(accounts, now) == accounts,
{
}

/// Every operation keeps the books: made on records as a marketplace keeps
/// them, it leaves records as a marketplace keeps them. So at all times every
/// job is well formed, with a payout of nothing or of the whole budget, one
/// bid per freelancer and one vote per voter, and every escrow has kept what
/// was paid in equal to what was paid out plus what it holds.
pub proof fn operations_keep_the_books(operation: Operation, accounts: Accounts, now: i64)
    requires
        sound(accounts),
    ensures
        sound(operation.after(accounts, now)),
        forall|job_id: u64| #[trigger]
            job_at(operation.after(accounts, now), job_id) matches Some(job) ==> job.wf(),
        forall|job_id: u64| #[trigger]
            escrow_at(operation.after(accounts, now), job_id) matches Some(escrow)
                ==> escrow.conserved(),
{
    every_operation_is_orderly(operation, accounts, now);
    let after = operation.after(accounts, now);
    assert forall|job_id: u64| (#[trigger] job_at(after, job_id)) is Some implies job_at(
        after,
        job_id,
    )->0.wf() by {
        assert(after.contains_key(AccountKey::Job(job_id)));
    }
    assert forall|job_id: u64| (#[trigger] escrow_at(after, job_id)) is Some implies escrow_at(
        after,
        job_id,
    )->0.conserved() by {
        assert(after.contains_key(AccountKey::Escrow(job_id)));
    }
}

/// The status of a job only ever moves forward: whatever operation is made,
/// a job that is there before and after has kept its status or made one move
/// of the state machine.
pub proof fn status_only_moves_forward(
    operation: Operation,
    accounts: Accounts,
    now: i64,
    job_id: u64,
)
    requires
        sound(accounts),
        job_at(accounts, job_id) is Some,
        job_at(operation.after(accounts, now), job_id) is Some,
    ensures
        job_at(accounts, job_id)->0.status.steps_to(
            job_at(operation.after(accounts, now), job_id)->0.status,
        ),
{
    every_operation_is_orderly(operation, accounts, now);
}

/// A payout is final: whatever operation is made, a job that has paid out
/// keeps what it has paid.
pub proof fn payout_is_final(operation: Operation, accounts: Accounts, now: i64, job_id: u64)
    requires
        sound(accounts),
        job_at(accounts, job_id) is Some,
        job_at(operation.after(accounts, now), job_id) is Some,
        job_at(accounts, job_id)->0.total_paid != 0,
    ensures
        job_at(operation.after(accounts, now), job_id)->0.total_paid == job_at(
            accounts,
            job_id,
        )->0.total_paid,
{
    every_operation_is_orderly(operation, accounts, now);
}

/// Jobs do not contend: an operation leaves every job that it is not about
/// as it is, and the escrow of every job that it is not about as well.
pub proof fn other_jobs_are_untouched(
    operation: Operation,
    accounts: Accounts,
    now: i64,
    other: u64,
)
    requires
        sound(accounts),
        operation.job() != Some(other),
    ensures
        job_at(accounts, other) is Some ==> job_at(operation.after(accounts, now), other)
            == job_at(accounts, other),
        escrow_at(operation.after(accounts, now), other) == escrow_at(accounts, other),
{
    every_operation_is_orderly(operation, accounts, now);
}

/// A job leaves the records only by being deleted.
pub proof fn jobs_go_only_by_deletion(
    operation: Operation,
    accounts: Accounts,
    now: i64,
    job_id: u64,
)
    requires
        sound(accounts),
        job_at(accounts, job_id) is Some,
        job_at(operation.after(accounts, now), job_id) is None,
    ensures
        operation is DeleteJob,
        operation.job() == Some(job_id),
{
    every_operation_is_orderly(operation, accounts, now);
}

} // verus!
