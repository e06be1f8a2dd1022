//! Operations as values: one type for every call on a marketplace.

use crate::error::{reports, ErrorCode};
use crate::market::Marketplace;
use crate::market::accounts::{sound, Accounts};
use crate::market::dispute_ops::{
    finalize_dispute_after, finalize_dispute_refusal, raise_dispute_after, raise_dispute_refusal,
    vote_dispute_after, vote_dispute_refusal,
};
use crate::market::job_ops::{
    accept_work_after, accept_work_refusal, assign_job_after, assign_job_refusal, create_job_after,
    create_job_refusal, delete_job_after, delete_job_refusal, request_revision_after,
    request_revision_refusal, submit_proposal_after, submit_proposal_refusal, submit_work_after,
    submit_work_refusal, withdraw_from_escrow_after, withdraw_from_escrow_refusal,
};
use crate::market::user_ops::{
    fund_wallet_after, fund_wallet_refusal, initialize_job_counter_after,
    initialize_job_counter_refusal, register_user_after, register_user_refusal, update_resume_after,
    update_resume_refusal, update_user_info_after, update_user_info_refusal,
};
use crate::principal::Principal;
use crate::state::Resume;
use crate::users::text_of;
use vstd::prelude::*;

verus! {

/// One call on a marketplace, with the principal who makes it and its
/// arguments.
pub enum Operation {
    RegisterUser {
        authority: Principal,
        name: String,
        is_client: bool,
        is_freelancer: bool,
        resume: Option<Resume>,
    },
    UpdateUserInfo {
        authority: Principal,
        new_name: Option<String>,
        new_is_client: Option<bool>,
        new_is_freelancer: Option<bool>,
    },
    UpdateResume { authority: Principal, new_resume: Resume },
    InitializeJobCounter { authority: Principal },
    CreateJob {
        authority: Principal,
        title: String,
        description: String,
        budget: u64,
        deadline: i64,
        skills: Vec<String>,
        category: String,
    },
    SubmitProposal { freelancer: Principal, job_id: u64, proposed_amount: u64 },
    AssignJob {
        client: Principal,
        job_id: u64,
        freelancer: Principal,
        bid_amount: u64,
        escrow_address: Principal,
    },
    SubmitWork { freelancer: Principal, job_id: u64, work_url: String, work_description: String },
    RequestRevision { client: Principal, job_id: u64, revision_description: String },
    AcceptWork { client: Principal, job_id: u64, freelancer_rating: u8 },
    WithdrawFromEscrow { freelancer: Principal, job_id: u64, client_rating: u8 },
    DeleteJob { client: Principal, job_id: u64 },
    RaiseDispute { raiser: Principal, job_id: u64, reason: String },
    VoteDispute { voter: Principal, job_id: u64, support: bool },
    FinalizeDispute { job_id: u64 },
    FundWallet { owner: Principal, amount: u64 },
}

impl Operation {
    /// The job the operation is about, if it is about one that exists
    /// already.
    pub open spec fn job(self) -> Option<u64> {
        match self {
            Operation::SubmitProposal { job_id, .. } => Some(job_id),
            Operation::AssignJob { job_id, .. } => Some(job_id),
            Operation::SubmitWork { job_id, .. } => Some(job_id),
            Operation::RequestRevision { job_id, .. } => Some(job_id),
            Operation::AcceptWork { job_id, .. } => Some(job_id),
            Operation::WithdrawFromEscrow { job_id, .. } => Some(job_id),
            Operation::DeleteJob { job_id, .. } => Some(job_id),
            Operation::RaiseDispute { job_id, .. } => Some(job_id),
            Operation::VoteDispute { job_id, .. } => Some(job_id),
            Operation::FinalizeDispute { job_id } => Some(job_id),
            _ => None,
        }
    }

    /// Why the operation, made at time `now` on `accounts`, is refused, if it
    /// is.
    pub open spec fn refusal(self, accounts: Accounts, now: i64) -> Option<ErrorCode> {
        match self {
            Operation::RegisterUser { authority, .. } => register_user_refusal(accounts, authority),
            Operation::UpdateUserInfo { authority, .. } => update_user_info_refusal(
                accounts,
                authority,
            ),
            Operation::UpdateResume { authority, new_resume } => update_resume_refusal(
                accounts,
                authority,
                new_resume,
            ),
            Operation::InitializeJobCounter { .. } => initialize_job_counter_refusal(accounts),
            Operation::CreateJob {
                authority,
                title,
                description,
                deadline,
                skills,
                category,
                ..
            } => create_job_refusal(
                accounts,
                authority,
                title@,
                description@,
                deadline,
                skills@,
                category@,
                now,
            ),
            Operation::SubmitProposal {
                freelancer,
                job_id,
                proposed_amount,
            } => submit_proposal_refusal(accounts, freelancer, job_id, proposed_amount),
            Operation::AssignJob {
                client,
                job_id,
                freelancer,
                bid_amount,
                escrow_address,
            } => assign_job_refusal(
                accounts,
                client,
                job_id,
                freelancer,
                bid_amount,
                escrow_address,
            ),
            Operation::SubmitWork {
                freelancer,
                job_id,
                work_url,
                work_description,
            } => submit_work_refusal(accounts, freelancer, job_id, work_url@, work_description@),
            Operation::RequestRevision {
                client,
                job_id,
                revision_description,
            } => request_revision_refusal(accounts, client, job_id, revision_description@),
            Operation::AcceptWork { client, job_id, freelancer_rating } => accept_work_refusal(
                accounts,
                client,
                job_id,
                freelancer_rating,
            ),
            Operation::WithdrawFromEscrow {
                freelancer,
                job_id,
                client_rating,
            } => withdraw_from_escrow_refusal(accounts, freelancer, job_id, client_rating),
            Operation::DeleteJob { client, job_id } => delete_job_refusal(accounts, client, job_id),
            Operation::RaiseDispute { raiser, job_id, reason } => raise_dispute_refusal(
                accounts,
                raiser,
                job_id,
                reason@,
                now,
            ),
            Operation::VoteDispute { voter, job_id, support } => vote_dispute_refusal(
                accounts,
                voter,
                job_id,
                support,
                now,
            ),
            Operation::FinalizeDispute { job_id } => finalize_dispute_refusal(
                accounts,
                job_id,
                now,
            ),
            Operation::FundWallet { owner, amount } => fund_wallet_refusal(accounts, owner, amount),
        }
    }

    /// The records after the operation, made at time `now` on `accounts`.
    pub open spec fn after(self, accounts: Accounts, now: i64) -> Accounts {
        match self {
            Operation::RegisterUser {
                authority,
                name,
                is_client,
                is_freelancer,
                resume,
            } => register_user_after(
                accounts,
                authority,
                name@,
                is_client,
                is_freelancer,
                resume,
                now,
            ),
            Operation::UpdateUserInfo {
                authority,
                new_name,
                new_is_client,
                new_is_freelancer,
            } => update_user_info_after(
                accounts,
                authority,
                text_of(new_name),
                new_is_client,
                new_is_freelancer,
            ),
            Operation::UpdateResume { authority, new_resume } => update_resume_after(
                accounts,
                authority,
                new_resume,
                now,
            ),
            Operation::InitializeJobCounter { .. } => initialize_job_counter_after(accounts),
            Operation::CreateJob {
                authority,
                title,
                description,
                budget,
                deadline,
                skills,
                category,
            } => create_job_after(
                accounts,
                authority,
                title@,
                description@,
                budget,
                deadline,
                skills@,
                category@,
                now,
            ),
            Operation::SubmitProposal {
                freelancer,
                job_id,
                proposed_amount,
            } => submit_proposal_after(accounts, freelancer, job_id, proposed_amount, now),
            Operation::AssignJob {
                client,
                job_id,
                freelancer,
                bid_amount,
                escrow_address,
            } => assign_job_after(
                accounts,
                client,
                job_id,
                freelancer,
                bid_amount,
                escrow_address,
                now,
            ),
            Operation::SubmitWork {
                freelancer,
                job_id,
                work_url,
                work_description,
            } => submit_work_after(accounts, freelancer, job_id, work_url@, work_description@, now),
            Operation::RequestRevision {
                client,
                job_id,
                revision_description,
            } => request_revision_after(accounts, client, job_id, revision_description@, now),
            Operation::AcceptWork { client, job_id, freelancer_rating } => accept_work_after(
                accounts,
                client,
                job_id,
                freelancer_rating,
                now,
            ),
            Operation::WithdrawFromEscrow {
                freelancer,
                job_id,
                client_rating,
            } => withdraw_from_escrow_after(accounts, freelancer, job_id, client_rating, now),
            Operation::DeleteJob { client, job_id } => delete_job_after(accounts, client, job_id),
            Operation::RaiseDispute { raiser, job_id, reason } => raise_dispute_after(
                accounts,
                raiser,
                job_id,
                reason@,
                now,
            ),
            Operation::VoteDispute { voter, job_id, support } => vote_dispute_after(
                accounts,
                voter,
                job_id,
                support,
                now,
            ),
            Operation::FinalizeDispute { job_id } => finalize_dispute_after(accounts, job_id, now),
            Operation::FundWallet { owner, amount } => fund_wallet_after(accounts, owner, amount),
        }
    }
}

impl Marketplace {
    /// Makes one operation at time `now`. It goes through as a whole or is
    /// refused and changes nothing.
    pub fn apply(&mut self, operation: Operation, now: i64) -> (r: Result<(), ErrorCode>)
        ensures
            reports(r, operation.refusal(old(self)@, now)),
            final(self)@ == operation.after(old(self)@, now),
            sound(final(self)@),
    {
        match operation {
            Operation::RegisterUser {
                authority,
                name,
                is_client,
                is_freelancer,
                resume,
            } => self.register_user(authority, name, is_client, is_freelancer, resume, now),
            Operation::UpdateUserInfo {
                authority,
                new_name,
                new_is_client,
                new_is_freelancer,
            } => self.update_user_info(authority, new_name, new_is_client, new_is_freelancer),
            Operation::UpdateResume { authority, new_resume } => self.update_resume(
                authority,
                new_resume,
                now,
            ),
            Operation::InitializeJobCounter { authority } => self.initialize_job_counter(authority),
            Operation::CreateJob {
                authority,
                title,
                description,
                budget,
                deadline,
                skills,
                category,
            } => self.create_job(
                authority,
                title,
                description,
                budget,
                deadline,
                skills,
                category,
                now,
            ),
            Operation::SubmitProposal {
                freelancer,
                job_id,
                proposed_amount,
            } => self.submit_proposal(freelancer, job_id, proposed_amount, now),
            Operation::AssignJob {
                client,
                job_id,
                freelancer,
                bid_amount,
                escrow_address,
            } => self.assign_job(client, job_id, freelancer, bid_amount, escrow_address, now),
            Operation::SubmitWork {
                freelancer,
                job_id,
                work_url,
                work_description,
            } => self.submit_work(freelancer, job_id, work_url, work_description, now),
            Operation::RequestRevision {
                client,
                job_id,
                revision_description,
            } => self.request_revision(client, job_id, revision_description, now),
            Operation::AcceptWork { client, job_id, freelancer_rating } => self.accept_work(
                client,
                job_id,
                freelancer_rating,
                now,
            ),
            Operation::WithdrawFromEscrow {
                freelancer,
                job_id,
                client_rating,
            } => self.withdraw_from_escrow(freelancer, job_id, client_rating, now),
            Operation::DeleteJob { client, job_id } => self.delete_job(client, job_id),
            Operation::RaiseDispute { raiser, job_id, reason } => self.raise_dispute(
                raiser,
                job_id,
                reason,
                now,
            ),
            Operation::VoteDispute { voter, job_id, support } => self.vote_dispute(
                voter,
                job_id,
                support,
                now,
            ),
            Operation::FinalizeDispute { job_id } => self.finalize_dispute(job_id, now),
            Operation::FundWallet { owner, amount } => self.fund_wallet(owner, amount),
        }
    }
}

} // verus!
