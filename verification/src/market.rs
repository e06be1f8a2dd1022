//! The marketplace: all records in one store, and every operation as a call
//! that finds its records by key, goes through as a whole or changes nothing.

pub mod accounts;
pub mod dispute_ops;
pub mod funds;
pub mod job_ops;
pub mod laws;
pub mod operation;
pub mod user_ops;

use crate::error::{reports, ErrorCode};
use crate::keys::AccountKey;
use crate::market::accounts::{counter_at, escrow_at, job_at, sound, user_at, wallet_at, Accounts};
use crate::market::dispute_ops::{
    finalize_dispute_after, finalize_dispute_on, finalize_dispute_refusal, raise_dispute_after,
    raise_dispute_on, raise_dispute_refusal, vote_dispute_after, vote_dispute_on,
    vote_dispute_refusal,
};
use crate::market::funds::{no_records_hold_no_funds, total_funds};
use crate::market::job_ops::{
    accept_work_after, accept_work_on, accept_work_refusal, assign_job_after, assign_job_on,
    assign_job_refusal, create_job_after, create_job_on, create_job_refusal, delete_job_after,
    delete_job_on, delete_job_refusal, request_revision_after, request_revision_on,
    request_revision_refusal, submit_proposal_after, submit_proposal_on, submit_proposal_refusal,
    submit_work_after, submit_work_on, submit_work_refusal, withdraw_from_escrow_after,
    withdraw_from_escrow_on, withdraw_from_escrow_refusal,
};
use crate::market::user_ops::{
    fund_wallet_after, fund_wallet_on, fund_wallet_refusal, initialize_job_counter_after,
    initialize_job_counter_on, initialize_job_counter_refusal, register_user_after,
    register_user_on, register_user_refusal, update_resume_after, update_resume_on,
    update_resume_refusal, update_user_info_after, update_user_info_on, update_user_info_refusal,
};
use crate::principal::Principal;
use crate::state::{Job, JobCounter, Resume, User};
use crate::store::{Account, AccountStore};
use crate::users::text_of;
use vstd::prelude::*;

verus! {

/// The ledger of a job marketplace: users, jobs, escrows and wallets, and the
/// operations on them. Every operation either goes through as a whole or
/// changes nothing. At all times every record is stored under the key it
/// belongs under, every job is well formed and every escrow has kept its
/// books.
pub struct Marketplace {
    store: AccountStore,
}

impl View for Marketplace {
    type V = Accounts;

    closed spec fn view(&self) -> Accounts {
        self.store@
    }
}

impl Marketplace {
    #[verifier::type_invariant]
    spec fn books_kept(&self) -> bool {
        sound(self.store@)
    }

    /// A marketplace without records, and so without funds.
    pub fn new() -> (market: Marketplace)
        ensures
            market@ == Accounts::empty(),
            sound(market@),
            total_funds(market@) == 0,
    {
        proof {
            no_records_hold_no_funds();
        }
        Marketplace { store: AccountStore::new() }
    }

    /// The user record of `who`.
    pub fn user(&self, who: &Principal) -> (r: Result<&User, ErrorCode>)
        ensures
            match r {
                Ok(user) => user_at(self@, *who) == Some(user@) && user.authority == *who,
                Err(e) => e == ErrorCode::NotFound && user_at(self@, *who) is None,
            },
            sound(self@),
    {
        proof {
            use_type_invariant(self);
        }
        match self.store.get(&AccountKey::User(*who)) {
            Ok(Account::User(user)) => Ok(user),
            _ => Err(ErrorCode::NotFound),
        }
    }

    /// The job numbered `job_id`. It is well formed: among other things it
    /// has paid out nothing or exactly its budget, and no freelancer has two
    /// bids on it.
    pub fn job(&self, job_id: u64) -> (r: Result<&Job, ErrorCode>)
        ensures
            match r {
                Ok(job) => job_at(self@, job_id) == Some(job@) && job.job_id == job_id && job@.wf(),
                Err(e) => e == ErrorCode::NotFound && job_at(self@, job_id) is None,
            },
            sound(self@),
    {
        proof {
            use_type_invariant(self);
        }
        match self.store.get(&AccountKey::Job(job_id)) {
            Ok(Account::Job(job)) => Ok(job),
            _ => Err(ErrorCode::NotFound),
        }
    }

    /// What the escrow of job `job_id` holds: nothing where the job has no
    /// escrow.
    pub fn escrow_balance(&self, job_id: u64) -> (held: u64)
        ensures
            held == match escrow_at(self@, job_id) {
                Some(escrow) => escrow.balance,
                None => 0,
            },
            escrow_at(self@, job_id) matches Some(escrow) ==> escrow.conserved(),
            sound(self@),
    {
        proof {
            use_type_invariant(self);
        }
        match self.store.get(&AccountKey::Escrow(job_id)) {
            Ok(Account::Escrow(escrow)) => escrow.balance(),
            _ => 0,
        }
    }

    /// What the wallet of `who` holds.
    pub fn wallet_balance(&self, who: &Principal) -> (held: u64)
        ensures
            held == wallet_at(self@, *who).balance,
            sound(self@),
    {
        proof {
            use_type_invariant(self);
        }
        match self.store.get(&AccountKey::Wallet(*who)) {
            Ok(Account::Wallet(wallet)) => wallet.balance,
            _ => 0,
        }
    }

    /// The number the next job posted will get.
    pub fn next_job_id(&self) -> (r: Result<u64, ErrorCode>)
        ensures
            match r {
                Ok(count) => counter_at(self@) == Some(JobCounter { count }),
                Err(e) => e == ErrorCode::NotFound && counter_at(self@) is None,
            },
            sound(self@),
    {
        proof {
            use_type_invariant(self);
        }
        match self.store.get(&AccountKey::JobCounter) {
            Ok(Account::JobCounter(counter)) => Ok(counter.count),
            _ => Err(ErrorCode::NotFound),
        }
    }

    /// `amount` comes into the wallet of `owner` from outside the
    /// marketplace. Refused, it changes nothing.
    pub fn fund_wallet(&mut self, owner: Principal, amount: u64) -> (r: Result<(), ErrorCode>)
        ensures
            reports(r, fund_wallet_refusal(old(self)@, owner, amount)),
            final(self)@ == fund_wallet_after(old(self)@, owner, amount),
            sound(final(self)@),
    {
        proof {
            use_type_invariant(&*self);
        }
        let mut store = AccountStore::new();
        core::mem::swap(&mut self.store, &mut store);
        let r = fund_wallet_on(&mut store, owner, amount);
        core::mem::swap(&mut self.store, &mut store);
        r
    }

    /// Registers `authority` with a fresh user record. Refused, it changes nothing.
    pub fn register_user(
        &mut self,
        authority: Principal,
        name: String,
        is_client: bool,
        is_freelancer: bool,
        resume: Option<Resume>,
        now: i64,
    ) -> (r: Result<(), ErrorCode>)
        ensures
            reports(r, register_user_refusal(old(self)@, authority)),
            final(self)@ == register_user_after(
                old(self)@,
                authority,
                name@,
                is_client,
                is_freelancer,
                resume,
                now,
            ),
            sound(final(self)@),
    {
        proof {
            use_type_invariant(&*self);
        }
        let mut store = AccountStore::new();
        core::mem::swap(&mut self.store, &mut store);
        let r = register_user_on(
            &mut store,
            authority,
            name,
            is_client,
            is_freelancer,
            resume,
            now,
        );
        core::mem::swap(&mut self.store, &mut store);
        r
    }

    /// Changes the name and role flags of `authority`. Refused, it changes nothing.
    pub fn update_user_info(
        &mut self,
        authority: Principal,
        new_name: Option<String>,
        new_is_client: Option<bool>,
        new_is_freelancer: Option<bool>,
    ) -> (r: Result<(), ErrorCode>)
        ensures
            reports(r, update_user_info_refusal(old(self)@, authority)),
            final(self)@ == update_user_info_after(
                old(self)@,
                authority,
                text_of(new_name),
                new_is_client,
                new_is_freelancer,
            ),
            sound(final(self)@),
    {
        proof {
            use_type_invariant(&*self);
        }
        let mut store = AccountStore::new();
        core::mem::swap(&mut self.store, &mut store);
        let r = update_user_info_on(
            &mut store,
            authority,
            new_name,
            new_is_client,
            new_is_freelancer,
        );
        core::mem::swap(&mut self.store, &mut store);
        r
    }

    /// Replaces the resume of `authority`. Refused, it changes nothing.
    pub fn update_resume(
        &mut self,
        authority: Principal,
        new_resume: Resume,
        now: i64,
    ) -> (r: Result<(), ErrorCode>)
        ensures
            reports(r, update_resume_refusal(old(self)@, authority, new_resume)),
            final(self)@ == update_resume_after(old(self)@, authority, new_resume, now),
            sound(final(self)@),
    {
        proof {
            use_type_invariant(&*self);
        }
        let mut store = AccountStore::new();
        core::mem::swap(&mut self.store, &mut store);
        let r = update_resume_on(&mut store, authority, new_resume, now);
        core::mem::swap(&mut self.store, &mut store);
        r
    }

    /// Sets up the job counter, once. Refused, it changes nothing.
    pub fn initialize_job_counter(
        &mut self,
        authority: Principal,
    ) -> (r: Result<(), ErrorCode>)
        ensures
            reports(r, initialize_job_counter_refusal(old(self)@)),
            final(self)@ == initialize_job_counter_after(old(self)@),
            sound(final(self)@),
    {
        proof {
            use_type_invariant(&*self);
        }
        let mut store = AccountStore::new();
        core::mem::swap(&mut self.store, &mut store);
        let r = initialize_job_counter_on(&mut store, authority);
        core::mem::swap(&mut self.store, &mut store);
        r
    }

    /// `authority` posts a job. It gets the number the job counter shows.
    /// Refused, it changes nothing.
    pub fn create_job(
        &mut self,
        authority: Principal,
        title: String,
        description: String,
        budget: u64,
        deadline: i64,
        skills: Vec<String>,
        category: String,
        now: i64,
    ) -> (r: Result<(), ErrorCode>)
        ensures
            reports(
                r,
                create_job_refusal(
                    old(self)@,
                    authority,
                    title@,
                    description@,
                    deadline,
                    skills@,
                    category@,
                    now,
                ),
            ),
            final(self)@ == create_job_after(
                old(self)@,
                authority,
                title@,
                description@,
                budget,
                deadline,
                skills@,
                category@,
                now,
            ),
            sound(final(self)@),
    {
        proof {
            use_type_invariant(&*self);
        }
        let mut store = AccountStore::new();
        core::mem::swap(&mut self.store, &mut store);
        let r = create_job_on(
            &mut store,
            authority,
            title,
            description,
            budget,
            deadline,
            skills,
            category,
            now,
        );
        core::mem::swap(&mut self.store, &mut store);
        r
    }

    /// `freelancer` bids `proposed_amount` on job `job_id`. Refused, it changes nothing.
    pub fn submit_proposal(
        &mut self,
        freelancer: Principal,
        job_id: u64,
        proposed_amount: u64,
        now: i64,
    ) -> (r: Result<(), ErrorCode>)
        ensures
            reports(r, submit_proposal_refusal(old(self)@, freelancer, job_id, proposed_amount)),
            final(self)@ == submit_proposal_after(
                old(self)@,
                freelancer,
                job_id,
                proposed_amount,
                now,
            ),
            sound(final(self)@),
    {
        proof {
            use_type_invariant(&*self);
        }
        let mut store = AccountStore::new();
        core::mem::swap(&mut self.store, &mut store);
        let r = submit_proposal_on(&mut store, freelancer, job_id, proposed_amount, now);
        core::mem::swap(&mut self.store, &mut store);
        r
    }

    /// `client` picks the bid of `freelancer` at `bid_amount` for job `job_id`:
    /// the amount goes from the client's wallet into the job's escrow. An
    /// escrow that has no record yet is made under `escrow_address`. Refused, it changes nothing.
    pub fn assign_job(
        &mut self,
        client: Principal,
        job_id: u64,
        freelancer: Principal,
        bid_amount: u64,
        escrow_address: Principal,
        now: i64,
    ) -> (r: Result<(), ErrorCode>)
        ensures
            reports(
                r,
                assign_job_refusal(
                    old(self)@,
                    client,
                    job_id,
                    freelancer,
                    bid_amount,
                    escrow_address,
                ),
            ),
            final(self)@ == assign_job_after(
                old(self)@,
                client,
                job_id,
                freelancer,
                bid_amount,
                escrow_address,
                now,
            ),
            sound(final(self)@),
    {
        proof {
            use_type_invariant(&*self);
        }
        let mut store = AccountStore::new();
        core::mem::swap(&mut self.store, &mut store);
        let r = assign_job_on(
            &mut store,
            client,
            job_id,
            freelancer,
            bid_amount,
            escrow_address,
            now,
        );
        core::mem::swap(&mut self.store, &mut store);
        r
    }

    /// `freelancer` hands in work for job `job_id`. Refused, it changes nothing.
    pub fn submit_work(
        &mut self,
        freelancer: Principal,
        job_id: u64,
        work_url: String,
        work_description: String,
        now: i64,
    ) -> (r: Result<(), ErrorCode>)
        ensures
            reports(
                r,
                submit_work_refusal(old(self)@, freelancer, job_id, work_url@, work_description@),
            ),
            final(self)@ == submit_work_after(
                old(self)@,
                freelancer,
                job_id,
                work_url@,
                work_description@,
                now,
            ),
            sound(final(self)@),
    {
        proof {
            use_type_invariant(&*self);
        }
        let mut store = AccountStore::new();
        core::mem::swap(&mut self.store, &mut store);
        let r = submit_work_on(&mut store, freelancer, job_id, work_url, work_description, now);
        core::mem::swap(&mut self.store, &mut store);
        r
    }

    /// `client` sends the submitted work of job `job_id` back for revision.
    /// Refused, it changes nothing.
    pub fn request_revision(
        &mut self,
        client: Principal,
        job_id: u64,
        revision_description: String,
        now: i64,
    ) -> (r: Result<(), ErrorCode>)
        ensures
            reports(r, request_revision_refusal(old(self)@, client, job_id, revision_description@)),
            final(self)@ == request_revision_after(
                old(self)@,
                client,
                job_id,
                revision_description@,
                now,
            ),
            sound(final(self)@),
    {
        proof {
            use_type_invariant(&*self);
        }
        let mut store = AccountStore::new();
        core::mem::swap(&mut self.store, &mut store);
        let r = request_revision_on(&mut store, client, job_id, revision_description, now);
        core::mem::swap(&mut self.store, &mut store);
        r
    }

    /// `client` accepts the submitted work of job `job_id` and rates the
    /// freelancer. Refused, it changes nothing.
    pub fn accept_work(
        &mut self,
        client: Principal,
        job_id: u64,
        freelancer_rating: u8,
        now: i64,
    ) -> (r: Result<(), ErrorCode>)
        ensures
            reports(r, accept_work_refusal(old(self)@, client, job_id, freelancer_rating)),
            final(self)@ == accept_work_after(old(self)@, client, job_id, freelancer_rating, now),
            sound(final(self)@),
    {
        proof {
            use_type_invariant(&*self);
        }
        let mut store = AccountStore::new();
        core::mem::swap(&mut self.store, &mut store);
        let r = accept_work_on(&mut store, client, job_id, freelancer_rating, now);
        core::mem::swap(&mut self.store, &mut store);
        r
    }

    /// `freelancer` collects the escrow of the completed job `job_id` and rates
    /// the client. Refused, it changes nothing.
    pub fn withdraw_from_escrow(
        &mut self,
        freelancer: Principal,
        job_id: u64,
        client_rating: u8,
        now: i64,
    ) -> (r: Result<(), ErrorCode>)
        ensures
            reports(r, withdraw_from_escrow_refusal(old(self)@, freelancer, job_id, client_rating)),
            final(self)@ == withdraw_from_escrow_after(
                old(self)@,
                freelancer,
                job_id,
                client_rating,
                now,
            ),
            sound(final(self)@),
    {
        proof {
            use_type_invariant(&*self);
        }
        let mut store = AccountStore::new();
        core::mem::swap(&mut self.store, &mut store);
        let r = withdraw_from_escrow_on(&mut store, freelancer, job_id, client_rating, now);
        core::mem::swap(&mut self.store, &mut store);
        r
    }

    /// `client` removes the completed and fully paid job `job_id`. Refused, it changes nothing.
    pub fn delete_job(
        &mut self,
        client: Principal,
        job_id: u64,
    ) -> (r: Result<(), ErrorCode>)
        ensures
            reports(r, delete_job_refusal(old(self)@, client, job_id)),
            final(self)@ == delete_job_after(old(self)@, client, job_id),
            sound(final(self)@),
    {
        proof {
            use_type_invariant(&*self);
        }
        let mut store = AccountStore::new();
        core::mem::swap(&mut self.store, &mut store);
        let r = delete_job_on(&mut store, client, job_id);
        core::mem::swap(&mut self.store, &mut store);
        r
    }

    /// `raiser`, a party of job `job_id`, contests it. Refused, it changes nothing.
    pub fn raise_dispute(
        &mut self,
        raiser: Principal,
        job_id: u64,
        reason: String,
        now: i64,
    ) -> (r: Result<(), ErrorCode>)
        ensures
            reports(r, raise_dispute_refusal(old(self)@, raiser, job_id, reason@, now)),
            final(self)@ == raise_dispute_after(old(self)@, raiser, job_id, reason@, now),
            sound(final(self)@),
    {
        proof {
            use_type_invariant(&*self);
        }
        let mut store = AccountStore::new();
        core::mem::swap(&mut self.store, &mut store);
        let r = raise_dispute_on(&mut store, raiser, job_id, reason, now);
        core::mem::swap(&mut self.store, &mut store);
        r
    }

    /// `voter` votes on the dispute of job `job_id`: `support` is a vote for the
    /// side that raised it. Refused, it changes nothing.
    pub fn vote_dispute(
        &mut self,
        voter: Principal,
        job_id: u64,
        support: bool,
        now: i64,
    ) -> (r: Result<(), ErrorCode>)
        ensures
            reports(r, vote_dispute_refusal(old(self)@, voter, job_id, support, now)),
            final(self)@ == vote_dispute_after(old(self)@, voter, job_id, support, now),
            sound(final(self)@),
    {
        proof {
            use_type_invariant(&*self);
        }
        let mut store = AccountStore::new();
        core::mem::swap(&mut self.store, &mut store);
        let r = vote_dispute_on(&mut store, voter, job_id, support, now);
        core::mem::swap(&mut self.store, &mut store);
        r
    }

    /// Settles the dispute of job `job_id` once voting has ended. Refused, it changes nothing.
    pub fn finalize_dispute(
        &mut self,
        job_id: u64,
        now: i64,
    ) -> (r: Result<(), ErrorCode>)
        ensures
            reports(r, finalize_dispute_refusal(old(self)@, job_id, now)),
            final(self)@ == finalize_dispute_after(old(self)@, job_id, now),
            sound(final(self)@),
    {
        proof {
            use_type_invariant(&*self);
        }
        let mut store = AccountStore::new();
        core::mem::swap(&mut self.store, &mut store);
        let r = finalize_dispute_on(&mut store, job_id, now);
        core::mem::swap(&mut self.store, &mut store);
        r
    }
}

} // verus!
