//! The life of a job: it is posted, assigned, worked on, revised, accepted,
//! paid and deleted.

use crate::bidding::matching_bid_exists;
use crate::contexts::{
    AcceptWork, AcceptWorkView, AssignJob, AssignJobView, CreateJob, CreateJobView, DeleteJob,
    DeleteJobView, InitializeJobCounter, RequestRevision, RequestRevisionView, SubmitWork,
    SubmitWorkView, WithdrawFromEscrow, WithdrawFromEscrowView,
};
use crate::error::ErrorCode;
use crate::principal::{is_some_of, Principal};
use crate::state::{
    byte_len, has_matching_bid, reputation_points, text_len, valid_rating, Bid, JobCounter,
    JobStatus, JobView, Review, UserView, MAX_CATEGORY_LEN, MAX_DESCRIPTION_LEN, MAX_RATING,
    MAX_REVISION_LEN, MAX_SKILLS, MAX_TITLE_LEN, MAX_URL_LEN, MIN_RATING, REPUTATION_PER_STAR,
};
use vstd::prelude::*;

verus! {

impl CreateJobView {
    /// Why posting a job is refused, if it is. The first failing test
    /// decides.
    pub open spec fn rejection(
        self,
        title: Seq<char>,
        description: Seq<char>,
        deadline: i64,
        skills: Seq<String>,
        category: Seq<char>,
        now: i64,
    ) -> Option<ErrorCode> {
        if self.user.authority != self.authority {
            Some(ErrorCode::AuthorityMismatch)
        } else if deadline <= now {
            Some(ErrorCode::InvalidDeadline)
        } else if byte_len(title) > MAX_TITLE_LEN {
            Some(ErrorCode::TitleTooLong)
        } else if byte_len(description) > MAX_DESCRIPTION_LEN {
            Some(ErrorCode::DescriptionTooLong)
        } else if skills.len() > MAX_SKILLS {
            Some(ErrorCode::TooManySkills)
        } else if byte_len(category) > MAX_CATEGORY_LEN {
            Some(ErrorCode::CategoryTooLong)
        } else if !self.fits() {
            Some(ErrorCode::ArithmeticOverflow)
        } else {
            None
        }
    }

    /// The job counter and the client's count of active jobs stay within
    /// sixty-four bits.
    pub open spec fn fits(self) -> bool {
        &&& self.job_counter.count < u64::MAX
        &&& self.user.active_jobs < u64::MAX
    }

    /// What posting at time `now` makes of the records: the job is new,
    /// open and unassigned, numbered by the counter, without bids, work or
    /// dispute; the counter has moved on; the client counts one more active
    /// job.
    pub open spec fn outcome(
        self,
        title: Seq<char>,
        description: Seq<char>,
        budget: u64,
        deadline: i64,
        skills: Seq<String>,
        category: Seq<char>,
        now: i64,
    ) -> CreateJobView {
        CreateJobView {
            job: JobView {
                authority: self.authority,
                client: self.authority,
                freelancer: None,
                job_id: self.job_counter.count,
                title,
                description,
                budget,
                deadline,
                status: JobStatus::Open,
                created_at: now,
                updated_at: now,
                bidders: Seq::<Bid>::empty(),
                reviews: Seq::<Review>::empty(),
                dispute: None,
                skills,
                category,
                escrow: Principal::nobody(),
                total_paid: 0,
                work_submitted: false,
                work_submission_url: Seq::<char>::empty(),
                work_submission_description: Seq::<char>::empty(),
                work_submitted_at: None,
                work_approved: false,
                work_approved_at: None,
                revision_request: None,
            },
            job_counter: JobCounter { count: (self.job_counter.count + 1) as u64 },
            authority: self.authority,
            user: UserView { active_jobs: (self.user.active_jobs + 1) as u64, ..self.user },
        }
    }
}

/// The principal posts a job: the job record is filled, numbered by the
/// counter, and the counter moves on.
pub fn create_job(
    ctx: &mut CreateJob,
    title: String,
    description: String,
    budget: u64,
    deadline: i64,
    skills: Vec<String>,
    category: String,
    now: i64,
) -> (r: Result<(), ErrorCode>)
    ensures
        match r {
            Ok(()) => {
                &&& old(ctx)@.rejection(title@, description@, deadline, skills@, category@, now)
                    is None
                &&& final(ctx)@ == old(ctx)@.outcome(
                    title@,
                    description@,
                    budget,
                    deadline,
                    skills@,
                    category@,
                    now,
                )
            },
            Err(e) => {
                &&& old(ctx)@.rejection(title@, description@, deadline, skills@, category@, now)
                    == Some(e)
                &&& *final(ctx) == *old(ctx)
            },
        },
        r is Ok ==> final(ctx).job@.wf() && final(ctx).job.status == JobStatus::Open,
{
    if ctx.user.authority != ctx.authority {
        return Err(ErrorCode::AuthorityMismatch);
    }
    if deadline <= now {
        return Err(ErrorCode::InvalidDeadline);
    }
    if text_len(&title) > MAX_TITLE_LEN {
        return Err(ErrorCode::TitleTooLong);
    }
    if text_len(&description) > MAX_DESCRIPTION_LEN {
        return Err(ErrorCode::DescriptionTooLong);
    }
    if skills.len() > MAX_SKILLS {
        return Err(ErrorCode::TooManySkills);
    }
    if text_len(&category) > MAX_CATEGORY_LEN {
        return Err(ErrorCode::CategoryTooLong);
    }
    if ctx.job_counter.count == u64::MAX || ctx.user.active_jobs == u64::MAX {
        return Err(ErrorCode::ArithmeticOverflow);
    }
    let job_id = ctx.job_counter.count;
    ctx.job_counter.count = ctx.job_counter.count + 1;

    ctx.job.authority = ctx.authority;
    ctx.job.client = ctx.authority;
    ctx.job.freelancer = None;
    ctx.job.job_id = job_id;
    ctx.job.title = title;
    ctx.job.description = description;
    ctx.job.budget = budget;
    ctx.job.deadline = deadline;
    ctx.job.status = JobStatus::Open;
    ctx.job.created_at = now;
    ctx.job.updated_at = now;
    ctx.job.bidders = Vec::new();
    ctx.job.reviews = Vec::new();
    ctx.job.dispute = None;
    ctx.job.skills = skills;
    ctx.job.category = category;
    ctx.job.escrow = Principal::default();
    ctx.job.total_paid = 0;
    ctx.job.work_submitted = false;
    ctx.job.work_submission_url = String::new();
    ctx.job.work_submission_description = String::new();
    ctx.job.work_submitted_at = None;
    ctx.job.work_approved = false;
    ctx.job.work_approved_at = None;
    ctx.job.revision_request = None;
    ctx.user.active_jobs = ctx.user.active_jobs + 1;
    Ok(())
}

/// Sets the job counter to its start: the first job posted gets number zero.
pub fn initialize_job_counter(ctx: &mut InitializeJobCounter) -> (r: Result<(), ErrorCode>)
    ensures
        r is Ok,
        final(ctx).job_counter.count == 0,
        final(ctx).authority == old(ctx).authority,
{
    ctx.job_counter.count = 0;
    Ok(())
}

impl AssignJobView {
    /// Why assigning the job to `freelancer` for `bid_amount` is refused, if
    /// it is. The first failing test decides.
    pub open spec fn rejection(self, job_id: u64, freelancer: Principal, bid_amount: u64) -> Option<
        ErrorCode,
    > {
        if self.job.job_id != job_id {
            Some(ErrorCode::NotFound)
        } else if !has_matching_bid(self.job.bidders, freelancer, bid_amount) {
            Some(ErrorCode::BidNotFound)
        } else if self.job.status != JobStatus::Open {
            Some(ErrorCode::JobNotOpen)
        } else if self.job.client != self.client.owner {
            Some(ErrorCode::NotJobClient)
        } else if self.client_user.authority != self.client.owner {
            Some(ErrorCode::UnauthorizedUser)
        } else if self.freelancer_user.authority != freelancer {
            Some(ErrorCode::UnauthorizedUser)
        } else if self.escrow.job_id != job_id {
            Some(ErrorCode::InvalidBump)
        } else if self.client.balance < bid_amount {
            Some(ErrorCode::InsufficientBalance)
        } else if !self.fits(bid_amount) {
            Some(ErrorCode::ArithmeticOverflow)
        } else {
            None
        }
    }

    /// The counters and the escrow balance that assignment moves stay within
    /// sixty-four bits.
    pub open spec fn fits(self, bid_amount: u64) -> bool {
        &&& self.freelancer_user.pending_jobs < u64::MAX
        &&& self.client_user.pending_jobs < u64::MAX
        &&& self.client_user.active_jobs >= 1
        &&& self.escrow.balance + bid_amount <= u64::MAX
    }

    /// What assignment at time `now` makes of the records: the bid amount
    /// has moved from the client's wallet into the escrow, the job is in
    /// progress for `freelancer` at that amount, and both users count one
    /// more pending job, the client one active job less.
    pub open spec fn outcome(
        self,
        freelancer: Principal,
        bid_amount: u64,
        now: i64,
    ) -> AssignJobView {
        AssignJobView {
            job: JobView {
                freelancer: Some(freelancer),
                status: JobStatus::InProgress,
                updated_at: now,
                budget: bid_amount,
                escrow: self.escrow.address,
                ..self.job
            },
            client: self.client.debited(bid_amount),
            client_user: UserView {
                pending_jobs: (self.client_user.pending_jobs + 1) as u64,
                active_jobs: (self.client_user.active_jobs - 1) as u64,
                ..self.client_user
            },
            freelancer_user: UserView {
                pending_jobs: (self.freelancer_user.pending_jobs + 1) as u64,
                ..self.freelancer_user
            },
            escrow: self.escrow.after_deposit(bid_amount),
        }
    }
}

/// The client of job `job_id` picks the bid of `freelancer` at `bid_amount`:
/// the amount goes into escrow and the job is in progress.
pub fn assign_job(
    ctx: &mut AssignJob,
    job_id: u64,
    freelancer: Principal,
    bid_amount: u64,
    now: i64,
) -> (r: Result<(), ErrorCode>)
    ensures
        match r {
            Ok(()) => {
                &&& old(ctx)@.rejection(job_id, freelancer, bid_amount) is None
                &&& final(ctx)@ == old(ctx)@.outcome(freelancer, bid_amount, now)
            },
            Err(e) => {
                &&& old(ctx)@.rejection(job_id, freelancer, bid_amount) == Some(e)
                &&& *final(ctx) == *old(ctx)
            },
        },
        old(ctx).job.status.steps_to(final(ctx).job.status),
        final(ctx).job.total_paid == old(ctx).job.total_paid,
        old(ctx).job@.wf() ==> final(ctx).job@.wf(),
        old(ctx).escrow@.conserved() ==> final(ctx).escrow@.conserved(),
        final(ctx).client.balance + final(ctx).escrow.balance == old(ctx).client.balance
            + old(ctx).escrow.balance,
{
    if ctx.job.job_id != job_id {
        return Err(ErrorCode::NotFound);
    }
    if !matching_bid_exists(&ctx.job.bidders, &freelancer, bid_amount) {
        return Err(ErrorCode::BidNotFound);
    }
    if ctx.job.status != JobStatus::Open {
        return Err(ErrorCode::JobNotOpen);
    }
    if ctx.job.client != ctx.client.owner {
        return Err(ErrorCode::NotJobClient);
    }
    if ctx.client_user.authority != ctx.client.owner {
        return Err(ErrorCode::UnauthorizedUser);
    }
    if ctx.freelancer_user.authority != freelancer {
        return Err(ErrorCode::UnauthorizedUser);
    }
    if ctx.escrow.job_id != job_id {
        return Err(ErrorCode::InvalidBump);
    }
    if ctx.client.balance < bid_amount {
        return Err(ErrorCode::InsufficientBalance);
    }
    if ctx.freelancer_user.pending_jobs == u64::MAX || ctx.client_user.pending_jobs == u64::MAX
        || ctx.client_user.active_jobs == 0 || bid_amount > u64::MAX - ctx.escrow.balance {
        return Err(ErrorCode::ArithmeticOverflow);
    }
    match ctx.escrow.deposit(&mut ctx.job, &mut ctx.client, bid_amount) {
        Ok(()) => {},
        Err(e) => {
            return Err(e);
        },
    }
    ctx.freelancer_user.pending_jobs = ctx.freelancer_user.pending_jobs + 1;
    ctx.client_user.pending_jobs = ctx.client_user.pending_jobs + 1;
    ctx.client_user.active_jobs = ctx.client_user.active_jobs - 1;

    ctx.job.freelancer = Some(freelancer);
    ctx.job.status = JobStatus::InProgress;
    ctx.job.updated_at = now;
    ctx.job.budget = bid_amount;
    Ok(())
}

impl SubmitWorkView {
    /// Why submitting work is refused, if it is. The first failing test
    /// decides.
    pub open spec fn rejection(self, job_id: u64, work_url: Seq<char>, work_description: Seq<char>)
        -> Option<ErrorCode> {
        if self.job.job_id != job_id {
            Some(ErrorCode::NotFound)
        } else if self.job.status != JobStatus::InProgress {
            Some(ErrorCode::JobNotInProgress)
        } else if self.job.freelancer != Some(self.freelancer) {
            Some(ErrorCode::NotAssignedFreelancer)
        } else if self.freelancer_user.authority != self.freelancer {
            Some(ErrorCode::UnauthorizedUser)
        } else if byte_len(work_url) > MAX_URL_LEN {
            Some(ErrorCode::UrlTooLong)
        } else if byte_len(work_description) > MAX_DESCRIPTION_LEN {
            Some(ErrorCode::DescriptionTooLong)
        } else {
            None
        }
    }

    /// What submitting work at time `now` makes of the records: the
    /// submission is stored on the job and any earlier request for revision
    /// is gone.
    pub open spec fn outcome(self, work_url: Seq<char>, work_description: Seq<char>, now: i64)
        -> SubmitWorkView {
        SubmitWorkView {
            job: JobView {
                work_submitted: true,
                work_submission_url: work_url,
                work_submission_description: work_description,
                work_submitted_at: Some(now),
                updated_at: now,
                revision_request: None,
                ..self.job
            },
            ..self
        }
    }
}

/// The assigned freelancer hands in work for job `job_id`.
pub fn submit_work(
    ctx: &mut SubmitWork,
    job_id: u64,
    work_url: String,
    work_description: String,
    now: i64,
) -> (r: Result<(), ErrorCode>)
    ensures
        match r {
            Ok(()) => {
                &&& old(ctx)@.rejection(job_id, work_url@, work_description@) is None
                &&& final(ctx)@ == old(ctx)@.outcome(work_url@, work_description@, now)
            },
            Err(e) => {
                &&& old(ctx)@.rejection(job_id, work_url@, work_description@) == Some(e)
                &&& *final(ctx) == *old(ctx)
            },
        },
        final(ctx).job.status == old(ctx).job.status,
        final(ctx).job.total_paid == old(ctx).job.total_paid,
        old(ctx).job@.wf() ==> final(ctx).job@.wf(),
{
    if ctx.job.job_id != job_id {
        return Err(ErrorCode::NotFound);
    }
    if ctx.job.status != JobStatus::InProgress {
        return Err(ErrorCode::JobNotInProgress);
    }
    if !is_some_of(&ctx.job.freelancer, &ctx.freelancer) {
        return Err(ErrorCode::NotAssignedFreelancer);
    }
    if ctx.freelancer_user.authority != ctx.freelancer {
        return Err(ErrorCode::UnauthorizedUser);
    }
    if text_len(&work_url) > MAX_URL_LEN {
        return Err(ErrorCode::UrlTooLong);
    }
    if text_len(&work_description) > MAX_DESCRIPTION_LEN {
        return Err(ErrorCode::DescriptionTooLong);
    }
    ctx.job.work_submitted = true;
    ctx.job.work_submission_url = work_url;
    ctx.job.work_submission_description = work_description;
    ctx.job.work_submitted_at = Some(now);
    ctx.job.updated_at = now;
    ctx.job.revision_request = None;
    Ok(())
}

impl RequestRevisionView {
    /// Why asking for a revision is refused, if it is. The first failing
    /// test decides.
    pub open spec fn rejection(self, job_id: u64, revision_description: Seq<char>) -> Option<
        ErrorCode,
    > {
        if self.job.job_id != job_id {
            Some(ErrorCode::NotFound)
        } else if self.job.status != JobStatus::InProgress {
            Some(ErrorCode::JobNotInProgress)
        } else if self.job.client != self.client {
            Some(ErrorCode::NotJobClient)
        } else if !self.job.work_submitted {
            Some(ErrorCode::NoWorkSubmitted)
        } else if byte_len(revision_description) > MAX_REVISION_LEN {
            Some(ErrorCode::DescriptionTooLong)
        } else {
            None
        }
    }

    /// What asking for a revision at time `now` makes of the records: the
    /// submission is cleared and the request stored. The status stays as it
    /// is.
    pub open spec fn outcome(
        self,
        revision_description: Seq<char>,
        now: i64,
    ) -> RequestRevisionView {
        RequestRevisionView {
            job: JobView {
                work_submitted: false,
                work_submission_url: Seq::<char>::empty(),
                work_submission_description: Seq::<char>::empty(),
                revision_request: Some(revision_description),
                updated_at: now,
                ..self.job
            },
            ..self
        }
    }
}

/// The client of job `job_id` sends the submitted work back for revision.
pub fn request_revision(
    ctx: &mut RequestRevision,
    job_id: u64,
    revision_description: String,
    now: i64,
) -> (r: Result<(), ErrorCode>)
    ensures
        match r {
            Ok(()) => {
                &&& old(ctx)@.rejection(job_id, revision_description@) is None
                &&& final(ctx)@ == old(ctx)@.outcome(revision_description@, now)
            },
            Err(e) => {
                &&& old(ctx)@.rejection(job_id, revision_description@) == Some(e)
                &&& *final(ctx) == *old(ctx)
            },
        },
        final(ctx).job.status == old(ctx).job.status,
        final(ctx).job.total_paid == old(ctx).job.total_paid,
        old(ctx).job@.wf() ==> final(ctx).job@.wf(),
{
    if ctx.job.job_id != job_id {
        return Err(ErrorCode::NotFound);
    }
    if ctx.job.status != JobStatus::InProgress {
        return Err(ErrorCode::JobNotInProgress);
    }
    if ctx.job.client != ctx.client {
        return Err(ErrorCode::NotJobClient);
    }
    if !ctx.job.work_submitted {
        return Err(ErrorCode::NoWorkSubmitted);
    }
    if text_len(&revision_description) > MAX_REVISION_LEN {
        return Err(ErrorCode::DescriptionTooLong);
    }
    ctx.job.work_submitted = false;
    ctx.job.work_submission_url = String::new();
    ctx.job.work_submission_description = String::new();
    ctx.job.revision_request = Some(revision_description);
    ctx.job.updated_at = now;
    Ok(())
}

impl AcceptWorkView {
    /// Why accepting the work with `rating` is refused, if it is. The first
    /// failing test decides.
    pub open spec fn rejection(self, job_id: u64, rating: u8) -> Option<ErrorCode> {
        if self.job.job_id != job_id {
            Some(ErrorCode::NotFound)
        } else if self.job.status != JobStatus::InProgress {
            Some(ErrorCode::JobNotInProgress)
        } else if self.job.client != self.client {
            Some(ErrorCode::NotJobClient)
        } else if self.client_user.authority != self.client {
            Some(ErrorCode::UnauthorizedUser)
        } else if self.job.freelancer != Some(self.freelancer_user.authority) {
            Some(ErrorCode::UnauthorizedUser)
        } else if !self.job.work_submitted {
            Some(ErrorCode::NoWorkSubmitted)
        } else if !valid_rating(rating) {
            Some(ErrorCode::InvalidRating)
        } else if !self.fits(rating) {
            Some(ErrorCode::ArithmeticOverflow)
        } else {
            None
        }
    }

    /// The counters that acceptance moves stay within sixty-four bits.
    pub open spec fn fits(self, rating: u8) -> bool {
        &&& self.freelancer_user.completed_jobs < u64::MAX
        &&& self.freelancer_user.reputation + reputation_points(rating) <= u64::MAX
        &&& self.freelancer_user.pending_jobs >= 1
        &&& self.client_user.completed_jobs < u64::MAX
        &&& self.client_user.pending_jobs >= 1
        &&& self.client_user.total_spent + self.job.budget <= u64::MAX
    }

    /// What acceptance at time `now` makes of the records: the job is
    /// completed and approved, the freelancer has gained the rating's
    /// reputation, both parties count one more completed and one less pending
    /// job, and the client has spent the budget.
    pub open spec fn outcome(self, rating: u8, now: i64) -> AcceptWorkView {
        AcceptWorkView {
            job: JobView {
                status: JobStatus::Completed,
                work_approved: true,
                work_approved_at: Some(now),
                updated_at: now,
                ..self.job
            },
            client_user: UserView {
                completed_jobs: (self.client_user.completed_jobs + 1) as u64,
                pending_jobs: (self.client_user.pending_jobs - 1) as u64,
                total_spent: (self.client_user.total_spent + self.job.budget) as u64,
                ..self.client_user
            },
            freelancer_user: UserView {
                completed_jobs: (self.freelancer_user.completed_jobs + 1) as u64,
                reputation: (self.freelancer_user.reputation + reputation_points(rating)) as u64,
                pending_jobs: (self.freelancer_user.pending_jobs - 1) as u64,
                ..self.freelancer_user
            },
            client: self.client,
        }
    }
}

/// The client accepts the submitted work of job `job_id` and rates the
/// freelancer: the job is completed.
pub fn accept_work(
    ctx: &mut AcceptWork,
    job_id: u64,
    freelancer_rating: u8,
    now: i64,
) -> (r: Result<
    (),
    ErrorCode,
>)
    ensures
        match r {
            Ok(()) => {
                &&& old(ctx)@.rejection(job_id, freelancer_rating) is None
                &&& final(ctx)@ == old(ctx)@.outcome(freelancer_rating, now)
            },
            Err(e) => {
                &&& old(ctx)@.rejection(job_id, freelancer_rating) == Some(e)
                &&& *final(ctx) == *old(ctx)
            },
        },
        old(ctx).job.status.steps_to(final(ctx).job.status),
        final(ctx).job.total_paid == old(ctx).job.total_paid,
        old(ctx).job@.wf() ==> final(ctx).job@.wf(),
{
    if ctx.job.job_id != job_id {
        return Err(ErrorCode::NotFound);
    }
    if ctx.job.status != JobStatus::InProgress {
        return Err(ErrorCode::JobNotInProgress);
    }
    if ctx.job.client != ctx.client {
        return Err(ErrorCode::NotJobClient);
    }
    if ctx.client_user.authority != ctx.client {
        return Err(ErrorCode::UnauthorizedUser);
    }
    if !is_some_of(&ctx.job.freelancer, &ctx.freelancer_user.authority) {
        return Err(ErrorCode::UnauthorizedUser);
    }
    if !ctx.job.work_submitted {
        return Err(ErrorCode::NoWorkSubmitted);
    }
    if freelancer_rating < MIN_RATING || freelancer_rating > MAX_RATING {
        return Err(ErrorCode::InvalidRating);
    }
    let points: u64 = freelancer_rating as u64 * REPUTATION_PER_STAR;
    if ctx.freelancer_user.completed_jobs == u64::MAX || points > u64::MAX
        - ctx.freelancer_user.reputation || ctx.freelancer_user.pending_jobs == 0
        || ctx.client_user.completed_jobs == u64::MAX || ctx.client_user.pending_jobs == 0
        || ctx.job.budget > u64::MAX - ctx.client_user.total_spent {
        return Err(ErrorCode::ArithmeticOverflow);
    }
    ctx.job.status = JobStatus::Completed;
    ctx.job.work_approved = true;
    ctx.job.work_approved_at = Some(now);
    ctx.job.updated_at = now;

    ctx.freelancer_user.completed_jobs = ctx.freelancer_user.completed_jobs + 1;
    ctx.freelancer_user.reputation = ctx.freelancer_user.reputation + points;
    ctx.freelancer_user.pending_jobs = ctx.freelancer_user.pending_jobs - 1;

    ctx.client_user.completed_jobs = ctx.client_user.completed_jobs + 1;
    ctx.client_user.pending_jobs = ctx.client_user.pending_jobs - 1;
    ctx.client_user.total_spent = ctx.client_user.total_spent + ctx.job.budget;
    Ok(())
}

impl WithdrawFromEscrowView {
    /// Why the payout is refused, if it is. The first failing test decides.
    pub open spec fn rejection(self, job_id: u64, rating: u8) -> Option<ErrorCode> {
        if self.job.job_id != job_id {
            Some(ErrorCode::NotFound)
        } else if self.job.status != JobStatus::Completed {
            Some(ErrorCode::JobNotCompleted)
        } else if self.job.freelancer != Some(self.freelancer.owner) {
            Some(ErrorCode::NotAssignedFreelancer)
        } else if self.freelancer_user.authority != self.freelancer.owner {
            Some(ErrorCode::UnauthorizedUser)
        } else if self.client_user.authority != self.job.client {
            Some(ErrorCode::UnauthorizedUser)
        } else if self.escrow.job_id != job_id {
            Some(ErrorCode::InvalidBump)
        } else if self.job.total_paid != 0 {
            Some(ErrorCode::AlreadyWithdrawn)
        } else if !valid_rating(rating) {
            Some(ErrorCode::InvalidRating)
        } else if !self.fits(rating) {
            Some(ErrorCode::ArithmeticOverflow)
        } else {
            None
        }
    }

    /// The wallet balance and the counters that the payout moves stay within
    /// sixty-four bits.
    pub open spec fn fits(self, rating: u8) -> bool {
        &&& self.freelancer.balance + self.escrow.balance <= u64::MAX
        &&& self.client_user.reputation + reputation_points(rating) <= u64::MAX
        &&& self.freelancer_user.total_earnings + self.job.budget <= u64::MAX
    }

    /// What the payout at time `now` makes of the records: all the escrow
    /// held has gone to the freelancer's wallet, the job is marked as paid in
    /// full and its escrow reference cleared, the client has gained the
    /// rating's reputation and the freelancer has earned the budget.
    pub open spec fn outcome(self, rating: u8, now: i64) -> WithdrawFromEscrowView {
        WithdrawFromEscrowView {
            job: JobView {
                total_paid: self.job.budget,
                escrow: Principal::nobody(),
                updated_at: now,
                ..self.job
            },
            freelancer_user: UserView {
                total_earnings: (self.freelancer_user.total_earnings + self.job.budget) as u64,
                ..self.freelancer_user
            },
            client_user: UserView {
                reputation: (self.client_user.reputation + reputation_points(rating)) as u64,
                ..self.client_user
            },
            escrow: self.escrow.after_withdrawal(self.escrow.balance),
            freelancer: self.freelancer.credited(self.escrow.balance),
        }
    }
}

/// The freelancer of the completed job `job_id` collects the escrow and rates
/// the client.
pub fn withdraw_from_escrow(
    ctx: &mut WithdrawFromEscrow,
    job_id: u64,
    client_rating: u8,
    now: i64,
) -> (r: Result<(), ErrorCode>)
    ensures
        match r {
            Ok(()) => {
                &&& old(ctx)@.rejection(job_id, client_rating) is None
                &&& final(ctx)@ == old(ctx)@.outcome(client_rating, now)
            },
            Err(e) => {
                &&& old(ctx)@.rejection(job_id, client_rating) == Some(e)
                &&& *final(ctx) == *old(ctx)
            },
        },
        final(ctx).job.status == old(ctx).job.status,
        old(ctx).job.total_paid != 0 ==> final(ctx).job.total_paid == old(ctx).job.total_paid,
        old(ctx).job@.wf() ==> final(ctx).job@.wf(),
        old(ctx).escrow@.conserved() ==> final(ctx).escrow@.conserved(),
        r is Ok && old(ctx).escrow@.conserved() ==> final(ctx).escrow@.deposited
            == final(ctx).escrow@.withdrawn,
        final(ctx).freelancer.balance + final(ctx).escrow.balance == old(ctx).freelancer.balance
            + old(ctx).escrow.balance,
{
    if ctx.job.job_id != job_id {
        return Err(ErrorCode::NotFound);
    }
    if ctx.job.status != JobStatus::Completed {
        return Err(ErrorCode::JobNotCompleted);
    }
    if !is_some_of(&ctx.job.freelancer, &ctx.freelancer.owner) {
        return Err(ErrorCode::NotAssignedFreelancer);
    }
    if ctx.freelancer_user.authority != ctx.freelancer.owner {
        return Err(ErrorCode::UnauthorizedUser);
    }
    if ctx.client_user.authority != ctx.job.client {
        return Err(ErrorCode::UnauthorizedUser);
    }
    if ctx.escrow.job_id != job_id {
        return Err(ErrorCode::InvalidBump);
    }
    if ctx.job.total_paid != 0 {
        return Err(ErrorCode::AlreadyWithdrawn);
    }
    if client_rating < MIN_RATING || client_rating > MAX_RATING {
        return Err(ErrorCode::InvalidRating);
    }
    let points: u64 = client_rating as u64 * REPUTATION_PER_STAR;
    let held = ctx.escrow.balance();
    if held > u64::MAX - ctx.freelancer.balance || points > u64::MAX - ctx.client_user.reputation
        || ctx.job.budget > u64::MAX - ctx.freelancer_user.total_earnings {
        return Err(ErrorCode::ArithmeticOverflow);
    }
    match ctx.escrow.withdraw(&mut ctx.job, &mut ctx.freelancer, held) {
        Ok(()) => {},
        Err(e) => {
            return Err(e);
        },
    }
    ctx.client_user.reputation = ctx.client_user.reputation + points;
    ctx.freelancer_user.total_earnings = ctx.freelancer_user.total_earnings + ctx.job.budget;
    ctx.job.updated_at = now;
    Ok(())
}

impl DeleteJobView {
    /// Why deleting the job is refused, if it is. The first failing test
    /// decides.
    pub open spec fn rejection(self, job_id: u64) -> Option<ErrorCode> {
        match self.job {
            None => Some(ErrorCode::NotFound),
            Some(job) => {
                if job.job_id != job_id {
                    Some(ErrorCode::NotFound)
                } else if job.status != JobStatus::Completed {
                    Some(ErrorCode::JobNotCompleted)
                } else if job.total_paid != job.budget {
                    Some(ErrorCode::PaymentNotCompleted)
                } else if job.client != self.authority.owner {
                    Some(ErrorCode::NotJobClient)
                } else if !self.fits() {
                    Some(ErrorCode::ArithmeticOverflow)
                } else {
                    None
                }
            },
        }
    }

    /// The client's wallet can take the storage deposit.
    pub open spec fn fits(self) -> bool {
        self.authority.balance + self.reserve <= u64::MAX
    }

    /// What deleting makes of the records: the job is gone and the storage
    /// deposit reserved for it has gone to the client's wallet.
    pub open spec fn outcome(self) -> DeleteJobView {
        DeleteJobView { job: None, reserve: 0, authority: self.authority.credited(self.reserve) }
    }
}

/// The client removes the completed and fully paid job `job_id`; the storage
/// deposit reserved for the record goes back to the client.
pub fn delete_job(ctx: &mut DeleteJob, job_id: u64) -> (r: Result<(), ErrorCode>)
    ensures
        match r {
            Ok(()) => {
                &&& old(ctx)@.rejection(job_id) is None
                &&& final(ctx)@ == old(ctx)@.outcome()
            },
            Err(e) => {
                &&& old(ctx)@.rejection(job_id) == Some(e)
                &&& *final(ctx) == *old(ctx)
            },
        },
        final(ctx).authority.balance + final(ctx).reserve == old(ctx).authority.balance
            + old(ctx).reserve,
{
    match &ctx.job {
        None => {
            return Err(ErrorCode::NotFound);
        },
        Some(job) => {
            if job.job_id != job_id {
                return Err(ErrorCode::NotFound);
            }
            if job.status != JobStatus::Completed {
                return Err(ErrorCode::JobNotCompleted);
            }
            if job.total_paid != job.budget {
                return Err(ErrorCode::PaymentNotCompleted);
            }
            if job.client != ctx.authority.owner {
                return Err(ErrorCode::NotJobClient);
            }
        },
    }
    if ctx.reserve > u64::MAX - ctx.authority.balance {
        return Err(ErrorCode::ArithmeticOverflow);
    }
    ctx.job = None;
    ctx.authority.balance = ctx.authority.balance + ctx.reserve;
    ctx.reserve = 0;
    Ok(())
}

} // verus!
