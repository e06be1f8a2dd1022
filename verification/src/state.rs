//! The records of the ledger: users with their resumes, jobs with their bids
//! and disputes, and the job counter, each with what it holds and what makes
//! it well formed.

use crate::principal::Principal;
use vstd::prelude::*;

verus! {

/// Most education entries a resume holds.
pub const MAX_EDUCATION: usize = 3;

/// Most experience entries a resume holds.
pub const MAX_EXPERIENCE: usize = 3;

/// Most skills a resume or a job lists.
pub const MAX_SKILLS: usize = 10;

/// Most certifications a resume holds.
pub const MAX_CERTIFICATIONS: usize = 3;

/// Most portfolio items a resume holds.
pub const MAX_PORTFOLIO: usize = 3;

/// Most bids a job accepts.
pub const MAX_BIDS: usize = 50;

/// Most votes a dispute accepts.
pub const MAX_VOTERS: usize = 100;

/// Most bytes the title of a job takes.
pub const MAX_TITLE_LEN: usize = 100;

/// Most bytes the description of a job or of submitted work takes.
pub const MAX_DESCRIPTION_LEN: usize = 1000;

/// Most bytes the category of a job takes.
pub const MAX_CATEGORY_LEN: usize = 50;

/// Most bytes the address of submitted work takes.
pub const MAX_URL_LEN: usize = 500;

/// Most bytes a request for revision takes.
pub const MAX_REVISION_LEN: usize = 500;

/// Most bytes the reason of a dispute takes.
pub const MAX_REASON_LEN: usize = 500;

/// Reputation of a freshly registered user.
pub const INITIAL_REPUTATION: u64 = 50;

/// Reputation gained per star of a rating.
pub const REPUTATION_PER_STAR: u64 = 5;

/// The lowest rating, in stars.
pub const MIN_RATING: u8 = 1;

/// The highest rating, in stars.
pub const MAX_RATING: u8 = 5;

/// Seconds during which votes on a dispute are accepted, counted from the
/// moment it is raised.
pub const VOTING_PERIOD: i64 = 259_200;

/// Length of a text in bytes of its UTF-8 encoding: the measure every length
/// cap uses.
pub open spec fn byte_len(text: Seq<char>) -> nat {
    vstd::utf8::encode_utf8(text).len()
}

/// The byte length of `text`.
pub fn text_len(text: &String) -> (n: usize)
    ensures
        n == byte_len(text@),
{
    text.as_str().as_bytes().len()
}

/// Whether a rating is one to five stars.
pub open spec fn valid_rating(rating: u8) -> bool {
    MIN_RATING <= rating <= MAX_RATING
}

/// Reputation points that a rating is worth.
pub open spec fn reputation_points(rating: u8) -> int {
    rating * REPUTATION_PER_STAR
}

/// Where a dispute stands. A dispute is open until it is settled.
#[derive(Clone, Copy, Debug, PartialEq, Eq, Structural)]
pub enum DisputeStatus {
    Open,
    Resolved,
    Rejected,
}

/// Where a job stands in its life.
#[derive(Clone, Copy, Debug, PartialEq, Eq, Structural)]
pub enum JobStatus {
    Open,
    InProgress,
    Completed,
    Cancelled,
    Disputed,
}

impl JobStatus {
    /// The moves the job state machine allows. Every other pair of states is
    /// no move of any operation.
    pub open spec fn can_move_to(self, next: JobStatus) -> bool {
        match (self, next) {
            (JobStatus::Open, JobStatus::InProgress) => true,
            (JobStatus::Open, JobStatus::Disputed) => true,
            (JobStatus::InProgress, JobStatus::Completed) => true,
            (JobStatus::InProgress, JobStatus::Disputed) => true,
            (JobStatus::Disputed, JobStatus::Completed) => true,
            (JobStatus::Disputed, JobStatus::Cancelled) => true,
            _ => false,
        }
    }

    /// How far along its life a job in this state is.
    pub open spec fn rank(self) -> nat {
        match self {
            JobStatus::Open => 0,
            JobStatus::InProgress => 1,
            JobStatus::Disputed => 2,
            JobStatus::Completed => 3,
            JobStatus::Cancelled => 3,
        }
    }

    /// States that no operation leaves.
    pub open spec fn is_terminal(self) -> bool {
        self is Completed || self is Cancelled
    }

    /// What one operation may do to a status: leave it, or make one allowed
    /// move.
    pub open spec fn steps_to(self, next: JobStatus) -> bool {
        self == next || self.can_move_to(next)
    }
}

/// A freelancer's proposed price for an open job.
#[derive(Clone, Copy, Debug)]
pub struct Bid {
    pub freelancer: Principal,
    pub proposed_amount: u64,
    pub timestamp: i64,
}

impl Bid {
    /// Bytes set aside for a stored record of this kind: its size where
    /// every text and every list is at its cap.
    pub const LEN: usize = 32 + 8 + 8;
}

/// Whether `who` has a bid among `bids`.
pub open spec fn has_bid_from(bids: Seq<Bid>, who: Principal) -> bool {
    exists|i: int| 0 <= i < bids.len() && (#[trigger] bids[i]).freelancer == who
}

/// Whether `who` has bid exactly `amount` among `bids`.
pub open spec fn has_matching_bid(bids: Seq<Bid>, who: Principal, amount: u64) -> bool {
    exists|i: int|
        0 <= i < bids.len() && (#[trigger] bids[i]).freelancer == who && bids[i].proposed_amount
            == amount
}

/// No freelancer has two bids among `bids`.
pub open spec fn one_bid_each(bids: Seq<Bid>) -> bool {
    forall|i: int, j: int|
        0 <= i < j < bids.len() ==> (#[trigger] bids[i]).freelancer
            != (#[trigger] bids[j]).freelancer
}

/// What one party wrote about a job.
#[derive(Clone, Debug)]
pub struct Review {
    pub reviewer: Principal,
    pub rating: u8,
    pub comment: String,
    pub created_at: i64,
}

impl Review {
    /// Bytes set aside for a stored record of this kind: its size where
    /// every text and every list is at its cap.
    pub const LEN: usize = 32 + 1 + (4 + 500) + 8;
}

/// A contested job outcome, settled by majority vote within a fixed window.
#[derive(Clone, Debug)]
pub struct Dispute {
    pub raiser: Principal,
    pub reason: String,
    pub status: DisputeStatus,
    pub created_at: i64,
    pub resolved_at: Option<i64>,
    pub resolution: Option<String>,
    pub voting_start: i64,
    pub voting_end: i64,
    pub votes_for: u64,
    pub votes_against: u64,
    pub voters: Vec<Principal>,
}

impl Dispute {
    /// Bytes set aside for a stored record of this kind: its size where
    /// every text and every list is at its cap.
    pub const LEN: usize = 32 + 4 + 500 + 1 + 8 + 1 + 8 + 1 + (4 + 500) + 8 + 8 + 8 + 8 + 4 + (100
        * 32);
}

/// What a dispute holds.
pub struct DisputeView {
    pub raiser: Principal,
    pub reason: Seq<char>,
    pub status: DisputeStatus,
    pub created_at: i64,
    pub resolved_at: Option<i64>,
    pub resolution: Option<Seq<char>>,
    pub voting_start: i64,
    pub voting_end: i64,
    pub votes_for: u64,
    pub votes_against: u64,
    pub voters: Seq<Principal>,
}

impl View for Dispute {
    type V = DisputeView;

    open spec fn view(&self) -> DisputeView {
        DisputeView {
            raiser: self.raiser,
            reason: self.reason@,
            status: self.status,
            created_at: self.created_at,
            resolved_at: self.resolved_at,
            resolution: match self.resolution {
                Some(text) => Some(text@),
                None => None,
            },
            voting_start: self.voting_start,
            voting_end: self.voting_end,
            votes_for: self.votes_for,
            votes_against: self.votes_against,
            voters: self.voters@,
        }
    }
}

impl DisputeView {
    /// Whether `who` has voted.
    pub open spec fn has_voted(self, who: Principal) -> bool {
        self.voters.contains(who)
    }

    /// The vote favours the side that raised the dispute. A tie does not.
    pub open spec fn favours_raiser(self) -> bool {
        self.votes_for > self.votes_against
    }

    /// A dispute as the operations make and keep it: a bounded reason, at
    /// most a hundred voters, each once, one counted vote per voter, the
    /// raiser not among them, and a voting window of the fixed length.
    pub open spec fn wf(self) -> bool {
        &&& byte_len(self.reason) <= MAX_REASON_LEN
        &&& self.voters.len() <= MAX_VOTERS
        &&& self.voters.no_duplicates()
        &&& !self.voters.contains(self.raiser)
        &&& self.votes_for + self.votes_against == self.voters.len()
        &&& self.voting_start == self.created_at
        &&& self.voting_end == self.voting_start + VOTING_PERIOD
        &&& self.status !is Rejected
        &&& (self.status is Resolved <==> self.resolved_at is Some)
    }
}

/// A posted job, with its bids, its work cycle and its dispute.
#[derive(Clone, Debug)]
pub struct Job {
    pub authority: Principal,
    pub client: Principal,
    pub freelancer: Option<Principal>,
    pub job_id: u64,
    pub title: String,
    pub description: String,
    pub budget: u64,
    pub deadline: i64,
    pub status: JobStatus,
    pub created_at: i64,
    pub updated_at: i64,
    pub bidders: Vec<Bid>,
    pub reviews: Vec<Review>,
    pub dispute: Option<Dispute>,
    pub skills: Vec<String>,
    pub category: String,
    pub escrow: Principal,
    pub total_paid: u64,
    pub work_submitted: bool,
    pub work_submission_url: String,
    pub work_submission_description: String,
    pub work_submitted_at: Option<i64>,
    pub work_approved: bool,
    pub work_approved_at: Option<i64>,
    pub revision_request: Option<String>,
}

impl Job {
    /// Bytes set aside for a stored record of this kind: its size where
    /// every text and every list is at its cap.
    pub const LEN: usize = 32 + 32 + 1 + 32 + 8 + 4 + 100 + 4 + 1000 + 8 + 8 + 1 + 8 + 8 + 4 + (50
        * Bid::LEN) + 4 + (10 * Review::LEN) + 1 + (1 + Dispute::LEN) + 4 + (10 * (4 + 50)) + 4
        + 50 + 32 + 8 + 1 + 4 + 500 + 4 + 1000 + 1 + 8 + 1 + 1 + 8 + 1 + 4 + 500;
}

impl Job {
    /// A job record with nothing in it yet: the slot that posting a job
    /// fills.
    pub fn blank() -> (job: Job)
        ensures
            job@ == JobView::blank(),
    {
        Job {
            authority: Principal::default(),
            client: Principal::default(),
            freelancer: None,
            job_id: 0,
            title: String::new(),
            description: String::new(),
            budget: 0,
            deadline: 0,
            status: JobStatus::Open,
            created_at: 0,
            updated_at: 0,
            bidders: Vec::new(),
            reviews: Vec::new(),
            dispute: None,
            skills: Vec::new(),
            category: String::new(),
            escrow: Principal::default(),
            total_paid: 0,
            work_submitted: false,
            work_submission_url: String::new(),
            work_submission_description: String::new(),
            work_submitted_at: None,
            work_approved: false,
            work_approved_at: None,
            revision_request: None,
        }
    }
}

/// What a job holds.
pub struct JobView {
    pub authority: Principal,
    pub client: Principal,
    pub freelancer: Option<Principal>,
    pub job_id: u64,
    pub title: Seq<char>,
    pub description: Seq<char>,
    pub budget: u64,
    pub deadline: i64,
    pub status: JobStatus,
    pub created_at: i64,
    pub updated_at: i64,
    pub bidders: Seq<Bid>,
    pub reviews: Seq<Review>,
    pub dispute: Option<DisputeView>,
    pub skills: Seq<String>,
    pub category: Seq<char>,
    pub escrow: Principal,
    pub total_paid: u64,
    pub work_submitted: bool,
    pub work_submission_url: Seq<char>,
    pub work_submission_description: Seq<char>,
    pub work_submitted_at: Option<i64>,
    pub work_approved: bool,
    pub work_approved_at: Option<i64>,
    pub revision_request: Option<Seq<char>>,
}

impl View for Job {
    type V = JobView;

    open spec fn view(&self) -> JobView {
        JobView {
            authority: self.authority,
            client: self.client,
            freelancer: self.freelancer,
            job_id: self.job_id,
            title: self.title@,
            description: self.description@,
            budget: self.budget,
            deadline: self.deadline,
            status: self.status,
            created_at: self.created_at,
            updated_at: self.updated_at,
            bidders: self.bidders@,
            reviews: self.reviews@,
            dispute: match self.dispute {
                Some(dispute) => Some(dispute@),
                None => None,
            },
            skills: self.skills@,
            category: self.category@,
            escrow: self.escrow,
            total_paid: self.total_paid,
            work_submitted: self.work_submitted,
            work_submission_url: self.work_submission_url@,
            work_submission_description: self.work_submission_description@,
            work_submitted_at: self.work_submitted_at,
            work_approved: self.work_approved,
            work_approved_at: self.work_approved_at,
            revision_request: match self.revision_request {
                Some(text) => Some(text@),
                None => None,
            },
        }
    }
}

impl JobView {
    /// What a blank job record holds: no one's, open, empty.
    pub open spec fn blank() -> JobView {
        JobView {
            authority: Principal::nobody(),
            client: Principal::nobody(),
            freelancer: None,
            job_id: 0,
            title: Seq::<char>::empty(),
            description: Seq::<char>::empty(),
            budget: 0,
            deadline: 0,
            status: JobStatus::Open,
            created_at: 0,
            updated_at: 0,
            bidders: Seq::<Bid>::empty(),
            reviews: Seq::<Review>::empty(),
            dispute: None,
            skills: Seq::<String>::empty(),
            category: Seq::<char>::empty(),
            escrow: Principal::nobody(),
            total_paid: 0,
            work_submitted: false,
            work_submission_url: Seq::<char>::empty(),
            work_submission_description: Seq::<char>::empty(),
            work_submitted_at: None,
            work_approved: false,
            work_approved_at: None,
            revision_request: None,
        }
    }

    /// Nothing was paid out yet, or exactly the budget was.
    pub open spec fn paid_nothing_or_all(self) -> bool {
        self.total_paid == 0 || self.total_paid == self.budget
    }

    /// Whether a dispute is attached and still open.
    pub open spec fn has_open_dispute(self) -> bool {
        self.dispute matches Some(dispute) && dispute.status is Open
    }

    /// Whether `who` is the client or the assigned freelancer.
    pub open spec fn is_party(self, who: Principal) -> bool {
        who == self.client || self.freelancer == Some(who)
    }

    /// The party of the job that is not `who`, where `who` is one of the two
    /// and a freelancer is assigned.
    pub open spec fn other_party(self, who: Principal) -> Principal
        recommends
            self.freelancer is Some,
            self.is_party(who),
    {
        if who == self.client {
            self.freelancer->0
        } else {
            self.client
        }
    }

    /// A job as the operations make and keep it: every text and list within
    /// its cap, one bid per freelancer, a freelancer and a positive budget
    /// exactly when the job has left the open state, a payout of nothing or of
    /// the whole budget and only in a terminal state, and the disputed state
    /// exactly while an open dispute is attached.
    pub open spec fn wf(self) -> bool {
        &&& byte_len(self.title) <= MAX_TITLE_LEN
        &&& byte_len(self.description) <= MAX_DESCRIPTION_LEN
        &&& byte_len(self.category) <= MAX_CATEGORY_LEN
        &&& self.skills.len() <= MAX_SKILLS
        &&& self.bidders.len() <= MAX_BIDS
        &&& one_bid_each(self.bidders)
        &&& forall|i: int|
            0 <= i < self.bidders.len() ==> (#[trigger] self.bidders[i]).proposed_amount > 0
        &&& byte_len(self.work_submission_url) <= MAX_URL_LEN
        &&& byte_len(self.work_submission_description) <= MAX_DESCRIPTION_LEN
        &&& (self.revision_request matches Some(text) ==> byte_len(text) <= MAX_REVISION_LEN)
        &&& (self.status is Open <==> self.freelancer is None)
        &&& (self.freelancer is Some ==> self.budget > 0)
        &&& self.paid_nothing_or_all()
        &&& (self.total_paid != 0 ==> self.status.is_terminal())
        &&& (self.status is Disputed <==> self.has_open_dispute())
        &&& (self.dispute matches Some(dispute) ==> dispute.wf() && self.is_party(dispute.raiser))
    }
}

/// The single counter that hands out job identifiers.
#[derive(Clone, Copy, Debug)]
pub struct JobCounter {
    pub count: u64,
}

impl JobCounter {
    /// Bytes set aside for a stored record of this kind: its size where
    /// every text and every list is at its cap.
    pub const LEN: usize = 8;
}

/// One entry of education in a resume.
#[derive(Clone, Debug)]
pub struct Education {
    pub institution: String,
    pub degree: String,
    pub field_of_study: String,
    pub start_date: i64,
    pub end_date: i64,
    pub grade: String,
    pub description: String,
}

impl Education {
    /// Bytes set aside for a stored record of this kind: its size where
    /// every text and every list is at its cap.
    pub const LEN: usize = 4 + 50 + 4 + 50 + 4 + 50 + 8 + 8 + 4 + 20 + 4 + 200;
}

/// One entry of work experience in a resume.
#[derive(Clone, Debug)]
pub struct Experience {
    pub company: String,
    pub position: String,
    pub start_date: i64,
    pub end_date: i64,
    pub responsibilities: String,
}

impl Experience {
    /// Bytes set aside for a stored record of this kind: its size where
    /// every text and every list is at its cap.
    pub const LEN: usize = 4 + 50 + 4 + 50 + 8 + 8 + 4 + 300;
}

/// One certification in a resume.
#[derive(Clone, Debug)]
pub struct Certification {
    pub name: String,
    pub issuing_organization: String,
    pub issue_date: i64,
    pub expiration_date: i64,
    pub credential_id: String,
    pub credential_url: String,
}

impl Certification {
    /// Bytes set aside for a stored record of this kind: its size where
    /// every text and every list is at its cap.
    pub const LEN: usize = 4 + 50 + 4 + 50 + 8 + 8 + 4 + 50 + 4 + 100;
}

/// One piece of work shown in a resume.
#[derive(Clone, Debug)]
pub struct PortfolioItem {
    pub title: String,
    pub description: String,
    pub url: String,
    pub image_url: String,
}

impl PortfolioItem {
    /// Bytes set aside for a stored record of this kind: its size where
    /// every text and every list is at its cap.
    pub const LEN: usize = 4 + 50 + 4 + 200 + 4 + 100 + 4 + 100;
}

/// What a user tells of their education, experience and work.
#[derive(Clone, Debug)]
pub struct Resume {
    pub education: Vec<Education>,
    pub experience: Vec<Experience>,
    pub skills: Vec<String>,
    pub certifications: Vec<Certification>,
    pub portfolio: Vec<PortfolioItem>,
    pub last_update: i64,
}

impl Resume {
    /// Bytes set aside for a stored record of this kind: its size where
    /// every text and every list is at its cap.
    pub const LEN: usize = 4 + (MAX_EDUCATION * Education::LEN) + 4 + (MAX_EXPERIENCE
        * Experience::LEN) + 4 + (MAX_SKILLS * (4 + 50)) + 4 + (MAX_CERTIFICATIONS
        * Certification::LEN) + 4 + (MAX_PORTFOLIO * PortfolioItem::LEN) + 8;

    /// Every list of the resume is within its cap.
    pub open spec fn within_caps(&self) -> bool {
        &&& self.education@.len() <= MAX_EDUCATION
        &&& self.experience@.len() <= MAX_EXPERIENCE
        &&& self.skills@.len() <= MAX_SKILLS
        &&& self.certifications@.len() <= MAX_CERTIFICATIONS
        &&& self.portfolio@.len() <= MAX_PORTFOLIO
    }
}

/// A registered principal, with its roles, reputation and lifetime counters.
#[derive(Clone, Debug)]
pub struct User {
    pub authority: Principal,
    pub name: String,
    pub is_client: bool,
    pub is_freelancer: bool,
    pub reputation: u64,
    pub completed_jobs: u64,
    pub created_at: i64,
    pub resume: Option<Resume>,
    pub disputes_raised: u64,
    pub disputes_resolved: u64,
    pub total_earnings: u64,
    pub total_spent: u64,
    pub active_jobs: u64,
    pub pending_jobs: u64,
    pub cancelled_jobs: u64,
}

impl User {
    /// Bytes set aside for a stored record of this kind: its size where
    /// every text and every list is at its cap.
    pub const LEN: usize = 32 + 4 + 100 + 1 + 1 + 8 + 8 + 8 + 8 + (1 + Resume::LEN) + 8 + 8 + 8
        + 8 + 8 + 8 + 8;
}

impl User {
    /// A user record with nothing in it yet: the slot that registration
    /// fills.
    pub fn blank() -> (user: User)
        ensures
            user@ == UserView::blank(),
    {
        User {
            authority: Principal::default(),
            name: String::new(),
            is_client: false,
            is_freelancer: false,
            reputation: 0,
            completed_jobs: 0,
            created_at: 0,
            resume: None,
            disputes_raised: 0,
            disputes_resolved: 0,
            total_earnings: 0,
            total_spent: 0,
            active_jobs: 0,
            pending_jobs: 0,
            cancelled_jobs: 0,
        }
    }
}

/// What a user record holds.
pub struct UserView {
    pub authority: Principal,
    pub name: Seq<char>,
    pub is_client: bool,
    pub is_freelancer: bool,
    pub reputation: u64,
    pub completed_jobs: u64,
    pub created_at: i64,
    pub resume: Option<Resume>,
    pub disputes_raised: u64,
    pub disputes_resolved: u64,
    pub total_earnings: u64,
    pub total_spent: u64,
    pub active_jobs: u64,
    pub pending_jobs: u64,
    pub cancelled_jobs: u64,
}

impl UserView {
    /// What a blank user record holds: no one's, without roles, all zero.
    pub open spec fn blank() -> UserView {
        UserView {
            authority: Principal::nobody(),
            name: Seq::<char>::empty(),
            is_client: false,
            is_freelancer: false,
            reputation: 0,
            completed_jobs: 0,
            created_at: 0,
            resume: None,
            disputes_raised: 0,
            disputes_resolved: 0,
            total_earnings: 0,
            total_spent: 0,
            active_jobs: 0,
            pending_jobs: 0,
            cancelled_jobs: 0,
        }
    }
}

impl View for User {
    type V = UserView;

    open spec fn view(&self) -> UserView {
        UserView {
            authority: self.authority,
            name: self.name@,
            is_client: self.is_client,
            is_freelancer: self.is_freelancer,
            reputation: self.reputation,
            completed_jobs: self.completed_jobs,
            created_at: self.created_at,
            resume: self.resume,
            disputes_raised: self.disputes_raised,
            disputes_resolved: self.disputes_resolved,
            total_earnings: self.total_earnings,
            total_spent: self.total_spent,
            active_jobs: self.active_jobs,
            pending_jobs: self.pending_jobs,
            cancelled_jobs: self.cancelled_jobs,
        }
    }
}

} // verus!
