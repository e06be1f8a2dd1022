//! The records each operation works on, one type per operation, and what
//! they hold.

use crate::escrow::{Escrow, EscrowView, Wallet};
use crate::principal::Principal;
use crate::state::{Job, JobCounter, JobView, User, UserView};
use vstd::prelude::*;

verus! {

/// The records `register_user` works on: the user record to fill and the
/// principal who registers.
pub struct Initialize {
    pub user: User,
    pub authority: Principal,
}

/// What the records of `Initialize` hold.
pub struct InitializeView {
    pub user: UserView,
    pub authority: Principal,
}

impl View for Initialize {
    type V = InitializeView;

    open spec fn view(&self) -> InitializeView {
        InitializeView {
            user: self.user@,
            authority: self.authority,
        }
    }
}

/// The records `update_user_info` works on: a user record and the principal
/// who asks for the change.
pub struct UpdateUserInfo {
    pub user: User,
    pub authority: Principal,
}

/// What the records of `UpdateUserInfo` hold.
pub struct UpdateUserInfoView {
    pub user: UserView,
    pub authority: Principal,
}

impl View for UpdateUserInfo {
    type V = UpdateUserInfoView;

    open spec fn view(&self) -> UpdateUserInfoView {
        UpdateUserInfoView {
            user: self.user@,
            authority: self.authority,
        }
    }
}

/// The records `update_resume` works on: a user record and the principal who
/// asks for the change.
pub struct UpdateResumeCtx {
    pub user: User,
    pub authority: Principal,
}

/// What the records of `UpdateResumeCtx` hold.
pub struct UpdateResumeCtxView {
    pub user: UserView,
    pub authority: Principal,
}

impl View for UpdateResumeCtx {
    type V = UpdateResumeCtxView;

    open spec fn view(&self) -> UpdateResumeCtxView {
        UpdateResumeCtxView {
            user: self.user@,
            authority: self.authority,
        }
    }
}

/// The records `create_job` works on: the job record to fill, the counter
/// that numbers it, the posting principal and that principal's user record.
pub struct CreateJob {
    pub job: Job,
    pub job_counter: JobCounter,
    pub authority: Principal,
    pub user: User,
}

/// What the records of `CreateJob` hold.
pub struct CreateJobView {
    pub job: JobView,
    pub job_counter: JobCounter,
    pub authority: Principal,
    pub user: UserView,
}

impl View for CreateJob {
    type V = CreateJobView;

    open spec fn view(&self) -> CreateJobView {
        CreateJobView {
            job: self.job@,
            job_counter: self.job_counter,
            authority: self.authority,
            user: self.user@,
        }
    }
}

/// The records `initialize_job_counter` works on.
pub struct InitializeJobCounter {
    pub job_counter: JobCounter,
    pub authority: Principal,
}

/// What the records of `InitializeJobCounter` hold.
pub struct InitializeJobCounterView {
    pub job_counter: JobCounter,
    pub authority: Principal,
}

impl View for InitializeJobCounter {
    type V = InitializeJobCounterView;

    open spec fn view(&self) -> InitializeJobCounterView {
        InitializeJobCounterView {
            job_counter: self.job_counter,
            authority: self.authority,
        }
    }
}

/// The records `submit_proposal` works on: the job, the bidding principal
/// and that principal's user record.
pub struct SubmitProposal {
    pub job: Job,
    pub user: User,
    pub freelancer: Principal,
}

/// What the records of `SubmitProposal` hold.
pub struct SubmitProposalView {
    pub job: JobView,
    pub user: UserView,
    pub freelancer: Principal,
}

impl View for SubmitProposal {
    type V = SubmitProposalView;

    open spec fn view(&self) -> SubmitProposalView {
        SubmitProposalView {
            job: self.job@,
            user: self.user@,
            freelancer: self.freelancer,
        }
    }
}

/// The records `assign_job` works on: the job, the client's wallet and user
/// record, the chosen freelancer's user record and the job's escrow.
pub struct AssignJob {
    pub job: Job,
    pub client: Wallet,
    pub client_user: User,
    pub freelancer_user: User,
    pub escrow: Escrow,
}

/// What the records of `AssignJob` hold.
pub struct AssignJobView {
    pub job: JobView,
    pub client: Wallet,
    pub client_user: UserView,
    pub freelancer_user: UserView,
    pub escrow: EscrowView,
}

impl View for AssignJob {
    type V = AssignJobView;

    open spec fn view(&self) -> AssignJobView {
        AssignJobView {
            job: self.job@,
            client: self.client,
            client_user: self.client_user@,
            freelancer_user: self.freelancer_user@,
            escrow: self.escrow@,
        }
    }
}

/// The records `submit_work` works on: the job, the submitting principal and
/// that principal's user record.
pub struct SubmitWork {
    pub job: Job,
    pub freelancer_user: User,
    pub freelancer: Principal,
}

/// What the records of `SubmitWork` hold.
pub struct SubmitWorkView {
    pub job: JobView,
    pub freelancer_user: UserView,
    pub freelancer: Principal,
}

impl View for SubmitWork {
    type V = SubmitWorkView;

    open spec fn view(&self) -> SubmitWorkView {
        SubmitWorkView {
            job: self.job@,
            freelancer_user: self.freelancer_user@,
            freelancer: self.freelancer,
        }
    }
}

/// The records `request_revision` works on: the job and the principal who
/// asks for the revision.
pub struct RequestRevision {
    pub job: Job,
    pub client: Principal,
}

/// What the records of `RequestRevision` hold.
pub struct RequestRevisionView {
    pub job: JobView,
    pub client: Principal,
}

impl View for RequestRevision {
    type V = RequestRevisionView;

    open spec fn view(&self) -> RequestRevisionView {
        RequestRevisionView {
            job: self.job@,
            client: self.client,
        }
    }
}

/// The records `accept_work` works on: the job, the accepting principal and
/// the user records of both parties.
pub struct AcceptWork {
    pub job: Job,
    pub client_user: User,
    pub freelancer_user: User,
    pub client: Principal,
}

/// What the records of `AcceptWork` hold.
pub struct AcceptWorkView {
    pub job: JobView,
    pub client_user: UserView,
    pub freelancer_user: UserView,
    pub client: Principal,
}

impl View for AcceptWork {
    type V = AcceptWorkView;

    open spec fn view(&self) -> AcceptWorkView {
        AcceptWorkView {
            job: self.job@,
            client_user: self.client_user@,
            freelancer_user: self.freelancer_user@,
            client: self.client,
        }
    }
}

/// The records `withdraw_from_escrow` works on: the job, the user records of
/// both parties, the job's escrow and the freelancer's wallet.
pub struct WithdrawFromEscrow {
    pub job: Job,
    pub freelancer_user: User,
    pub client_user: User,
    pub escrow: Escrow,
    pub freelancer: Wallet,
}

/// What the records of `WithdrawFromEscrow` hold.
pub struct WithdrawFromEscrowView {
    pub job: JobView,
    pub freelancer_user: UserView,
    pub client_user: UserView,
    pub escrow: EscrowView,
    pub freelancer: Wallet,
}

impl View for WithdrawFromEscrow {
    type V = WithdrawFromEscrowView;

    open spec fn view(&self) -> WithdrawFromEscrowView {
        WithdrawFromEscrowView {
            job: self.job@,
            freelancer_user: self.freelancer_user@,
            client_user: self.client_user@,
            escrow: self.escrow@,
            freelancer: self.freelancer,
        }
    }
}

/// The records `delete_job` works on: the slot that holds the job, the
/// storage deposit reserved for it, and the wallet of the deleting principal.
pub struct DeleteJob {
    pub job: Option<Job>,
    pub reserve: u64,
    pub authority: Wallet,
}

/// What the records of `DeleteJob` hold.
pub struct DeleteJobView {
    pub job: Option<JobView>,
    pub reserve: u64,
    pub authority: Wallet,
}

impl View for DeleteJob {
    type V = DeleteJobView;

    open spec fn view(&self) -> DeleteJobView {
        DeleteJobView {
            job: match self.job {
                Some(job) => Some(job@),
                None => None,
            },
            reserve: self.reserve,
            authority: self.authority,
        }
    }
}

/// The records `raise_dispute` works on: the job, the principal who raises
/// the dispute and that principal's user record.
pub struct RaiseDispute {
    pub job: Job,
    pub raiser_user: User,
    pub authority: Principal,
}

/// What the records of `RaiseDispute` hold.
pub struct RaiseDisputeView {
    pub job: JobView,
    pub raiser_user: UserView,
    pub authority: Principal,
}

impl View for RaiseDispute {
    type V = RaiseDisputeView;

    open spec fn view(&self) -> RaiseDisputeView {
        RaiseDisputeView {
            job: self.job@,
            raiser_user: self.raiser_user@,
            authority: self.authority,
        }
    }
}

/// The records `vote_dispute` works on: the job, the voting principal and
/// that principal's user record.
pub struct VoteDispute {
    pub job: Job,
    pub voter_user: User,
    pub voter: Principal,
}

/// What the records of `VoteDispute` hold.
pub struct VoteDisputeView {
    pub job: JobView,
    pub voter_user: UserView,
    pub voter: Principal,
}

impl View for VoteDispute {
    type V = VoteDisputeView;

    open spec fn view(&self) -> VoteDisputeView {
        VoteDisputeView {
            job: self.job@,
            voter_user: self.voter_user@,
            voter: self.voter,
        }
    }
}

/// The records `finalize_dispute` works on: the job, its escrow, and the
/// wallets and user records of the party that raised the dispute and of the
/// party it is raised against.
pub struct FinalizeDispute {
    pub job: Job,
    pub escrow: Escrow,
    pub raiser: Wallet,
    pub against: Wallet,
    pub raiser_user: User,
    pub against_user: User,
}

/// What the records of `FinalizeDispute` hold.
pub struct FinalizeDisputeView {
    pub job: JobView,
    pub escrow: EscrowView,
    pub raiser: Wallet,
    pub against: Wallet,
    pub raiser_user: UserView,
    pub against_user: UserView,
}

impl View for FinalizeDispute {
    type V = FinalizeDisputeView;

    open spec fn view(&self) -> FinalizeDisputeView {
        FinalizeDisputeView {
            job: self.job@,
            escrow: self.escrow@,
            raiser: self.raiser,
            against: self.against,
            raiser_user: self.raiser_user@,
            against_user: self.against_user@,
        }
    }
}

} // verus!
