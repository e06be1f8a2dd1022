//! User records: registration and the changes a principal makes to its own
//! record.

use crate::contexts::{
    Initialize, InitializeView, UpdateResumeCtx, UpdateResumeCtxView, UpdateUserInfo,
    UpdateUserInfoView,
};
use crate::error::ErrorCode;
use crate::state::{
    Resume, UserView, INITIAL_REPUTATION, MAX_CERTIFICATIONS, MAX_EDUCATION, MAX_EXPERIENCE,
    MAX_PORTFOLIO, MAX_SKILLS,
};
use vstd::prelude::*;

verus! {

impl InitializeView {
    /// What registration at time `now` makes of the records: the user record
    /// is the principal's own, with the starting reputation and every counter
    /// at zero.
    pub open spec fn outcome(
        self,
        name: Seq<char>,
        is_client: bool,
        is_freelancer: bool,
        resume: Option<Resume>,
        now: i64,
    ) -> InitializeView {
        InitializeView {
            user: UserView {
                authority: self.authority,
                name,
                is_client,
                is_freelancer,
                reputation: INITIAL_REPUTATION,
                completed_jobs: 0,
                created_at: now,
                resume,
                disputes_raised: 0,
                disputes_resolved: 0,
                total_earnings: 0,
                total_spent: 0,
                active_jobs: 0,
                pending_jobs: 0,
                cancelled_jobs: 0,
            },
            authority: self.authority,
        }
    }
}

/// Registers the principal: its user record is filled from scratch. The
/// record written is the registering principal's own, so registration is
/// never refused.
pub fn register_user(
    ctx: &mut Initialize,
    name: String,
    is_client: bool,
    is_freelancer: bool,
    resume: Option<Resume>,
    now: i64,
) -> (r: Result<(), ErrorCode>)
    ensures
        r is Ok,
        final(ctx)@ == old(ctx)@.outcome(name@, is_client, is_freelancer, resume, now),
{
    ctx.user.authority = ctx.authority;
    ctx.user.name = name;
    ctx.user.is_client = is_client;
    ctx.user.is_freelancer = is_freelancer;
    ctx.user.reputation = INITIAL_REPUTATION;
    ctx.user.completed_jobs = 0;
    ctx.user.created_at = now;
    ctx.user.resume = resume;
    ctx.user.disputes_raised = 0;
    ctx.user.disputes_resolved = 0;
    ctx.user.total_earnings = 0;
    ctx.user.total_spent = 0;
    ctx.user.active_jobs = 0;
    ctx.user.pending_jobs = 0;
    ctx.user.cancelled_jobs = 0;
    Ok(())
}

impl UpdateUserInfoView {
    /// Why the update is refused, if it is: the record belongs to another
    /// principal.
    pub open spec fn rejection(self) -> Option<ErrorCode> {
        if self.user.authority != self.authority {
            Some(ErrorCode::AuthorityMismatch)
        } else {
            None
        }
    }

    /// What the update makes of the records: each value that is given
    /// replaces the old one, each that is absent leaves it.
    pub open spec fn outcome(
        self,
        new_name: Option<Seq<char>>,
        new_is_client: Option<bool>,
        new_is_freelancer: Option<bool>,
    ) -> UpdateUserInfoView {
        UpdateUserInfoView {
            user: UserView {
                name: match new_name {
                    Some(name) => name,
                    None => self.user.name,
                },
                is_client: match new_is_client {
                    Some(flag) => flag,
                    None => self.user.is_client,
                },
                is_freelancer: match new_is_freelancer {
                    Some(flag) => flag,
                    None => self.user.is_freelancer,
                },
                ..self.user
            },
            authority: self.authority,
        }
    }
}

/// The characters of an optional text.
pub open spec fn text_of(text: Option<String>) -> Option<Seq<char>> {
    match text {
        Some(text) => Some(text@),
        None => None,
    }
}

/// The principal changes its own name and role flags.
pub fn update_user_info(
    ctx: &mut UpdateUserInfo,
    new_name: Option<String>,
    new_is_client: Option<bool>,
    new_is_freelancer: Option<bool>,
) -> (r: Result<(), ErrorCode>)
    ensures
        match r {
            Ok(()) => {
                &&& old(ctx)@.rejection() is None
                &&& final(ctx)@ == old(ctx)@.outcome(
                    text_of(new_name),
                    new_is_client,
                    new_is_freelancer,
                )
            },
            Err(e) => {
                &&& old(ctx)@.rejection() == Some(e)
                &&& *final(ctx) == *old(ctx)
            },
        },
{
    if ctx.user.authority != ctx.authority {
        return Err(ErrorCode::AuthorityMismatch);
    }
    if let Some(name) = new_name {
        ctx.user.name = name;
    }
    if let Some(is_client) = new_is_client {
        ctx.user.is_client = is_client;
    }
    if let Some(is_freelancer) = new_is_freelancer {
        ctx.user.is_freelancer = is_freelancer;
    }
    Ok(())
}

impl UpdateResumeCtxView {
    /// Why the resume is refused, if it is: the record belongs to another
    /// principal, or a list is over its cap. The first failing test decides.
    pub open spec fn rejection(self, new_resume: Resume) -> Option<ErrorCode> {
        if self.user.authority != self.authority {
            Some(ErrorCode::AuthorityMismatch)
        } else if new_resume.education@.len() > MAX_EDUCATION {
            Some(ErrorCode::TooManyEducationEntries)
        } else if new_resume.experience@.len() > MAX_EXPERIENCE {
            Some(ErrorCode::TooManyExperienceEntries)
        } else if new_resume.skills@.len() > MAX_SKILLS {
            Some(ErrorCode::TooManySkills)
        } else if new_resume.certifications@.len() > MAX_CERTIFICATIONS {
            Some(ErrorCode::TooManyCertifications)
        } else if new_resume.portfolio@.len() > MAX_PORTFOLIO {
            Some(ErrorCode::TooManyPortfolioItems)
        } else {
            None
        }
    }

    /// What the update at time `now` makes of the records: the user's resume
    /// is the one given, stamped with the time of the update.
    pub open spec fn outcome(self, new_resume: Resume, now: i64) -> UpdateResumeCtxView {
        UpdateResumeCtxView {
            user: UserView {
                resume: Some(Resume { last_update: now, ..new_resume }),
                ..self.user
            },
            authority: self.authority,
        }
    }
}

/// The principal replaces its resume.
pub fn update_resume(ctx: &mut UpdateResumeCtx, new_resume: Resume, now: i64) -> (r: Result<
    (),
    ErrorCode,
>)
    ensures
        match r {
            Ok(()) => {
                &&& old(ctx)@.rejection(new_resume) is None
                &&& final(ctx)@ == old(ctx)@.outcome(new_resume, now)
                &&& final(ctx).user.resume->0.within_caps()
            },
            Err(e) => {
                &&& old(ctx)@.rejection(new_resume) == Some(e)
                &&& *final(ctx) == *old(ctx)
            },
        },
{
    if ctx.user.authority != ctx.authority {
        return Err(ErrorCode::AuthorityMismatch);
    }
    if new_resume.education.len() > MAX_EDUCATION {
        return Err(ErrorCode::TooManyEducationEntries);
    }
    if new_resume.experience.len() > MAX_EXPERIENCE {
        return Err(ErrorCode::TooManyExperienceEntries);
    }
    if new_resume.skills.len() > MAX_SKILLS {
        return Err(ErrorCode::TooManySkills);
    }
    if new_resume.certifications.len() > MAX_CERTIFICATIONS {
        return Err(ErrorCode::TooManyCertifications);
    }
    if new_resume.portfolio.len() > MAX_PORTFOLIO {
        return Err(ErrorCode::TooManyPortfolioItems);
    }
    ctx.user.resume = Some(
        Resume {
            education: new_resume.education,
            experience: new_resume.experience,
            skills: new_resume.skills,
            certifications: new_resume.certifications,
            portfolio: new_resume.portfolio,
            last_update: now,
        },
    );
    Ok(())
}

} // verus!
