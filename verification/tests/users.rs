use backend::contexts::{Initialize, UpdateResumeCtx, UpdateUserInfo};
use backend::error::ErrorCode;
use backend::principal::Principal;
use backend::state::{
    Certification, Education, Experience, PortfolioItem, Resume, User, MAX_CERTIFICATIONS,
    MAX_EDUCATION, MAX_EXPERIENCE, MAX_PORTFOLIO, MAX_SKILLS,
};
use backend::users::{register_user, update_resume, update_user_info};

fn principal(tag: u8) -> Principal {
    Principal::new([tag; 32])
}

fn education() -> Education {
    Education {
        institution: "school".to_string(),
        degree: "degree".to_string(),
        field_of_study: "field".to_string(),
        start_date: 1,
        end_date: 2,
        grade: "A".to_string(),
        description: "learned".to_string(),
    }
}

fn experience() -> Experience {
    Experience {
        company: "company".to_string(),
        position: "position".to_string(),
        start_date: 1,
        end_date: 2,
        responsibilities: "worked".to_string(),
    }
}

fn certification() -> Certification {
    Certification {
        name: "name".to_string(),
        issuing_organization: "organization".to_string(),
        issue_date: 1,
        expiration_date: 2,
        credential_id: "id".to_string(),
        credential_url: "url".to_string(),
    }
}

fn portfolio_item() -> PortfolioItem {
    PortfolioItem {
        title: "title".to_string(),
        description: "description".to_string(),
        url: "url".to_string(),
        image_url: "image".to_string(),
    }
}

fn resume(education_n: usize, experience_n: usize, skills: usize, certifications: usize, portfolio: usize) -> Resume {
    Resume {
        education: vec![education(); education_n],
        experience: vec![experience(); experience_n],
        skills: vec!["skill".to_string(); skills],
        certifications: vec![certification(); certifications],
        portfolio: vec![portfolio_item(); portfolio],
        last_update: 0,
    }
}

#[test]
fn registration_starts_at_reputation_fifty() {
    let who = principal(1);
    let mut ctx = Initialize { user: User::blank(), authority: who };
    assert_eq!(register_user(&mut ctx, "Ada".to_string(), true, false, Some(resume(1, 0, 2, 0, 0)), 77), Ok(()));
    let user = &ctx.user;
    assert_eq!(user.authority, who);
    assert_eq!(user.name, "Ada");
    assert!(user.is_client);
    assert!(!user.is_freelancer);
    assert_eq!(user.reputation, 50);
    assert_eq!(user.created_at, 77);
    assert_eq!(user.resume.as_ref().unwrap().skills.len(), 2);
    assert_eq!(
        [
            user.completed_jobs,
            user.disputes_raised,
            user.disputes_resolved,
            user.total_earnings,
            user.total_spent,
            user.active_jobs,
            user.pending_jobs,
            user.cancelled_jobs,
        ],
        [0; 8]
    );
}

#[test]
fn registration_overwrites_the_slot() {
    let mut used = User::blank();
    used.authority = principal(9);
    used.reputation = 999;
    used.completed_jobs = 4;
    used.pending_jobs = 2;
    let mut ctx = Initialize { user: used, authority: principal(1) };
    assert_eq!(register_user(&mut ctx, "Bo".to_string(), false, true, None, 5), Ok(()));
    assert_eq!(ctx.user.authority, principal(1));
    assert_eq!(ctx.user.reputation, 50);
    assert_eq!(ctx.user.completed_jobs, 0);
    assert_eq!(ctx.user.pending_jobs, 0);
    assert!(ctx.user.resume.is_none());
    assert!(ctx.user.is_freelancer);
}

fn registered(who: Principal) -> User {
    let mut ctx = Initialize { user: User::blank(), authority: who };
    assert_eq!(register_user(&mut ctx, "Ada".to_string(), true, false, None, 1), Ok(()));
    ctx.user
}

#[test]
fn update_user_info_changes_what_is_given() {
    let who = principal(1);
    let mut ctx = UpdateUserInfo { user: registered(who), authority: who };
    assert_eq!(update_user_info(&mut ctx, None, None, None), Ok(()));
    assert_eq!(ctx.user.name, "Ada");
    assert!(ctx.user.is_client);
    assert!(!ctx.user.is_freelancer);

    assert_eq!(update_user_info(&mut ctx, Some("Grace".to_string()), None, Some(true)), Ok(()));
    assert_eq!(ctx.user.name, "Grace");
    assert!(ctx.user.is_client);
    assert!(ctx.user.is_freelancer);

    assert_eq!(update_user_info(&mut ctx, None, Some(false), None), Ok(()));
    assert_eq!(ctx.user.name, "Grace");
    assert!(!ctx.user.is_client);
    assert!(ctx.user.is_freelancer);
    assert_eq!(ctx.user.reputation, 50);
}

#[test]
fn update_user_info_is_for_the_owner_only() {
    let mut ctx = UpdateUserInfo { user: registered(principal(1)), authority: principal(2) };
    assert_eq!(
        update_user_info(&mut ctx, Some("Mallory".to_string()), Some(false), Some(true)),
        Err(ErrorCode::AuthorityMismatch)
    );
    assert_eq!(ctx.user.name, "Ada");
    assert!(ctx.user.is_client);
    assert!(!ctx.user.is_freelancer);
}

#[test]
fn update_resume_stores_and_stamps() {
    let who = principal(1);
    let mut ctx = UpdateResumeCtx { user: registered(who), authority: who };
    let full = resume(MAX_EDUCATION, MAX_EXPERIENCE, MAX_SKILLS, MAX_CERTIFICATIONS, MAX_PORTFOLIO);
    assert_eq!(update_resume(&mut ctx, full, 4_242), Ok(()));
    let stored = ctx.user.resume.as_ref().unwrap();
    assert_eq!(stored.last_update, 4_242);
    assert_eq!(stored.education.len(), 3);
    assert_eq!(stored.experience.len(), 3);
    assert_eq!(stored.skills.len(), 10);
    assert_eq!(stored.certifications.len(), 3);
    assert_eq!(stored.portfolio.len(), 3);
    assert_eq!(stored.education[0].institution, "school");
    assert_eq!(stored.portfolio[2].image_url, "image");

    assert_eq!(update_resume(&mut ctx, resume(0, 0, 0, 0, 0), 5_000), Ok(()));
    let stored = ctx.user.resume.as_ref().unwrap();
    assert_eq!(stored.last_update, 5_000);
    assert!(stored.education.is_empty());
}

#[test]
fn update_resume_refusals_in_order() {
    let who = principal(1);
    let mut foreign = UpdateResumeCtx { user: registered(who), authority: principal(2) };
    assert_eq!(update_resume(&mut foreign, resume(4, 4, 11, 4, 4), 9), Err(ErrorCode::AuthorityMismatch));

    let mut ctx = UpdateResumeCtx { user: registered(who), authority: who };
    assert_eq!(update_resume(&mut ctx, resume(4, 4, 11, 4, 4), 9), Err(ErrorCode::TooManyEducationEntries));
    assert_eq!(update_resume(&mut ctx, resume(3, 4, 11, 4, 4), 9), Err(ErrorCode::TooManyExperienceEntries));
    assert_eq!(update_resume(&mut ctx, resume(3, 3, 11, 4, 4), 9), Err(ErrorCode::TooManySkills));
    assert_eq!(update_resume(&mut ctx, resume(3, 3, 10, 4, 4), 9), Err(ErrorCode::TooManyCertifications));
    assert_eq!(update_resume(&mut ctx, resume(3, 3, 10, 3, 4), 9), Err(ErrorCode::TooManyPortfolioItems));
    assert!(ctx.user.resume.is_none());
    assert_eq!(update_resume(&mut ctx, resume(3, 3, 10, 3, 3), 9), Ok(()));
}
