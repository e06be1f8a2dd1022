use backend::error::ErrorCode;
use backend::market::operation::Operation;
use backend::market::Marketplace;
use backend::principal::Principal;
use backend::state::{DisputeStatus, JobStatus, VOTING_PERIOD};

const DAY: i64 = 86_400;

fn principal(tag: u8) -> Principal {
    Principal::new([tag; 32])
}

const CLIENT: u8 = 1;
const FREELANCER: u8 = 2;

/// A marketplace with a client who holds 5000, a freelancer who holds 40,
/// and the job counter set up.
fn market() -> Marketplace {
    let mut market = Marketplace::new();
    assert_eq!(market.register_user(principal(CLIENT), "client".to_string(), true, false, None, 1), Ok(()));
    assert_eq!(
        market.register_user(principal(FREELANCER), "freelancer".to_string(), false, true, None, 2),
        Ok(())
    );
    assert_eq!(market.initialize_job_counter(principal(CLIENT)), Ok(()));
    assert_eq!(market.fund_wallet(principal(CLIENT), 5_000), Ok(()));
    assert_eq!(market.fund_wallet(principal(FREELANCER), 40), Ok(()));
    market
}

fn post(market: &mut Marketplace, now: i64) -> u64 {
    let job_id = market.next_job_id().unwrap();
    assert_eq!(
        market.create_job(
            principal(CLIENT),
            "Build a site".to_string(),
            "A small site".to_string(),
            1_000,
            now + DAY,
            vec!["rust".to_string()],
            "web".to_string(),
            now,
        ),
        Ok(())
    );
    job_id
}

/// Job 0 posted with budget 1000, bid on at 900 and assigned.
fn assigned() -> Marketplace {
    let mut market = market();
    assert_eq!(post(&mut market, 1_000), 0);
    assert_eq!(market.submit_proposal(principal(FREELANCER), 0, 900, 1_100), Ok(()));
    assert_eq!(
        market.assign_job(principal(CLIENT), 0, principal(FREELANCER), 900, principal(90), 1_200),
        Ok(())
    );
    market
}

fn total(market: &Marketplace, jobs: u64, principals: &[u8]) -> u64 {
    let mut sum = 0;
    for job_id in 0..jobs {
        sum += market.escrow_balance(job_id);
    }
    for tag in principals {
        sum += market.wallet_balance(&principal(*tag));
    }
    sum
}

#[test]
fn a_principal_registers_once() {
    let mut market = market();
    assert_eq!(
        market.register_user(principal(CLIENT), "again".to_string(), false, true, None, 9),
        Err(ErrorCode::AlreadyExists)
    );
    let user = market.user(&principal(CLIENT)).unwrap();
    assert_eq!(user.name, "client");
    assert!(user.is_client);
    assert_eq!(user.reputation, 50);
    assert!(matches!(market.user(&principal(3)), Err(ErrorCode::NotFound)));
    assert_eq!(market.initialize_job_counter(principal(FREELANCER)), Err(ErrorCode::AlreadyExists));
}

#[test]
fn the_owner_changes_the_user_record() {
    let mut market = market();
    assert_eq!(
        market.update_user_info(principal(CLIENT), Some("renamed".to_string()), None, Some(true)),
        Ok(())
    );
    let user = market.user(&principal(CLIENT)).unwrap();
    assert_eq!(user.name, "renamed");
    assert!(user.is_client);
    assert!(user.is_freelancer);
    // One who has no user record has none to change.
    assert_eq!(market.update_user_info(principal(3), None, None, None), Err(ErrorCode::AuthorityMismatch));
    assert!(matches!(market.user(&principal(3)), Err(ErrorCode::NotFound)));
    assert_eq!(market.user(&principal(FREELANCER)).unwrap().name, "freelancer");
}

#[test]
fn jobs_are_numbered_in_order() {
    let mut market = market();
    assert_eq!(market.next_job_id(), Ok(0));
    assert_eq!(post(&mut market, 1_000), 0);
    assert_eq!(post(&mut market, 2_000), 1);
    assert_eq!(post(&mut market, 3_000), 2);
    assert_eq!(market.next_job_id(), Ok(3));
    assert_eq!(market.job(1).unwrap().created_at, 2_000);
    assert_eq!(market.job(2).unwrap().job_id, 2);
    assert!(matches!(market.job(3), Err(ErrorCode::NotFound)));
    assert_eq!(market.user(&principal(CLIENT)).unwrap().active_jobs, 3);
}

#[test]
fn posting_needs_counter_and_user() {
    let mut bare = Marketplace::new();
    assert!(matches!(bare.next_job_id(), Err(ErrorCode::NotFound)));
    let post_by = |market: &mut Marketplace, who: u8, deadline: i64| {
        market.create_job(
            principal(who),
            "t".to_string(),
            "d".to_string(),
            1,
            deadline,
            vec![],
            "c".to_string(),
            1_000,
        )
    };
    assert_eq!(post_by(&mut bare, CLIENT, 2_000), Err(ErrorCode::NotFound));
    let mut market = market();
    assert_eq!(post_by(&mut market, 3, 2_000), Err(ErrorCode::AuthorityMismatch));
    assert_eq!(post_by(&mut market, CLIENT, 1_000), Err(ErrorCode::InvalidDeadline));
    assert_eq!(market.next_job_id(), Ok(0));
    assert!(matches!(market.job(0), Err(ErrorCode::NotFound)));
    assert_eq!(market.user(&principal(CLIENT)).unwrap().active_jobs, 0);
}

#[test]
fn assigning_the_bid_funds_the_escrow_of_the_job() {
    let market = assigned();
    let job = market.job(0).unwrap();
    assert_eq!(job.status, JobStatus::InProgress);
    assert_eq!(job.budget, 900);
    assert_eq!(job.freelancer, Some(principal(FREELANCER)));
    assert_eq!(job.escrow, principal(90));
    assert_eq!(market.escrow_balance(0), 900);
    assert_eq!(market.wallet_balance(&principal(CLIENT)), 4_100);
    assert_eq!(market.wallet_balance(&principal(FREELANCER)), 40);
    assert_eq!(market.user(&principal(CLIENT)).unwrap().pending_jobs, 1);
    assert_eq!(market.user(&principal(CLIENT)).unwrap().active_jobs, 0);
    assert_eq!(market.user(&principal(FREELANCER)).unwrap().pending_jobs, 2);
}

#[test]
fn a_refused_operation_changes_nothing() {
    let mut market = market();
    post(&mut market, 1_000);
    assert_eq!(market.submit_proposal(principal(FREELANCER), 0, 900, 1_100), Ok(()));
    let before = format!("{:?} {:?}", market.job(0).unwrap(), market.user(&principal(CLIENT)).unwrap());

    assert_eq!(
        market.assign_job(principal(CLIENT), 0, principal(FREELANCER), 5_001, principal(90), 9),
        Err(ErrorCode::BidNotFound)
    );
    assert_eq!(
        market.assign_job(principal(FREELANCER), 0, principal(FREELANCER), 900, principal(90), 9),
        Err(ErrorCode::NotJobClient)
    );
    assert_eq!(
        market.assign_job(principal(CLIENT), 0, principal(3), 900, principal(90), 9),
        Err(ErrorCode::BidNotFound)
    );
    assert_eq!(
        market.assign_job(principal(CLIENT), 1, principal(FREELANCER), 900, principal(90), 9),
        Err(ErrorCode::NotFound)
    );
    // One who is not registered cannot bid.
    assert_eq!(market.submit_proposal(principal(3), 0, 800, 9), Err(ErrorCode::UnauthorizedUser));
    assert_eq!(market.submit_proposal(principal(FREELANCER), 0, 800, 9), Err(ErrorCode::AlreadySubmittedBid));
    assert_eq!(market.submit_proposal(principal(CLIENT), 0, 800, 9), Err(ErrorCode::CannotBidOwnJob));
    assert_eq!(market.submit_proposal(principal(FREELANCER), 1, 800, 9), Err(ErrorCode::NotFound));
    assert_eq!(market.accept_work(principal(CLIENT), 0, 5, 9), Err(ErrorCode::JobNotInProgress));
    assert_eq!(market.withdraw_from_escrow(principal(FREELANCER), 0, 5, 9), Err(ErrorCode::JobNotCompleted));
    assert_eq!(market.delete_job(principal(CLIENT), 0), Err(ErrorCode::JobNotCompleted));
    assert_eq!(market.finalize_dispute(0, 9), Err(ErrorCode::NoDispute));
    assert_eq!(market.raise_dispute(principal(CLIENT), 0, "why".to_string(), 9), Err(ErrorCode::NoFreelancerAssigned));
    assert_eq!(
        market.submit_work(principal(FREELANCER), 0, "u".to_string(), "d".to_string(), 9),
        Err(ErrorCode::JobNotInProgress)
    );
    assert_eq!(market.request_revision(principal(CLIENT), 0, "d".to_string(), 9), Err(ErrorCode::JobNotInProgress));

    let after = format!("{:?} {:?}", market.job(0).unwrap(), market.user(&principal(CLIENT)).unwrap());
    assert_eq!(before, after);
    assert_eq!(market.escrow_balance(0), 0);
    assert_eq!(market.wallet_balance(&principal(CLIENT)), 5_000);
}

#[test]
fn a_client_without_funds_cannot_assign() {
    let mut market = Marketplace::new();
    assert_eq!(market.register_user(principal(CLIENT), "c".to_string(), true, false, None, 1), Ok(()));
    assert_eq!(market.register_user(principal(FREELANCER), "f".to_string(), false, true, None, 1), Ok(()));
    assert_eq!(market.initialize_job_counter(principal(CLIENT)), Ok(()));
    post(&mut market, 1_000);
    assert_eq!(market.submit_proposal(principal(FREELANCER), 0, 900, 1_100), Ok(()));
    assert_eq!(market.wallet_balance(&principal(CLIENT)), 0);
    assert_eq!(
        market.assign_job(principal(CLIENT), 0, principal(FREELANCER), 900, principal(90), 9),
        Err(ErrorCode::InsufficientBalance)
    );
    assert_eq!(market.fund_wallet(principal(CLIENT), 899), Ok(()));
    assert_eq!(
        market.assign_job(principal(CLIENT), 0, principal(FREELANCER), 900, principal(90), 9),
        Err(ErrorCode::InsufficientBalance)
    );
    assert_eq!(market.fund_wallet(principal(CLIENT), 1), Ok(()));
    assert_eq!(
        market.assign_job(principal(CLIENT), 0, principal(FREELANCER), 900, principal(90), 9),
        Ok(())
    );
    assert_eq!(market.wallet_balance(&principal(CLIENT)), 0);
    assert_eq!(market.escrow_balance(0), 900);
}

#[test]
fn work_revision_acceptance_payout_deletion() {
    let mut market = assigned();
    let everyone = [CLIENT, FREELANCER];
    let funds = total(&market, 1, &everyone);
    assert_eq!(funds, 5_040);

    assert_eq!(
        market.submit_work(principal(FREELANCER), 0, "https://w/1".to_string(), "done".to_string(), 2_000),
        Ok(())
    );
    assert_eq!(market.request_revision(principal(CLIENT), 0, "more".to_string(), 2_100), Ok(()));
    {
        let job = market.job(0).unwrap();
        assert!(!job.work_submitted);
        assert_eq!(job.work_submission_url, "");
        assert_eq!(job.work_submission_description, "");
        assert_eq!(job.revision_request, Some("more".to_string()));
        assert_eq!(job.status, JobStatus::InProgress);
    }
    assert_eq!(market.accept_work(principal(CLIENT), 0, 5, 2_150), Err(ErrorCode::NoWorkSubmitted));
    assert_eq!(
        market.submit_work(principal(FREELANCER), 0, "https://w/2".to_string(), "redone".to_string(), 2_200),
        Ok(())
    );
    assert_eq!(market.accept_work(principal(FREELANCER), 0, 5, 2_300), Err(ErrorCode::NotJobClient));
    assert_eq!(market.accept_work(principal(CLIENT), 0, 5, 2_300), Ok(()));
    assert_eq!(market.job(0).unwrap().status, JobStatus::Completed);
    assert_eq!(market.user(&principal(FREELANCER)).unwrap().reputation, 75);
    assert_eq!(market.user(&principal(FREELANCER)).unwrap().completed_jobs, 1);
    assert_eq!(market.user(&principal(CLIENT)).unwrap().total_spent, 900);
    assert_eq!(total(&market, 1, &everyone), funds);

    assert_eq!(market.delete_job(principal(CLIENT), 0), Err(ErrorCode::PaymentNotCompleted));
    assert_eq!(market.withdraw_from_escrow(principal(CLIENT), 0, 4, 2_400), Err(ErrorCode::NotAssignedFreelancer));
    assert_eq!(market.withdraw_from_escrow(principal(FREELANCER), 0, 4, 2_400), Ok(()));
    assert_eq!(market.user(&principal(FREELANCER)).unwrap().total_earnings, 900);
    assert_eq!(market.user(&principal(CLIENT)).unwrap().reputation, 70);
    assert_eq!(market.escrow_balance(0), 0);
    assert_eq!(market.wallet_balance(&principal(FREELANCER)), 940);
    assert_eq!(market.job(0).unwrap().total_paid, 900);
    assert_eq!(total(&market, 1, &everyone), funds);

    assert_eq!(market.withdraw_from_escrow(principal(FREELANCER), 0, 4, 2_500), Err(ErrorCode::AlreadyWithdrawn));
    assert_eq!(market.wallet_balance(&principal(FREELANCER)), 940);

    assert_eq!(market.delete_job(principal(FREELANCER), 0), Err(ErrorCode::NotJobClient));
    assert_eq!(market.delete_job(principal(CLIENT), 0), Ok(()));
    assert!(matches!(market.job(0), Err(ErrorCode::NotFound)));
    assert_eq!(market.delete_job(principal(CLIENT), 0), Err(ErrorCode::NotFound));
    assert_eq!(total(&market, 1, &everyone), funds);
}

fn voter(market: &mut Marketplace, tag: u8) -> Principal {
    let who = principal(tag);
    assert_eq!(market.register_user(who, "voter".to_string(), false, false, None, 3), Ok(()));
    who
}

#[test]
fn a_dispute_lost_by_the_client_pays_the_freelancer() {
    let mut market = assigned();
    let raised_at = 10_000;
    assert_eq!(market.raise_dispute(principal(3), 0, "late".to_string(), raised_at), Err(ErrorCode::UnauthorizedUser));
    assert_eq!(market.raise_dispute(principal(CLIENT), 1, "late".to_string(), raised_at), Err(ErrorCode::NotFound));
    assert_eq!(market.raise_dispute(principal(CLIENT), 0, "late".to_string(), raised_at), Ok(()));
    assert_eq!(market.job(0).unwrap().status, JobStatus::Disputed);
    assert_eq!(market.user(&principal(CLIENT)).unwrap().disputes_raised, 1);
    assert_eq!(
        market.raise_dispute(principal(FREELANCER), 0, "too".to_string(), raised_at),
        Err(ErrorCode::DisputeAlreadyExists)
    );

    for (tag, support) in [(20u8, false), (21u8, false), (22u8, true)] {
        let who = voter(&mut market, tag);
        assert_eq!(market.vote_dispute(who, 0, support, raised_at + 100), Ok(()));
    }
    assert_eq!(market.vote_dispute(principal(20), 0, true, raised_at + 100), Err(ErrorCode::AlreadyVoted));
    assert_eq!(market.vote_dispute(principal(CLIENT), 0, true, raised_at + 100), Err(ErrorCode::CannotVoteOwnDispute));
    assert_eq!(
        market.vote_dispute(principal(FREELANCER), 0, true, raised_at + 100),
        Err(ErrorCode::CannotVoteOwnDispute)
    );
    // One who is not registered cannot vote.
    assert_eq!(market.vote_dispute(principal(23), 0, true, raised_at + 100), Err(ErrorCode::UnauthorizedUser));
    let late = voter(&mut market, 24);
    assert_eq!(market.vote_dispute(late, 0, true, raised_at + VOTING_PERIOD + 1), Err(ErrorCode::VotingClosed));
    {
        let job = market.job(0).unwrap();
        let dispute = job.dispute.as_ref().unwrap();
        assert_eq!((dispute.votes_for, dispute.votes_against), (1, 2));
        assert_eq!(dispute.voters, vec![principal(20), principal(21), principal(22)]);
    }

    assert_eq!(market.finalize_dispute(0, raised_at + VOTING_PERIOD), Err(ErrorCode::VotingStillActive));
    assert_eq!(market.escrow_balance(0), 900);
    let after = raised_at + VOTING_PERIOD + 1;
    assert_eq!(market.finalize_dispute(0, after), Ok(()));
    {
        let job = market.job(0).unwrap();
        assert_eq!(job.status, JobStatus::Completed);
        assert_eq!(job.total_paid, 900);
        let dispute = job.dispute.as_ref().unwrap();
        assert_eq!(dispute.status, DisputeStatus::Resolved);
        assert_eq!(dispute.resolved_at, Some(after));
    }
    assert_eq!(market.wallet_balance(&principal(FREELANCER)), 940);
    assert_eq!(market.wallet_balance(&principal(CLIENT)), 4_100);
    assert_eq!(market.escrow_balance(0), 0);
    assert_eq!(market.user(&principal(CLIENT)).unwrap().disputes_resolved, 1);
    assert_eq!(market.user(&principal(FREELANCER)).unwrap().disputes_resolved, 1);

    assert_eq!(market.finalize_dispute(0, after + 1), Err(ErrorCode::DisputeNotOpen));
    assert_eq!(market.withdraw_from_escrow(principal(FREELANCER), 0, 5, after + 2), Err(ErrorCode::AlreadyWithdrawn));
    assert_eq!(market.wallet_balance(&principal(FREELANCER)), 940);
}

#[test]
fn a_dispute_won_by_the_client_cancels_the_job() {
    let mut market = assigned();
    assert_eq!(market.raise_dispute(principal(CLIENT), 0, "late".to_string(), 10_000), Ok(()));
    let who = voter(&mut market, 20);
    assert_eq!(market.vote_dispute(who, 0, true, 10_000 + VOTING_PERIOD), Ok(()));
    assert_eq!(market.finalize_dispute(0, 10_001 + VOTING_PERIOD), Ok(()));
    assert_eq!(market.job(0).unwrap().status, JobStatus::Cancelled);
    assert_eq!(market.wallet_balance(&principal(CLIENT)), 5_000);
    assert_eq!(market.wallet_balance(&principal(FREELANCER)), 40);
    assert_eq!(market.escrow_balance(0), 0);
    assert_eq!(market.delete_job(principal(CLIENT), 0), Err(ErrorCode::JobNotCompleted));
}

#[test]
fn jobs_do_not_share_funds() {
    let mut market = market();
    post(&mut market, 1_000);
    post(&mut market, 1_000);
    assert_eq!(market.submit_proposal(principal(FREELANCER), 0, 900, 1_100), Ok(()));
    assert_eq!(market.submit_proposal(principal(FREELANCER), 1, 300, 1_100), Ok(()));
    assert_eq!(
        market.assign_job(principal(CLIENT), 0, principal(FREELANCER), 900, principal(90), 1_200),
        Ok(())
    );
    assert_eq!(
        market.assign_job(principal(CLIENT), 1, principal(FREELANCER), 300, principal(91), 1_200),
        Ok(())
    );
    assert_eq!(market.escrow_balance(0), 900);
    assert_eq!(market.escrow_balance(1), 300);
    assert_eq!(market.wallet_balance(&principal(CLIENT)), 3_800);

    assert_eq!(
        market.submit_work(principal(FREELANCER), 1, "u".to_string(), "d".to_string(), 1_300),
        Ok(())
    );
    assert_eq!(market.accept_work(principal(CLIENT), 1, 3, 1_400), Ok(()));
    let other = format!("{:?}", market.job(0).unwrap());
    assert_eq!(market.withdraw_from_escrow(principal(FREELANCER), 1, 3, 1_500), Ok(()));
    assert_eq!(market.escrow_balance(0), 900);
    assert_eq!(market.escrow_balance(1), 0);
    assert_eq!(market.wallet_balance(&principal(FREELANCER)), 340);
    assert_eq!(format!("{:?}", market.job(0).unwrap()), other);
    assert_eq!(market.job(0).unwrap().status, JobStatus::InProgress);
    assert_eq!(market.job(1).unwrap().total_paid, 300);
}

#[test]
fn a_wallet_cannot_overflow() {
    let mut market = Marketplace::new();
    assert_eq!(market.fund_wallet(principal(7), u64::MAX - 1), Ok(()));
    assert_eq!(market.fund_wallet(principal(7), 2), Err(ErrorCode::ArithmeticOverflow));
    assert_eq!(market.wallet_balance(&principal(7)), u64::MAX - 1);
    assert_eq!(market.fund_wallet(principal(7), 1), Ok(()));
    assert_eq!(market.wallet_balance(&principal(7)), u64::MAX);
    assert_eq!(market.fund_wallet(principal(7), 0), Ok(()));
    assert_eq!(market.fund_wallet(principal(8), 1), Ok(()));
}

#[test]
fn operations_can_be_applied_as_values() {
    let mut market = market();
    let client = principal(CLIENT);
    let freelancer = principal(FREELANCER);
    let steps = vec![
        (
            Operation::CreateJob {
                authority: client,
                title: "t".to_string(),
                description: "d".to_string(),
                budget: 1_000,
                deadline: 5_000,
                skills: vec![],
                category: "c".to_string(),
            },
            Ok(()),
        ),
        (Operation::SubmitProposal { freelancer, job_id: 0, proposed_amount: 900 }, Ok(())),
        (
            Operation::SubmitProposal { freelancer, job_id: 0, proposed_amount: 901 },
            Err(ErrorCode::AlreadySubmittedBid),
        ),
        (
            Operation::AssignJob {
                client,
                job_id: 0,
                freelancer,
                bid_amount: 900,
                escrow_address: principal(90),
            },
            Ok(()),
        ),
        (
            Operation::SubmitWork {
                freelancer,
                job_id: 0,
                work_url: "u".to_string(),
                work_description: "d".to_string(),
            },
            Ok(()),
        ),
        (Operation::AcceptWork { client, job_id: 0, freelancer_rating: 6 }, Err(ErrorCode::InvalidRating)),
        (Operation::AcceptWork { client, job_id: 0, freelancer_rating: 2 }, Ok(())),
        (Operation::WithdrawFromEscrow { freelancer, job_id: 0, client_rating: 1 }, Ok(())),
        (Operation::FundWallet { owner: client, amount: 10 }, Ok(())),
        (Operation::DeleteJob { client, job_id: 0 }, Ok(())),
        (Operation::FinalizeDispute { job_id: 0 }, Err(ErrorCode::NotFound)),
        (Operation::RegisterUser {
            authority: client,
            name: "x".to_string(),
            is_client: true,
            is_freelancer: true,
            resume: None,
        }, Err(ErrorCode::AlreadyExists)),
        (Operation::InitializeJobCounter { authority: client }, Err(ErrorCode::AlreadyExists)),
        (
            Operation::UpdateUserInfo {
                authority: freelancer,
                new_name: Some("new".to_string()),
                new_is_client: None,
                new_is_freelancer: None,
            },
            Ok(()),
        ),
    ];
    for (i, (operation, expected)) in steps.into_iter().enumerate() {
        assert_eq!(market.apply(operation, 1_000 + i as i64), expected, "step {}", i);
    }
    assert_eq!(market.user(&freelancer).unwrap().reputation, 60);
    assert_eq!(market.user(&freelancer).unwrap().name, "new");
    assert_eq!(market.user(&client).unwrap().reputation, 55);
    assert_eq!(market.wallet_balance(&client), 4_110);
    assert_eq!(market.wallet_balance(&freelancer), 940);
    assert!(matches!(market.job(0), Err(ErrorCode::NotFound)));
}
