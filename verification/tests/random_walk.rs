use backend::error::ErrorCode;
use backend::market::operation::Operation;
use backend::market::Marketplace;
use backend::principal::Principal;
use backend::state::{JobStatus, VOTING_PERIOD};

/// A small generator of numbers that repeats from run to run.
struct Dice(u64);

impl Dice {
    fn roll(&mut self, sides: u64) -> u64 {
        self.0 = self.0.wrapping_mul(6364136223846793005).wrapping_add(1442695040888963407);
        (self.0 >> 33) % sides
    }
}

const PEOPLE: u8 = 6;
const JOBS: u64 = 5;

fn principal(tag: u8) -> Principal {
    Principal::new([tag; 32])
}

fn someone(dice: &mut Dice) -> Principal {
    principal(1 + dice.roll(PEOPLE as u64 + 1) as u8)
}

fn rank(status: JobStatus) -> u8 {
    match status {
        JobStatus::Open => 0,
        JobStatus::InProgress => 1,
        JobStatus::Disputed => 2,
        JobStatus::Completed | JobStatus::Cancelled => 3,
    }
}

fn funds(market: &Marketplace) -> u128 {
    let mut sum = 0u128;
    for tag in 0..=PEOPLE + 1 {
        sum += market.wallet_balance(&principal(tag)) as u128;
    }
    for job_id in 0..=JOBS + 1 {
        sum += market.escrow_balance(job_id) as u128;
    }
    sum
}

fn snapshot(market: &Marketplace) -> String {
    let mut text = String::new();
    for tag in 0..=PEOPLE + 1 {
        text += &format!("{:?}", market.user(&principal(tag)).ok());
        text += &format!("{}", market.wallet_balance(&principal(tag)));
    }
    for job_id in 0..=JOBS + 1 {
        text += &format!("{:?}", market.job(job_id).ok());
        text += &format!("{}", market.escrow_balance(job_id));
    }
    text += &format!("{:?}", market.next_job_id());
    text
}

fn some_operation(dice: &mut Dice) -> Operation {
    let job_id = dice.roll(JOBS + 1);
    match dice.roll(16) {
        0 => Operation::RegisterUser {
            authority: someone(dice),
            name: "name".to_string(),
            is_client: dice.roll(2) == 0,
            is_freelancer: dice.roll(4) != 0,
            resume: None,
        },
        1 => Operation::UpdateUserInfo {
            authority: someone(dice),
            new_name: None,
            new_is_client: None,
            new_is_freelancer: Some(dice.roll(4) != 0),
        },
        2 => Operation::InitializeJobCounter { authority: someone(dice) },
        3 => Operation::CreateJob {
            authority: someone(dice),
            title: "title".to_string(),
            description: "description".to_string(),
            budget: dice.roll(1_000),
            deadline: 1 << 40,
            skills: vec![],
            category: "category".to_string(),
        },
        4 | 5 => Operation::SubmitProposal {
            freelancer: someone(dice),
            job_id,
            proposed_amount: dice.roll(4) * 100,
        },
        6 | 7 => Operation::AssignJob {
            client: someone(dice),
            job_id,
            freelancer: someone(dice),
            bid_amount: dice.roll(4) * 100,
            escrow_address: principal(200 + job_id as u8),
        },
        8 => Operation::SubmitWork {
            freelancer: someone(dice),
            job_id,
            work_url: "url".to_string(),
            work_description: "work".to_string(),
        },
        9 => Operation::RequestRevision {
            client: someone(dice),
            job_id,
            revision_description: "again".to_string(),
        },
        10 => Operation::AcceptWork {
            client: someone(dice),
            job_id,
            freelancer_rating: dice.roll(7) as u8,
        },
        11 => Operation::WithdrawFromEscrow {
            freelancer: someone(dice),
            job_id,
            client_rating: dice.roll(7) as u8,
        },
        12 => Operation::DeleteJob { client: someone(dice), job_id },
        13 => Operation::RaiseDispute { raiser: someone(dice), job_id, reason: "why".to_string() },
        14 => Operation::VoteDispute { voter: someone(dice), job_id, support: dice.roll(2) == 0 },
        _ => Operation::FinalizeDispute { job_id },
    }
}

/// Makes `steps` operations picked at random, checks after each what holds
/// of every marketplace, and gives back how many went through.
fn walk(seed: u64, steps: usize) -> usize {
    let mut dice = Dice(seed);
    let mut market = Marketplace::new();
    for tag in 1..=PEOPLE {
        assert_eq!(market.fund_wallet(principal(tag), 1_000), Ok(()));
    }
    let total = funds(&market);
    assert_eq!(total, 1_000 * PEOPLE as u128);
    let mut now = 0i64;
    let mut done = 0;
    for _ in 0..steps {
        now += dice.roll(VOTING_PERIOD as u64 / 2) as i64;
        let before = snapshot(&market);
        let ranks: Vec<Option<(u8, u64)>> = (0..=JOBS)
            .map(|job_id| market.job(job_id).ok().map(|job| (rank(job.status), job.total_paid)))
            .collect();
        let operation = some_operation(&mut dice);
        let deletes = matches!(operation, Operation::DeleteJob { .. });
        match market.apply(operation, now) {
            Ok(()) => done += 1,
            Err(refusal) => {
                assert_ne!(refusal, ErrorCode::ArithmeticOverflow);
                assert_eq!(snapshot(&market), before);
            }
        }
        assert_eq!(funds(&market), total);
        for job_id in 0..=JOBS {
            let job = match market.job(job_id) {
                Ok(job) => job,
                Err(_) => {
                    assert!(ranks[job_id as usize].is_none() || deletes);
                    continue;
                }
            };
            assert_eq!(job.job_id, job_id);
            assert!(job.total_paid == 0 || job.total_paid == job.budget);
            assert_eq!(job.status == JobStatus::Open, job.freelancer.is_none());
            if job.total_paid != 0 {
                assert!(rank(job.status) == 3);
                assert_eq!(market.escrow_balance(job_id), 0);
            }
            if let Some((old_rank, old_paid)) = ranks[job_id as usize] {
                assert!(old_rank <= rank(job.status));
                if old_rank == 3 {
                    assert_eq!(old_rank, rank(job.status));
                }
                if old_paid != 0 {
                    assert_eq!(job.total_paid, old_paid);
                }
            }
            assert!(job.bidders.len() <= 50);
            for (i, bid) in job.bidders.iter().enumerate() {
                assert!(bid.proposed_amount > 0);
                assert!(job.bidders[..i].iter().all(|other| other.freelancer != bid.freelancer));
            }
            assert_eq!(job.status == JobStatus::Disputed, matches!(&job.dispute, Some(d) if d.resolved_at.is_none()));
            if let Some(dispute) = &job.dispute {
                assert_eq!(dispute.votes_for + dispute.votes_against, dispute.voters.len() as u64);
                assert!(dispute.voters.len() <= 100);
                assert!(!dispute.voters.contains(&dispute.raiser));
                for (i, voter) in dispute.voters.iter().enumerate() {
                    assert!(!dispute.voters[..i].contains(voter));
                    assert!(*voter != job.client && Some(*voter) != job.freelancer);
                }
                assert_eq!(dispute.voting_end, dispute.voting_start + VOTING_PERIOD);
            }
        }
    }
    done
}

#[test]
fn a_random_walk_keeps_the_books() {
    // The walk is no walk of refusals only.
    assert!(walk(1, 4_000) > 200);
}

#[test]
fn another_random_walk_keeps_the_books() {
    assert!(walk(0xfeed_beef, 4_000) > 200);
}

#[test]
fn many_short_random_walks_keep_the_books() {
    let mut done = 0;
    for seed in 100..160 {
        done += walk(seed, 150);
    }
    assert!(done > 60);
}
