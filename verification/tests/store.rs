use backend::error::ErrorCode;
use backend::escrow::{Escrow, Wallet};
use backend::keys::AccountKey;
use backend::principal::Principal;
use backend::state::{Job, JobCounter, User};
use backend::store::{Account, AccountStore};

fn principal(tag: u8) -> Principal {
    Principal::new([tag; 32])
}

fn user(tag: u8, reputation: u64) -> Account {
    let mut user = User::blank();
    user.authority = principal(tag);
    user.reputation = reputation;
    Account::User(user)
}

fn job(job_id: u64, budget: u64) -> Account {
    let mut job = Job::blank();
    job.job_id = job_id;
    job.budget = budget;
    Account::Job(job)
}

fn reputation(store: &AccountStore, tag: u8) -> Option<u64> {
    match store.get(&AccountKey::User(principal(tag))) {
        Ok(Account::User(user)) => Some(user.reputation),
        Ok(_) => panic!("a record of another kind under a user key"),
        Err(e) => {
            assert_eq!(e, ErrorCode::NotFound);
            None
        }
    }
}

#[test]
fn keys_are_made_of_kind_and_identifier() {
    assert_eq!(user(1, 0).key(), AccountKey::User(principal(1)));
    assert_eq!(job(7, 0).key(), AccountKey::Job(7));
    assert_eq!(Account::Escrow(Escrow::new(principal(9), 7)).key(), AccountKey::Escrow(7));
    assert_eq!(Account::Wallet(Wallet::new(principal(1), 5)).key(), AccountKey::Wallet(principal(1)));
    assert_eq!(Account::JobCounter(JobCounter { count: 3 }).key(), AccountKey::JobCounter);

    assert_ne!(AccountKey::User(principal(1)), AccountKey::Wallet(principal(1)));
    assert_ne!(AccountKey::Job(7), AccountKey::Escrow(7));
    assert_ne!(AccountKey::Job(7), AccountKey::Job(8));
    assert_ne!(AccountKey::User(principal(1)), AccountKey::User(principal(2)));
    assert_ne!(AccountKey::JobCounter, AccountKey::Job(0));
    assert_eq!(AccountKey::Escrow(7), AccountKey::Escrow(7));
}

#[test]
fn an_empty_store_holds_nothing() {
    let mut store = AccountStore::new();
    assert!(!store.contains_key(&AccountKey::JobCounter));
    assert!(matches!(store.get(&AccountKey::Job(0)), Err(ErrorCode::NotFound)));
    assert!(matches!(store.remove(&AccountKey::Job(0)), Err(ErrorCode::NotFound)));
    assert_eq!(store.update(&AccountKey::Job(0), |record| record), Err(ErrorCode::NotFound));
}

#[test]
fn create_then_get() {
    let mut store = AccountStore::new();
    assert_eq!(store.create(user(1, 10)), Ok(()));
    assert_eq!(store.create(user(2, 20)), Ok(()));
    assert_eq!(store.create(job(1, 500)), Ok(()));
    assert!(store.contains_key(&AccountKey::User(principal(1))));
    assert!(store.contains_key(&AccountKey::Job(1)));
    assert!(!store.contains_key(&AccountKey::Escrow(1)));
    assert!(!store.contains_key(&AccountKey::Wallet(principal(1))));
    assert_eq!(reputation(&store, 1), Some(10));
    assert_eq!(reputation(&store, 2), Some(20));
    assert_eq!(reputation(&store, 3), None);
    match store.get(&AccountKey::Job(1)) {
        Ok(Account::Job(job)) => assert_eq!(job.budget, 500),
        _ => panic!("job 1 is stored"),
    }
}

#[test]
fn create_refuses_a_taken_key() {
    let mut store = AccountStore::new();
    assert_eq!(store.create(user(1, 10)), Ok(()));
    assert_eq!(store.create(user(1, 99)), Err(ErrorCode::AlreadyExists));
    assert_eq!(reputation(&store, 1), Some(10));
}

#[test]
fn update_replaces_one_record() {
    let mut store = AccountStore::new();
    assert_eq!(store.create(user(1, 10)), Ok(()));
    assert_eq!(store.create(user(2, 20)), Ok(()));
    assert_eq!(store.create(user(3, 30)), Ok(()));
    let raise = |record: Account| match record {
        Account::User(mut user) => {
            user.reputation += 5;
            Account::User(user)
        }
        other => other,
    };
    assert_eq!(store.update(&AccountKey::User(principal(2)), raise), Ok(()));
    assert_eq!(reputation(&store, 1), Some(10));
    assert_eq!(reputation(&store, 2), Some(25));
    assert_eq!(reputation(&store, 3), Some(30));
    assert_eq!(store.update(&AccountKey::User(principal(4)), raise), Err(ErrorCode::NotFound));
    assert_eq!(reputation(&store, 4), None);
}

#[test]
fn remove_takes_one_record_out() {
    let mut store = AccountStore::new();
    for tag in 1..=5u8 {
        assert_eq!(store.create(user(tag, tag as u64 * 10)), Ok(()));
    }
    match store.remove(&AccountKey::User(principal(3))) {
        Ok(Account::User(user)) => {
            assert_eq!(user.authority, principal(3));
            assert_eq!(user.reputation, 30);
        }
        _ => panic!("user 3 is stored"),
    }
    assert!(matches!(store.remove(&AccountKey::User(principal(3))), Err(ErrorCode::NotFound)));
    for tag in [1u8, 2, 4, 5] {
        assert_eq!(reputation(&store, tag), Some(tag as u64 * 10));
    }
    assert_eq!(reputation(&store, 3), None);
    assert_eq!(store.create(user(3, 31)), Ok(()));
    assert_eq!(reputation(&store, 3), Some(31));
}
