//! The records of a marketplace as a map from keys, how records are looked
//! up in it and stored into it, and what makes it sound.

use crate::error::ErrorCode;
use crate::escrow::{Escrow, EscrowView, Wallet};
use crate::keys::AccountKey;
use crate::principal::Principal;
use crate::state::{Job, JobCounter, JobView, User, UserView};
use crate::store::{Account, AccountStore, AccountView};
use vstd::prelude::*;

verus! {

/// All the records of a marketplace, by key.
pub type Accounts = Map<AccountKey, AccountView>;

/// The user record of `who`, if there is one.
pub open spec fn user_at(accounts: Accounts, who: Principal) -> Option<UserView> {
    if accounts.contains_key(AccountKey::User(who)) {
        Some(accounts[AccountKey::User(who)]->User_0)
    } else {
        None
    }
}

/// The job numbered `job_id`, if there is one.
pub open spec fn job_at(accounts: Accounts, job_id: u64) -> Option<JobView> {
    if accounts.contains_key(AccountKey::Job(job_id)) {
        Some(accounts[AccountKey::Job(job_id)]->Job_0)
    } else {
        None
    }
}

/// The escrow of job `job_id`, if there is one.
pub open spec fn escrow_at(accounts: Accounts, job_id: u64) -> Option<EscrowView> {
    if accounts.contains_key(AccountKey::Escrow(job_id)) {
        Some(accounts[AccountKey::Escrow(job_id)]->Escrow_0)
    } else {
        None
    }
}

/// The job counter, if it is set up.
pub open spec fn counter_at(accounts: Accounts) -> Option<JobCounter> {
    if accounts.contains_key(AccountKey::JobCounter) {
        Some(accounts[AccountKey::JobCounter]->JobCounter_0)
    } else {
        None
    }
}

/// The wallet of `who`. A principal without a wallet record has an empty
/// wallet.
pub open spec fn wallet_at(accounts: Accounts, who: Principal) -> Wallet {
    if accounts.contains_key(AccountKey::Wallet(who)) {
        accounts[AccountKey::Wallet(who)]->Wallet_0
    } else {
        Wallet { owner: who, balance: 0 }
    }
}

/// The user record of `who`; where there is none, a blank record of someone
/// else stands in. Every operation refuses to work for `who` on the record of
/// someone else.
pub open spec fn user_or_stranger(accounts: Accounts, who: Principal) -> UserView {
    match user_at(accounts, who) {
        Some(user) => user,
        None => UserView { authority: who.other_than(), ..UserView::blank() },
    }
}

/// A job number that is not `job_id`.
pub open spec fn other_number(job_id: u64) -> u64 {
    if job_id == 0 {
        1
    } else {
        0
    }
}

/// The job numbered `job_id`; where there is none, a blank job with another
/// number stands in. Every operation on job `job_id` refuses to work on a job
/// with another number, saying that the job is not found.
pub open spec fn job_or_other(accounts: Accounts, job_id: u64) -> JobView {
    match job_at(accounts, job_id) {
        Some(job) => job,
        None => JobView { job_id: other_number(job_id), ..JobView::blank() },
    }
}

/// The escrow of job `job_id`; where there is no record of it yet, an empty
/// one reachable under `address`.
pub open spec fn escrow_or_new(accounts: Accounts, job_id: u64, address: Principal) -> EscrowView {
    match escrow_at(accounts, job_id) {
        Some(escrow) => escrow,
        None => EscrowView { address, job_id, balance: 0, deposited: 0, withdrawn: 0 },
    }
}

/// The records with `user` stored under its principal.
pub open spec fn with_user(accounts: Accounts, user: UserView) -> Accounts {
    accounts.insert(AccountKey::User(user.authority), AccountView::User(user))
}

/// The records with `job` stored under its number.
pub open spec fn with_job(accounts: Accounts, job: JobView) -> Accounts {
    accounts.insert(AccountKey::Job(job.job_id), AccountView::Job(job))
}

/// The records with `escrow` stored under the number of its job.
pub open spec fn with_escrow(accounts: Accounts, escrow: EscrowView) -> Accounts {
    accounts.insert(AccountKey::Escrow(escrow.job_id), AccountView::Escrow(escrow))
}

/// The records with `wallet` stored under its owner.
pub open spec fn with_wallet(accounts: Accounts, wallet: Wallet) -> Accounts {
    accounts.insert(AccountKey::Wallet(wallet.owner), AccountView::Wallet(wallet))
}

/// The records with the job counter at `counter`.
pub open spec fn with_counter(accounts: Accounts, counter: JobCounter) -> Accounts {
    accounts.insert(AccountKey::JobCounter, AccountView::JobCounter(counter))
}

/// Records as a marketplace keeps them: finitely many, each under the key it
/// belongs under, every job well formed, every escrow with its books kept.
pub open spec fn sound(accounts: Accounts) -> bool {
    &&& accounts.dom().finite()
    &&& forall|key: AccountKey| #[trigger]
        accounts.contains_key(key) ==> accounts[key].key() == key
    &&& forall|job_id: u64| #[trigger]
        accounts.contains_key(AccountKey::Job(job_id)) ==> accounts[AccountKey::Job(
            job_id,
        )]->Job_0.wf()
    &&& forall|job_id: u64| #[trigger]
        accounts.contains_key(AccountKey::Escrow(job_id)) ==> accounts[AccountKey::Escrow(
            job_id,
        )]->Escrow_0.conserved()
}

/// Takes the user record of `who` out of the store, or makes the record
/// that stands in for it, and says which.
pub(crate) fn take_user(store: &mut AccountStore, who: &Principal) -> (r: (User, bool))
    ensures
        r.0@ == user_or_stranger(old(store)@, *who),
        r.1 == old(store)@.contains_key(AccountKey::User(*who)),
        r.1 ==> old(store)@[AccountKey::User(*who)] == AccountView::User(r.0@) && r.0.authority
            == *who,
        !r.1 ==> r.0.authority != *who,
        final(store)@ == old(store)@.remove(AccountKey::User(*who)),
{
    let ghost before = store@;
    match store.remove(&AccountKey::User(*who)) {
        Ok(Account::User(user)) => (user, true),
        _ => {
            assert(store@ =~= before.remove(AccountKey::User(*who)));
            let mut user = User::blank();
            user.authority = who.stranger();
            (user, false)
        },
    }
}

/// Takes job `job_id` out of the store, or makes the job that stands in for
/// it, and says which.
pub(crate) fn take_job(store: &mut AccountStore, job_id: u64) -> (r: (Job, bool))
    ensures
        r.0@ == job_or_other(old(store)@, job_id),
        r.1 == old(store)@.contains_key(AccountKey::Job(job_id)),
        r.1 ==> old(store)@[AccountKey::Job(job_id)] == AccountView::Job(r.0@) && r.0.job_id
            == job_id,
        !r.1 ==> r.0.job_id != job_id,
        final(store)@ == old(store)@.remove(AccountKey::Job(job_id)),
{
    let ghost before = store@;
    match store.remove(&AccountKey::Job(job_id)) {
        Ok(Account::Job(job)) => (job, true),
        _ => {
            assert(store@ =~= before.remove(AccountKey::Job(job_id)));
            let mut job = Job::blank();
            job.job_id = if job_id == 0 {
                1
            } else {
                0
            };
            (job, false)
        },
    }
}

/// Takes the escrow of job `job_id` out of the store, or makes an empty one
/// under `address`, and says which.
pub(crate) fn take_escrow(
    store: &mut AccountStore,
    job_id: u64,
    address: Principal,
) -> (r: (Escrow, bool))
    ensures
        r.0@ == escrow_or_new(old(store)@, job_id, address),
        r.0.job_id == job_id,
        r.1 == old(store)@.contains_key(AccountKey::Escrow(job_id)),
        r.1 ==> old(store)@[AccountKey::Escrow(job_id)] == AccountView::Escrow(r.0@),
        !r.1 ==> r.0@.conserved(),
        final(store)@ == old(store)@.remove(AccountKey::Escrow(job_id)),
{
    let ghost before = store@;
    match store.remove(&AccountKey::Escrow(job_id)) {
        Ok(Account::Escrow(escrow)) => (escrow, true),
        _ => {
            assert(store@ =~= before.remove(AccountKey::Escrow(job_id)));
            (Escrow::new(address, job_id), false)
        },
    }
}

/// Takes the job counter out of the store.
pub(crate) fn take_counter(store: &mut AccountStore) -> (r: Result<JobCounter, ErrorCode>)
    ensures
        match r {
            Ok(counter) => {
                &&& counter_at(old(store)@) == Some(counter)
                &&& old(store)@[AccountKey::JobCounter] == AccountView::JobCounter(counter)
                &&& final(store)@ == old(store)@.remove(AccountKey::JobCounter)
            },
            Err(e) => {
                &&& e == ErrorCode::NotFound
                &&& counter_at(old(store)@) is None
                &&& final(store)@ == old(store)@
            },
        },
{
    match store.remove(&AccountKey::JobCounter) {
        Ok(Account::JobCounter(counter)) => Ok(counter),
        Ok(_) => Err(ErrorCode::NotFound),
        Err(e) => Err(e),
    }
}

/// Takes the wallet of `who` out of the store, and says whether there was a
/// record of it.
pub(crate) fn take_wallet(store: &mut AccountStore, who: &Principal) -> (r: (Wallet, bool))
    ensures
        r.0 == wallet_at(old(store)@, *who),
        r.0.owner == *who,
        r.1 == old(store)@.contains_key(AccountKey::Wallet(*who)),
        r.1 ==> old(store)@[AccountKey::Wallet(*who)] == AccountView::Wallet(r.0),
        final(store)@ == old(store)@.remove(AccountKey::Wallet(*who)),
{
    let ghost before = store@;
    match store.remove(&AccountKey::Wallet(*who)) {
        Ok(Account::Wallet(wallet)) => (wallet, true),
        _ => {
            assert(store@ =~= before.remove(AccountKey::Wallet(*who)));
            (Wallet { owner: *who, balance: 0 }, false)
        },
    }
}

/// Stores `record` under its key, which must be free.
pub(crate) fn put(store: &mut AccountStore, record: Account)
    requires
        !old(store)@.contains_key(record@.key()),
    ensures
        final(store)@ == old(store)@.insert(record@.key(), record@),
{
    match store.create(record) {
        Ok(()) => {},
        Err(_) => {},
    }
}

} // verus!
