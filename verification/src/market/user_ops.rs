//! The user and wallet operations of a marketplace.

use crate::contexts::{
    Initialize, InitializeJobCounter, InitializeView, UpdateResumeCtx, UpdateResumeCtxView,
    UpdateUserInfo, UpdateUserInfoView,
};
use crate::error::{reports, ErrorCode};
use crate::keys::AccountKey;
use crate::lifecycle::initialize_job_counter;
use crate::market::accounts::{
    counter_at, put, sound, take_user, take_wallet, user_at, user_or_stranger, wallet_at,
    with_counter, with_user, with_wallet, Accounts,
};
use crate::principal::Principal;
use crate::state::{JobCounter, Resume, User, UserView};
use crate::store::{Account, AccountStore};
use crate::users::{register_user, text_of, update_resume, update_user_info};
use vstd::prelude::*;

verus! {

/// Why registering `authority` is refused, if it is: the principal is
/// registered already.
pub open spec fn register_user_refusal(accounts: Accounts, authority: Principal) -> Option<
    ErrorCode,
> {
    if user_at(accounts, authority) is Some {
        Some(ErrorCode::AlreadyExists)
    } else {
        None
    }
}

/// The records after registering `authority` at time `now`: as before where
/// it is refused, and otherwise with the new user record.
pub open spec fn register_user_after(
    accounts: Accounts,
    authority: Principal,
    name: Seq<char>,
    is_client: bool,
    is_freelancer: bool,
    resume: Option<Resume>,
    now: i64,
) -> Accounts {
    if register_user_refusal(accounts, authority) is Some {
        accounts
    } else {
        let blank = InitializeView { user: UserView::blank(), authority };
        with_user(accounts, blank.outcome(name, is_client, is_freelancer, resume, now).user)
    }
}

/// The operation `register_user` of a marketplace, on its store.
pub(crate) fn register_user_on(
    store: &mut AccountStore,
    authority: Principal,
    name: String,
    is_client: bool,
    is_freelancer: bool,
    resume: Option<Resume>,
    now: i64,
) -> (r: Result<(), ErrorCode>)
    requires
        sound(old(store)@),
    ensures
        reports(r, register_user_refusal(old(store)@, authority)),
        final(store)@ == register_user_after(
            old(store)@,
            authority,
            name@,
            is_client,
            is_freelancer,
            resume,
            now,
        ),
        sound(final(store)@),
{
    if store.contains_key(&AccountKey::User(authority)) {
        return Err(ErrorCode::AlreadyExists);
    }
    let mut ctx = Initialize { user: User::blank(), authority };
    let r = register_user(&mut ctx, name, is_client, is_freelancer, resume, now);
    put(store, Account::User(ctx.user));
    r
}

/// The records that a change of the user record of `authority` works on.
pub open spec fn update_user_info_records(
    accounts: Accounts,
    authority: Principal,
) -> UpdateUserInfoView {
    UpdateUserInfoView {
        user: user_or_stranger(accounts, authority),
        authority,
    }
}

/// Why a change of the user record of `authority` is refused, if it is.
pub open spec fn update_user_info_refusal(
    accounts: Accounts,
    authority: Principal,
) -> Option<ErrorCode> {
    update_user_info_records(accounts, authority).rejection()
}

/// The records after a change of the user record of `authority`: as before
/// where it is refused, and otherwise with the user record changed.
pub open spec fn update_user_info_after(
    accounts: Accounts,
    authority: Principal,
    new_name: Option<Seq<char>>,
    new_is_client: Option<bool>,
    new_is_freelancer: Option<bool>,
) -> Accounts {
    if update_user_info_refusal(accounts, authority) is Some {
        accounts
    } else {
        let after = update_user_info_records(
            accounts,
            authority,
        ).outcome(new_name, new_is_client, new_is_freelancer);
        with_user(accounts, after.user)
    }
}

/// The operation `update_user_info` of a marketplace, on its store.
pub(crate) fn update_user_info_on(
    store: &mut AccountStore,
    authority: Principal,
    new_name: Option<String>,
    new_is_client: Option<bool>,
    new_is_freelancer: Option<bool>,
) -> (r: Result<(), ErrorCode>)
    requires
        sound(old(store)@),
    ensures
        reports(r, update_user_info_refusal(old(store)@, authority)),
        final(store)@ == update_user_info_after(
            old(store)@,
            authority,
            text_of(new_name),
            new_is_client,
            new_is_freelancer,
        ),
        sound(final(store)@),
{
    let ghost before = store@;
    let (user, had_user) = take_user(store, &authority);
    let mut ctx = UpdateUserInfo { user, authority };
    let r = update_user_info(&mut ctx, new_name, new_is_client, new_is_freelancer);
    if had_user {
        put(store, Account::User(ctx.user));
    }
    assert(store@ =~= update_user_info_after(
        before,
        authority,
        text_of(new_name),
        new_is_client,
        new_is_freelancer,
    ));
    r
}

/// The records that a new resume of `authority` works on.
pub open spec fn update_resume_records(
    accounts: Accounts,
    authority: Principal,
) -> UpdateResumeCtxView {
    UpdateResumeCtxView {
        user: user_or_stranger(accounts, authority),
        authority,
    }
}

/// Why a new resume of `authority` is refused, if it is.
pub open spec fn update_resume_refusal(
    accounts: Accounts,
    authority: Principal,
    new_resume: Resume,
) -> Option<ErrorCode> {
    update_resume_records(accounts, authority).rejection(new_resume)
}

/// The records after a new resume of `authority` at time `now`: as before
/// where it is refused, and otherwise with the resume stored on the user
/// record.
pub open spec fn update_resume_after(
    accounts: Accounts,
    authority: Principal,
    new_resume: Resume,
    now: i64,
) -> Accounts {
    if update_resume_refusal(accounts, authority, new_resume) is Some {
        accounts
    } else {
        let after = update_resume_records(accounts, authority).outcome(new_resume, now);
        with_user(accounts, after.user)
    }
}

/// The operation `update_resume` of a marketplace, on its store.
pub(crate) fn update_resume_on(
    store: &mut AccountStore,
    authority: Principal,
    new_resume: Resume,
    now: i64,
) -> (r: Result<(), ErrorCode>)
    requires
        sound(old(store)@),
    ensures
        reports(r, update_resume_refusal(old(store)@, authority, new_resume)),
        final(store)@ == update_resume_after(old(store)@, authority, new_resume, now),
        sound(final(store)@),
{
    let ghost before = store@;
    let (user, had_user) = take_user(store, &authority);
    let mut ctx = UpdateResumeCtx { user, authority };
    let r = update_resume(&mut ctx, new_resume, now);
    if had_user {
        put(store, Account::User(ctx.user));
    }
    assert(store@ =~= update_resume_after(before, authority, new_resume, now));
    r
}

/// Why funding the wallet of `owner` with `amount` is refused, if it is: the
/// wallet cannot hold as much.
pub open spec fn fund_wallet_refusal(accounts: Accounts, owner: Principal, amount: u64) -> Option<
    ErrorCode,
> {
    if wallet_at(accounts, owner).balance + amount > u64::MAX {
        Some(ErrorCode::ArithmeticOverflow)
    } else {
        None
    }
}

/// The records after `amount` has come into the wallet of `owner` from
/// outside the marketplace: as before where it is refused.
pub open spec fn fund_wallet_after(accounts: Accounts, owner: Principal, amount: u64) -> Accounts {
    if fund_wallet_refusal(accounts, owner, amount) is Some {
        accounts
    } else {
        with_wallet(accounts, wallet_at(accounts, owner).credited(amount))
    }
}

/// The operation `fund_wallet` of a marketplace, on its store.
pub(crate) fn fund_wallet_on(store: &mut AccountStore, owner: Principal, amount: u64) -> (r: Result<
    (),
    ErrorCode,
>)
    requires
        sound(old(store)@),
    ensures
        reports(r, fund_wallet_refusal(old(store)@, owner, amount)),
        final(store)@ == fund_wallet_after(old(store)@, owner, amount),
        sound(final(store)@),
{
    let ghost before = store@;
    let (mut wallet, had_wallet) = take_wallet(store, &owner);
    if amount > u64::MAX - wallet.balance {
        if had_wallet {
            put(store, Account::Wallet(wallet));
        }
        assert(store@ =~= before);
        return Err(ErrorCode::ArithmeticOverflow);
    }
    wallet.balance = wallet.balance + amount;
    put(store, Account::Wallet(wallet));
    assert(store@ =~= fund_wallet_after(before, owner, amount));
    Ok(())
}

/// Why setting up the job counter is refused, if it is: it is set up
/// already.
pub open spec fn initialize_job_counter_refusal(accounts: Accounts) -> Option<ErrorCode> {
    if counter_at(accounts) is Some {
        Some(ErrorCode::AlreadyExists)
    } else {
        None
    }
}

/// The records after setting up the job counter: as before where it is
/// refused, and otherwise with the counter at zero.
pub open spec fn initialize_job_counter_after(accounts: Accounts) -> Accounts {
    if initialize_job_counter_refusal(accounts) is Some {
        accounts
    } else {
        with_counter(accounts, JobCounter { count: 0 })
    }
}

/// The operation `initialize_job_counter` of a marketplace, on its store.
pub(crate) fn initialize_job_counter_on(
    store: &mut AccountStore,
    authority: Principal,
) -> (r: Result<
    (),
    ErrorCode,
>)
    requires
        sound(old(store)@),
    ensures
        reports(r, initialize_job_counter_refusal(old(store)@)),
        final(store)@ == initialize_job_counter_after(old(store)@),
        sound(final(store)@),
{
    if store.contains_key(&AccountKey::JobCounter) {
        return Err(ErrorCode::AlreadyExists);
    }
    let mut ctx = InitializeJobCounter { job_counter: JobCounter { count: 0 }, authority };
    let r = initialize_job_counter(&mut ctx);
    put(store, Account::JobCounter(ctx.job_counter));
    r
}

} // verus!
