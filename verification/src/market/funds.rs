//! All the funds of a marketplace, and the proof that no operation makes or
//! loses any.

use crate::escrow::{EscrowView, Wallet};
use crate::keys::AccountKey;
use crate::laws::{assigning_is_a_step, paying_out_is_a_step, settling_is_a_step};
use crate::market::accounts::{
    escrow_or_new, sound, wallet_at, with_counter, with_escrow, with_job, with_user, with_wallet,
    Accounts,
};
use crate::market::dispute_ops::{
    finalize_dispute_records, finalize_dispute_refusal, raise_dispute_records,
    vote_dispute_records,
};
use crate::market::job_ops::{
    accept_work_records, assign_job_records, assign_job_refusal, create_job_records,
    request_revision_records, submit_proposal_records, submit_work_records,
    withdraw_from_escrow_records, withdraw_from_escrow_refusal,
};
use crate::market::user_ops::{update_resume_records, update_user_info_records};
use crate::users::text_of;
use crate::contexts::InitializeView;
use crate::market::operation::Operation;
use crate::principal::Principal;
use crate::state::{JobCounter, JobView, UserView};
use crate::store::AccountView;
use vstd::prelude::*;
use vstd::set::fold::{is_fun_commutative, lemma_fold_empty, lemma_fold_insert};

verus! {

/// The funds a record holds: the balance of a wallet or of an escrow, and
/// nothing for any other record.
pub open spec fn funds_of(record: AccountView) -> nat {
    match record {
        AccountView::Wallet(wallet) => wallet.balance as nat,
        AccountView::Escrow(escrow) => escrow.balance as nat,
        _ => 0,
    }
}

/// Adds the funds of one entry to a sum.
pub open spec fn add_funds() -> spec_fn(nat, (AccountKey, AccountView)) -> nat {
    |sum: nat, entry: (AccountKey, AccountView)| sum + funds_of(entry.1)
}

/// All the funds in the marketplace: what all wallets and all escrows hold
/// together.
pub open spec fn total_funds(accounts: Accounts) -> nat {
    accounts.kv_pairs().fold(0nat, add_funds())
}

proof fn lemma_entries_finite(accounts: Accounts)
    requires
        accounts.dom().finite(),
    ensures
        accounts.kv_pairs().finite(),
{
    let entry = |key: AccountKey| (key, accounts[key]);
    accounts.dom().lemma_map_finite(entry);
    assert(accounts.kv_pairs() =~= accounts.dom().map(entry)) by {
        assert forall|kv: (AccountKey, AccountView)|
            accounts.kv_pairs().contains(kv) == accounts.dom().map(entry).contains(kv) by {
            if accounts.kv_pairs().contains(kv) {
                assert(accounts.dom().contains(kv.0) && entry(kv.0) == kv);
            }
        }
    }
}

/// No funds where there are no records.
pub proof fn no_records_hold_no_funds()
    ensures
        total_funds(Accounts::empty()) == 0,
{
    assert(Accounts::empty().kv_pairs() =~= Set::<(AccountKey, AccountView)>::empty());
    assert(is_fun_commutative(add_funds()));
    lemma_fold_empty(0nat, add_funds());
}

/// A record stored under a new key adds its funds to the total.
pub proof fn a_new_record_adds_its_funds(accounts: Accounts, key: AccountKey, record: AccountView)
    requires
        accounts.dom().finite(),
        !accounts.contains_key(key),
    ensures
        total_funds(accounts.insert(key, record)) == total_funds(accounts) + funds_of(record),
{
    lemma_entries_finite(accounts);
    assert(accounts.insert(key, record).kv_pairs() =~= accounts.kv_pairs().insert((key, record)));
    assert(is_fun_commutative(add_funds()));
    lemma_fold_insert(accounts.kv_pairs(), 0nat, add_funds(), (key, record));
}

/// A record taken out takes its funds out of the total.
pub proof fn a_record_taken_out_takes_its_funds(accounts: Accounts, key: AccountKey)
    requires
        accounts.dom().finite(),
        accounts.contains_key(key),
    ensures
        total_funds(accounts) == total_funds(accounts.remove(key)) + funds_of(accounts[key]),
{
    let rest = accounts.remove(key);
    assert(rest.insert(key, accounts[key]) =~= accounts);
    a_new_record_adds_its_funds(rest, key, accounts[key]);
}

/// A record stored under a key replaces the funds that were held under that
/// key by its own.
pub proof fn a_record_replaces_the_funds_under_its_key(accounts: Accounts, key: AccountKey, record: AccountView)
    requires
        accounts.dom().finite(),
    ensures
        total_funds(accounts.insert(key, record)) + (if accounts.contains_key(key) {
            funds_of(accounts[key])
        } else {
            0
        }) == total_funds(accounts) + funds_of(record),
        accounts.insert(key, record).dom().finite(),
{
    if accounts.contains_key(key) {
        let rest = accounts.remove(key);
        a_record_taken_out_takes_its_funds(accounts, key);
        assert(rest.insert(key, record) =~= accounts.insert(key, record));
        a_new_record_adds_its_funds(rest, key, record);
    } else {
        a_new_record_adds_its_funds(accounts, key, record);
    }
}

/// Finitely many records, each under the key it belongs under.
pub open spec fn keyed(accounts: Accounts) -> bool {
    &&& accounts.dom().finite()
    &&& forall|key: AccountKey| #[trigger]
        accounts.contains_key(key) ==> accounts[key].key() == key
}

proof fn lemma_with_user(accounts: Accounts, user: UserView)
    requires
        keyed(accounts),
    ensures
        keyed(with_user(accounts, user)),
        total_funds(with_user(accounts, user)) == total_funds(accounts),
{
    a_record_replaces_the_funds_under_its_key(
        accounts,
        AccountKey::User(user.authority),
        AccountView::User(user),
    );
}

proof fn lemma_with_job(accounts: Accounts, job: JobView)
    requires
        keyed(accounts),
    ensures
        keyed(with_job(accounts, job)),
        total_funds(with_job(accounts, job)) == total_funds(accounts),
{
    a_record_replaces_the_funds_under_its_key(accounts, AccountKey::Job(job.job_id), AccountView::Job(job));
}

proof fn lemma_with_counter(accounts: Accounts, counter: JobCounter)
    requires
        keyed(accounts),
    ensures
        keyed(with_counter(accounts, counter)),
        total_funds(with_counter(accounts, counter)) == total_funds(accounts),
{
    a_record_replaces_the_funds_under_its_key(accounts, AccountKey::JobCounter, AccountView::JobCounter(counter));
}

proof fn lemma_with_wallet(accounts: Accounts, wallet: Wallet)
    requires
        keyed(accounts),
    ensures
        keyed(with_wallet(accounts, wallet)),
        total_funds(with_wallet(accounts, wallet)) + wallet_at(accounts, wallet.owner).balance
            == total_funds(accounts) + wallet.balance,
{
    a_record_replaces_the_funds_under_its_key(accounts, AccountKey::Wallet(wallet.owner), AccountView::Wallet(wallet));
}

proof fn lemma_with_escrow(accounts: Accounts, escrow: EscrowView, address: Principal)
    requires
        keyed(accounts),
    ensures
        keyed(with_escrow(accounts, escrow)),
        total_funds(with_escrow(accounts, escrow)) + escrow_or_new(
            accounts,
            escrow.job_id,
            address,
        ).balance == total_funds(accounts) + escrow.balance,
{
    a_record_replaces_the_funds_under_its_key(accounts, AccountKey::Escrow(escrow.job_id), AccountView::Escrow(escrow));
}

proof fn lemma_without_job(accounts: Accounts, job_id: u64)
    requires
        keyed(accounts),
    ensures
        total_funds(accounts.remove(AccountKey::Job(job_id))) == total_funds(accounts),
{
    if accounts.contains_key(AccountKey::Job(job_id)) {
        a_record_taken_out_takes_its_funds(accounts, AccountKey::Job(job_id));
    } else {
        assert(accounts.remove(AccountKey::Job(job_id)) =~= accounts);
    }
}

proof fn assign_job_keeps_the_funds(
    accounts: Accounts,
    client: Principal,
    job_id: u64,
    freelancer: Principal,
    bid_amount: u64,
    escrow_address: Principal,
    now: i64,
)
    requires
        sound(accounts),
    ensures
        total_funds(
            (Operation::AssignJob { client, job_id, freelancer, bid_amount, escrow_address }).after(
                accounts,
                now,
            ),
        ) == total_funds(accounts),
{
    if assign_job_refusal(accounts, client, job_id, freelancer, bid_amount, escrow_address)
        is None {
        let ctx = assign_job_records(accounts, client, job_id, freelancer, escrow_address);
        assigning_is_a_step(ctx, job_id, freelancer, bid_amount, now);
        let after = ctx.outcome(freelancer, bid_amount, now);
        let with_the_job = with_job(accounts, after.job);
        lemma_with_job(accounts, after.job);
        let with_the_client = with_user(with_the_job, after.client_user);
        lemma_with_user(with_the_job, after.client_user);
        let with_both = with_user(with_the_client, after.freelancer_user);
        lemma_with_user(with_the_client, after.freelancer_user);
        let with_the_wallet = with_wallet(with_both, after.client);
        lemma_with_wallet(with_both, after.client);
        lemma_with_escrow(with_the_wallet, after.escrow, escrow_address);
        assert(wallet_at(with_both, client) == wallet_at(accounts, client));
        assert(escrow_or_new(with_the_wallet, job_id, escrow_address) == escrow_or_new(
            accounts,
            job_id,
            escrow_address,
        ));
    }
}

proof fn withdraw_from_escrow_keeps_the_funds(
    accounts: Accounts,
    freelancer: Principal,
    job_id: u64,
    client_rating: u8,
    now: i64,
)
    requires
        sound(accounts),
    ensures
        total_funds(
            (Operation::WithdrawFromEscrow { freelancer, job_id, client_rating }).after(
                accounts,
                now,
            ),
        ) == total_funds(accounts),
{
    if withdraw_from_escrow_refusal(accounts, freelancer, job_id, client_rating) is None {
        let ctx = withdraw_from_escrow_records(accounts, freelancer, job_id);
        paying_out_is_a_step(ctx, job_id, client_rating, now);
        let after = ctx.outcome(client_rating, now);
        let with_the_job = with_job(accounts, after.job);
        lemma_with_job(accounts, after.job);
        let with_the_freelancer = with_user(with_the_job, after.freelancer_user);
        lemma_with_user(with_the_job, after.freelancer_user);
        let with_both = with_user(with_the_freelancer, after.client_user);
        lemma_with_user(with_the_freelancer, after.client_user);
        let with_the_escrow = with_escrow(with_both, after.escrow);
        lemma_with_escrow(with_both, after.escrow, Principal::nobody());
        lemma_with_wallet(with_the_escrow, after.freelancer);
        assert(escrow_or_new(with_both, job_id, Principal::nobody()) == escrow_or_new(
            accounts,
            job_id,
            Principal::nobody(),
        ));
        assert(wallet_at(with_the_escrow, freelancer) == wallet_at(accounts, freelancer));
    }
}

proof fn finalize_dispute_keeps_the_funds(accounts: Accounts, job_id: u64, now: i64)
    requires
        sound(accounts),
    ensures
        total_funds((Operation::FinalizeDispute { job_id }).after(accounts, now)) == total_funds(
            accounts,
        ),
{
    if finalize_dispute_refusal(accounts, job_id, now) is None {
        let ctx = finalize_dispute_records(accounts, job_id);
        assert(accounts.contains_key(AccountKey::Job(job_id)));
        settling_is_a_step(ctx, job_id, now);
        let after = ctx.outcome(now);
        let raiser = ctx.raiser.owner;
        let against = ctx.against.owner;
        let with_the_job = with_job(accounts, after.job);
        lemma_with_job(accounts, after.job);
        let with_the_raiser = with_user(with_the_job, after.raiser_user);
        lemma_with_user(with_the_job, after.raiser_user);
        let with_both = with_user(with_the_raiser, after.against_user);
        lemma_with_user(with_the_raiser, after.against_user);
        let with_the_escrow = with_escrow(with_both, after.escrow);
        lemma_with_escrow(with_both, after.escrow, Principal::nobody());
        let with_one_wallet = with_wallet(with_the_escrow, after.raiser);
        lemma_with_wallet(with_the_escrow, after.raiser);
        lemma_with_wallet(with_one_wallet, after.against);
        assert(escrow_or_new(with_both, job_id, Principal::nobody()) == escrow_or_new(
            accounts,
            job_id,
            Principal::nobody(),
        ));
        assert(wallet_at(with_the_escrow, raiser) == wallet_at(accounts, raiser));
        assert(raiser != against) by {
            against.other_than_is_another();
        }
        assert(wallet_at(with_one_wallet, against) == wallet_at(accounts, against));
        assert(ctx.against == wallet_at(accounts, against));
    }
}

proof fn others_keep_the_funds(operation: Operation, accounts: Accounts, now: i64)
    requires
        sound(accounts),
        operation.refusal(accounts, now) is None,
        !(operation is AssignJob),
        !(operation is WithdrawFromEscrow),
        !(operation is FinalizeDispute),
    ensures
        total_funds(operation.after(accounts, now)) == total_funds(accounts) + (match operation {
            Operation::FundWallet { amount, .. } => amount as nat,
            _ => 0,
        }),
{
    match operation {
        Operation::RegisterUser { authority, name, is_client, is_freelancer, resume } => {
            let blank = InitializeView { user: UserView::blank(), authority };
            lemma_with_user(
                accounts,
                blank.outcome(name@, is_client, is_freelancer, resume, now).user,
            );
        },
        Operation::UpdateUserInfo { authority, new_name, new_is_client, new_is_freelancer } => {
            let after = update_user_info_records(accounts, authority).outcome(
                text_of(new_name),
                new_is_client,
                new_is_freelancer,
            );
            lemma_with_user(accounts, after.user);
        },
        Operation::UpdateResume { authority, new_resume } => {
            let after = update_resume_records(accounts, authority).outcome(new_resume, now);
            lemma_with_user(accounts, after.user);
        },
        Operation::InitializeJobCounter { .. } => {
            lemma_with_counter(accounts, JobCounter { count: 0 });
        },
        Operation::CreateJob {
            authority,
            title,
            description,
            budget,
            deadline,
            skills,
            category,
        } => {
            let after = create_job_records(accounts, authority)->Ok_0.outcome(
                title@,
                description@,
                budget,
                deadline,
                skills@,
                category@,
                now,
            );
            lemma_with_job(accounts, after.job);
            lemma_with_counter(with_job(accounts, after.job), after.job_counter);
            lemma_with_user(
                with_counter(with_job(accounts, after.job), after.job_counter),
                after.user,
            );
        },
        Operation::SubmitProposal { freelancer, job_id, proposed_amount } => {
            let after = submit_proposal_records(accounts, freelancer, job_id).outcome(
                proposed_amount,
                now,
            );
            lemma_with_job(accounts, after.job);
            lemma_with_user(with_job(accounts, after.job), after.user);
        },
        Operation::SubmitWork { freelancer, job_id, work_url, work_description } => {
            let after = submit_work_records(accounts, freelancer, job_id).outcome(
                work_url@,
                work_description@,
                now,
            );
            lemma_with_job(accounts, after.job);
        },
        Operation::RequestRevision { client, job_id, revision_description } => {
            let after = request_revision_records(accounts, client, job_id).outcome(
                revision_description@,
                now,
            );
            lemma_with_job(accounts, after.job);
        },
        Operation::AcceptWork { client, job_id, freelancer_rating } => {
            let after = accept_work_records(accounts, client, job_id).outcome(
                freelancer_rating,
                now,
            );
            lemma_with_job(accounts, after.job);
            lemma_with_user(with_job(accounts, after.job), after.client_user);
            lemma_with_user(
                with_user(with_job(accounts, after.job), after.client_user),
                after.freelancer_user,
            );
        },
        Operation::DeleteJob { job_id, .. } => {
            lemma_without_job(accounts, job_id);
        },
        Operation::RaiseDispute { raiser, job_id, reason } => {
            let after = raise_dispute_records(accounts, raiser, job_id).outcome(reason@, now);
            lemma_with_job(accounts, after.job);
            lemma_with_user(with_job(accounts, after.job), after.raiser_user);
        },
        Operation::VoteDispute { voter, job_id, support } => {
            let after = vote_dispute_records(accounts, voter, job_id).outcome(support);
            lemma_with_job(accounts, after.job);
        },
        Operation::FundWallet { owner, amount } => {
            lemma_with_wallet(accounts, wallet_at(accounts, owner).credited(amount));
        },
        _ => {},
    }
}

/// Funds are neither made nor lost: whatever operation is made, all the
/// wallets and all the escrows together hold afterwards what they held
/// before, but for what comes in from outside when a wallet is funded.
pub proof fn funds_are_conserved(operation: Operation, accounts: Accounts, now: i64)
    requires
        sound(accounts),
    ensures
        total_funds(operation.after(accounts, now)) == total_funds(accounts) + (match operation {
            Operation::FundWallet { amount, .. } => if operation.refusal(accounts, now) is None {
                amount as nat
            } else {
                0
            },
            _ => 0,
        }),
{
    if operation.refusal(accounts, now) is None {
        match operation {
            Operation::AssignJob {
                client,
                job_id,
                freelancer,
                bid_amount,
                escrow_address,
            } => assign_job_keeps_the_funds(
                accounts,
                client,
                job_id,
                freelancer,
                bid_amount,
                escrow_address,
                now,
            ),
            Operation::WithdrawFromEscrow {
                freelancer,
                job_id,
                client_rating,
            } => withdraw_from_escrow_keeps_the_funds(
                accounts,
                freelancer,
                job_id,
                client_rating,
                now,
            ),
            Operation::FinalizeDispute { job_id } => finalize_dispute_keeps_the_funds(
                accounts,
                job_id,
                now,
            ),
            _ => others_keep_the_funds(operation, accounts, now),
        }
    }
}

} // verus!
