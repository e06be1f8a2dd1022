//! The store of records by key.

use crate::error::ErrorCode;
use crate::escrow::{Escrow, EscrowView, Wallet};
use crate::keys::AccountKey;
use crate::state::{Job, JobCounter, JobView, User, UserView};
use vstd::prelude::*;

verus! {

/// A record of any kind.
pub enum Account {
    User(User),
    Job(Job),
    Escrow(Escrow),
    Wallet(Wallet),
    JobCounter(JobCounter),
}

/// What a record of any kind holds.
pub enum AccountView {
    User(UserView),
    Job(JobView),
    Escrow(EscrowView),
    Wallet(Wallet),
    JobCounter(JobCounter),
}

impl View for Account {
    type V = AccountView;

    open spec fn view(&self) -> AccountView {
        match self {
            Account::User(user) => AccountView::User(user@),
            Account::Job(job) => AccountView::Job(job@),
            Account::Escrow(escrow) => AccountView::Escrow(escrow@),
            Account::Wallet(wallet) => AccountView::Wallet(*wallet),
            Account::JobCounter(counter) => AccountView::JobCounter(*counter),
        }
    }
}

impl AccountView {
    /// The key this record belongs under.
    pub open spec fn key(self) -> AccountKey {
        match self {
            AccountView::User(user) => AccountKey::User(user.authority),
            AccountView::Job(job) => AccountKey::Job(job.job_id),
            AccountView::Escrow(escrow) => AccountKey::Escrow(escrow.job_id),
            AccountView::Wallet(wallet) => AccountKey::Wallet(wallet.owner),
            AccountView::JobCounter(_) => AccountKey::JobCounter,
        }
    }
}

impl Account {
    /// The key this record belongs under.
    pub fn key(&self) -> (key: AccountKey)
        ensures
            key == self@.key(),
    {
        match self {
            Account::User(user) => AccountKey::User(user.authority),
            Account::Job(job) => AccountKey::Job(job.job_id),
            Account::Escrow(escrow) => AccountKey::Escrow(escrow.job_id),
            Account::Wallet(wallet) => AccountKey::Wallet(wallet.owner),
            Account::JobCounter(_) => AccountKey::JobCounter,
        }
    }
}

/// No two of `records` belong under the same key.
spec fn distinct_keys(records: Seq<Account>) -> bool {
    forall|i: int, j: int|
        0 <= i < j < records.len() ==> (#[trigger] records[i])@.key() != (#[trigger] records[j])@.key()
}

/// Whether one of `records` belongs under `key`.
spec fn holds_key(records: Seq<Account>, key: AccountKey) -> bool {
    exists|i: int| 0 <= i < records.len() && (#[trigger] records[i])@.key() == key
}

/// The place of a record that belongs under `key`, where there is one.
spec fn place_of(records: Seq<Account>, key: AccountKey) -> int {
    choose|i: int| 0 <= i < records.len() && (#[trigger] records[i])@.key() == key
}

/// The records as a map from each record's key to what the record holds.
spec fn as_map(records: Seq<Account>) -> Map<AccountKey, AccountView> {
    Map::new(
        |key: AccountKey| holds_key(records, key),
        |key: AccountKey| records[place_of(records, key)]@,
    )
}

/// With distinct keys, each record is what the map holds under its key.
proof fn lemma_as_map_at(records: Seq<Account>, i: int)
    requires
        distinct_keys(records),
        0 <= i < records.len(),
    ensures
        as_map(records).contains_key(records[i]@.key()),
        as_map(records)[records[i]@.key()] == records[i]@,
        place_of(records, records[i]@.key()) == i,
{
    let key = records[i]@.key();
    assert(holds_key(records, key));
    let j = place_of(records, key);
    if j < i {
        assert(records[j]@.key() != records[i]@.key());
    } else if i < j {
        assert(records[i]@.key() != records[j]@.key());
    }
}

/// Appending a record under a new key adds exactly that entry to the map.
proof fn lemma_as_map_push(records: Seq<Account>, record: Account)
    requires
        distinct_keys(records),
        !holds_key(records, record@.key()),
    ensures
        distinct_keys(records.push(record)),
        as_map(records.push(record)) == as_map(records).insert(record@.key(), record@),
{
    let after = records.push(record);
    assert forall|i: int, j: int| 0 <= i < j < after.len() implies (#[trigger] after[i])@.key() != (
    #[trigger] after[j])@.key() by {
        if j < records.len() {
            assert(after[i] == records[i] && after[j] == records[j]);
        } else {
            assert(after[i] == records[i]);
            assert(after[j] == record);
        }
    }
    assert forall|key: AccountKey| #[trigger]
        as_map(after).contains_key(key) == as_map(records).insert(
            record@.key(),
            record@,
        ).contains_key(key) by {
        if holds_key(after, key) {
            let i = place_of(after, key);
            if i < records.len() {
                assert(after[i] == records[i]);
                assert(holds_key(records, key));
            }
        }
        if holds_key(records, key) {
            let i = place_of(records, key);
            assert(after[i] == records[i]);
            assert(holds_key(after, key));
        }
        if key == record@.key() {
            assert(after[records.len() as int] == record);
            assert(holds_key(after, key));
        }
    }
    assert forall|key: AccountKey| #[trigger] as_map(after).contains_key(key) implies as_map(
        after,
    )[key] == as_map(records).insert(record@.key(), record@)[key] by {
        let i = place_of(after, key);
        lemma_as_map_at(after, i);
        if i < records.len() {
            assert(after[i] == records[i]);
            lemma_as_map_at(records, i);
        } else {
            assert(after[i] == record);
        }
    }
    assert(as_map(after) =~= as_map(records).insert(record@.key(), record@));
}

/// Taking out the record at place `i` removes exactly its entry from the
/// map.
proof fn lemma_as_map_remove(records: Seq<Account>, i: int)
    requires
        distinct_keys(records),
        0 <= i < records.len(),
    ensures
        distinct_keys(records.remove(i)),
        as_map(records.remove(i)) == as_map(records).remove(records[i]@.key()),
{
    let after = records.remove(i);
    let gone = records[i]@.key();
    assert forall|a: int, b: int| 0 <= a < b < after.len() implies (#[trigger] after[a])@.key() != (
    #[trigger] after[b])@.key() by {
        let a0 = if a < i { a } else { a + 1 };
        let b0 = if b < i { b } else { b + 1 };
        assert(after[a] == records[a0] && after[b] == records[b0]);
        assert(records[a0]@.key() != records[b0]@.key());
    }
    assert forall|key: AccountKey| #[trigger]
        as_map(after).contains_key(key) == as_map(records).remove(gone).contains_key(key) by {
        if holds_key(after, key) {
            let a = place_of(after, key);
            let a0 = if a < i { a } else { a + 1 };
            assert(after[a] == records[a0]);
            assert(holds_key(records, key));
            if a0 < i {
                assert(records[a0]@.key() != records[i]@.key());
            } else {
                assert(records[i]@.key() != records[a0]@.key());
            }
        }
        if holds_key(records, key) && key != gone {
            let a0 = place_of(records, key);
            let a = if a0 < i { a0 } else { a0 - 1 };
            assert(after[a] == records[a0]);
            assert(holds_key(after, key));
        }
    }
    assert forall|key: AccountKey| #[trigger] as_map(after).contains_key(key) implies as_map(
        after,
    )[key] == as_map(records).remove(gone)[key] by {
        let a = place_of(after, key);
        lemma_as_map_at(after, a);
        let a0 = if a < i { a } else { a + 1 };
        assert(after[a] == records[a0]);
        lemma_as_map_at(records, a0);
    }
    assert(as_map(after) =~= as_map(records).remove(gone));
}

/// A store of records of every kind, each under the key made of its kind and
/// its stable identifier. At most one record is stored under a key.
pub struct AccountStore {
    records: Vec<Account>,
}

impl View for AccountStore {
    type V = Map<AccountKey, AccountView>;

    closed spec fn view(&self) -> Map<AccountKey, AccountView> {
        as_map(self.records@)
    }
}

impl AccountStore {
    #[verifier::type_invariant]
    spec fn well_formed(&self) -> bool {
        distinct_keys(self.records@)
    }

    /// A store without records.
    pub fn new() -> (store: AccountStore)
        ensures
            store@ == Map::<AccountKey, AccountView>::empty(),
    {
        let store = AccountStore { records: Vec::new() };
        assert(store@ =~= Map::<AccountKey, AccountView>::empty());
        store
    }

    /// The place of the record under `key`, if there is one.
    fn find(&self, key: &AccountKey) -> (place: Option<usize>)
        ensures
            match place {
                Some(i) => i < self.records@.len() && self.records@[i as int]@.key() == *key,
                None => !holds_key(self.records@, *key),
            },
    {
        let mut i: usize = 0;
        while i < self.records.len()
            invariant
                i <= self.records@.len(),
                forall|k: int| 0 <= k < i ==> (#[trigger] self.records@[k])@.key() != *key,
            decreases self.records@.len() - i,
        {
            if self.records[i].key() == *key {
                return Some(i);
            }
            i += 1;
        }
        None
    }

    /// Whether a record is stored under `key`.
    pub fn contains_key(&self, key: &AccountKey) -> (found: bool)
        ensures
            found == self@.contains_key(*key),
    {
        self.find(key).is_some()
    }

    /// The record stored under `key`.
    pub fn get(&self, key: &AccountKey) -> (r: Result<&Account, ErrorCode>)
        ensures
            match r {
                Ok(record) => self@.contains_key(*key) && record@ == self@[*key] && record@.key()
                    == *key,
                Err(e) => e == ErrorCode::NotFound && !self@.contains_key(*key),
            },
    {
        match self.find(key) {
            Some(i) => {
                proof {
                    use_type_invariant(self);
                    lemma_as_map_at(self.records@, i as int);
                }
                Ok(&self.records[i])
            },
            None => Err(ErrorCode::NotFound),
        }
    }

    /// Stores `record` under the key it belongs under, unless a record is
    /// stored there already.
    pub fn create(&mut self, record: Account) -> (r: Result<(), ErrorCode>)
        ensures
            match r {
                Ok(()) => {
                    &&& !old(self)@.contains_key(record@.key())
                    &&& final(self)@ == old(self)@.insert(record@.key(), record@)
                },
                Err(e) => {
                    &&& e == ErrorCode::AlreadyExists
                    &&& old(self)@.contains_key(record@.key())
                    &&& final(self)@ == old(self)@
                },
            },
    {
        let key = record.key();
        proof {
            use_type_invariant(&*self);
        }
        match self.find(&key) {
            Some(_) => Err(ErrorCode::AlreadyExists),
            None => {
                proof {
                    lemma_as_map_push(self.records@, record);
                }
                let mut records: Vec<Account> = Vec::new();
                core::mem::swap(&mut self.records, &mut records);
                records.push(record);
                core::mem::swap(&mut self.records, &mut records);
                Ok(())
            },
        }
    }

    /// Takes the record stored under `key` out of the store.
    pub fn remove(&mut self, key: &AccountKey) -> (r: Result<Account, ErrorCode>)
        ensures
            match r {
                Ok(record) => {
                    &&& old(self)@.contains_key(*key)
                    &&& record@ == old(self)@[*key]
                    &&& record@.key() == *key
                    &&& final(self)@ == old(self)@.remove(*key)
                },
                Err(e) => {
                    &&& e == ErrorCode::NotFound
                    &&& !old(self)@.contains_key(*key)
                    &&& final(self)@ == old(self)@
                },
            },
    {
        proof {
            use_type_invariant(&*self);
        }
        match self.find(key) {
            Some(i) => {
                proof {
                    lemma_as_map_at(self.records@, i as int);
                    lemma_as_map_remove(self.records@, i as int);
                }
                let mut records: Vec<Account> = Vec::new();
                core::mem::swap(&mut self.records, &mut records);
                let record = records.remove(i);
                core::mem::swap(&mut self.records, &mut records);
                Ok(record)
            },
            None => Err(ErrorCode::NotFound),
        }
    }

    /// Replaces the record stored under `key` by what `change` makes of it.
    /// `change` must leave the record under its key.
    pub fn update<F: FnOnce(Account) -> Account>(&mut self, key: &AccountKey, change: F) -> (r:
        Result<(), ErrorCode>)
        requires
            forall|record: Account|
                old(self)@.contains_key(*key) && record@ == old(self)@[*key] ==> call_requires(
                    change,
                    (record,),
                ),
            forall|record: Account, changed: Account|
                call_ensures(change, (record,), changed) ==> changed@.key() == record@.key(),
        ensures
            match r {
                Ok(()) => {
                    &&& old(self)@.contains_key(*key)
                    &&& exists|record: Account, changed: Account|
                        {
                            &&& record@ == old(self)@[*key]
                            &&& call_ensures(change, (record,), changed)
                            &&& final(self)@ == old(self)@.insert(*key, changed@)
                        }
                },
                Err(e) => {
                    &&& e == ErrorCode::NotFound
                    &&& !old(self)@.contains_key(*key)
                    &&& final(self)@ == old(self)@
                },
            },
    {
        proof {
            use_type_invariant(&*self);
        }
        match self.find(key) {
            Some(i) => {
                proof {
                    lemma_as_map_at(self.records@, i as int);
                    lemma_as_map_remove(self.records@, i as int);
                }
                let mut records: Vec<Account> = Vec::new();
                core::mem::swap(&mut self.records, &mut records);
                let record = records.remove(i);
                let changed = change(record);
                proof {
                    lemma_as_map_push(records@, changed);
                    assert(as_map(records@.push(changed)) =~= old(self)@.insert(*key, changed@));
                }
                records.push(changed);
                core::mem::swap(&mut self.records, &mut records);
                Ok(())
            },
            None => Err(ErrorCode::NotFound),
        }
    }
}

} // verus!
