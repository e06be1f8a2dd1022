//! The keys under which records are stored.

use crate::principal::Principal;
use vstd::prelude::*;
use vstd::std_specs::cmp::PartialEqSpecImpl;

verus! {

/// The key a record is stored under. It is made of the kind of the record and
/// of the identifier that never changes over the record's life: the owning
/// principal for a user and for a wallet, the job number for a job and for
/// its escrow. There is one job counter.
#[derive(Clone, Copy, Debug, Eq)]
pub enum AccountKey {
    User(Principal),
    Job(u64),
    Escrow(u64),
    Wallet(Principal),
    JobCounter,
}

impl PartialEq for AccountKey {
    fn eq(&self, other: &Self) -> (r: bool) {
        match (self, other) {
            (AccountKey::User(a), AccountKey::User(b)) => *a == *b,
            (AccountKey::Job(a), AccountKey::Job(b)) => *a == *b,
            (AccountKey::Escrow(a), AccountKey::Escrow(b)) => *a == *b,
            (AccountKey::Wallet(a), AccountKey::Wallet(b)) => *a == *b,
            (AccountKey::JobCounter, AccountKey::JobCounter) => true,
            _ => false,
        }
    }
}

impl PartialEqSpecImpl for AccountKey {
    open spec fn obeys_eq_spec() -> bool {
        true
    }

    open spec fn eq_spec(&self, other: &Self) -> bool {
        *self == *other
    }
}

} // verus!
