//! The ledger of a job marketplace: clients post jobs, freelancers bid, the
//! client assigns a bid and its amount goes into escrow, work is handed in,
//! revised and accepted, the freelancer is paid, and disputes are settled by
//! a vote within a fixed window.
//!
//! Every operation is a function from the records it works on to either the
//! records as it leaves them or a named refusal that changes nothing. Each
//! comes in two forms. In `users`, `bidding`, `lifecycle` and `dispute` it
//! works on the records handed to it (the types of `contexts`); in `market`
//! it finds them in a store by key and writes them back. What an operation
//! refuses, and what it makes of the records, is stated once, over what the
//! records hold, and both forms are proved against it.
//!
//! `laws`, `market::laws` and `market::funds` hold what is proved of all
//! operations together: the status of a job only moves forward, a payout
//! happens once, an escrow pays out exactly what was paid in, a freelancer
//! bids once and a voter votes once, jobs do not touch each other, and no
//! operation makes or loses funds.

pub mod bidding;
pub mod contexts;
pub mod dispute;
pub mod error;
pub mod escrow;
pub mod keys;
pub mod laws;
pub mod lifecycle;
pub mod market;
pub mod principal;
pub mod state;
pub mod store;
pub mod users;
