//! Wallets and escrows: funds held for a principal or in custody for one
//! job, and the two moves that pay into and out of an escrow.

use crate::error::ErrorCode;
use crate::principal::Principal;
use crate::state::{Job, JobView};
use vstd::prelude::*;

verus! {

/// The spendable balance of one principal.
#[derive(Clone, Copy, Debug)]
pub struct Wallet {
    pub owner: Principal,
    pub balance: u64,
}

impl Wallet {
    /// A wallet of `owner` that holds `balance`.
    pub fn new(owner: Principal, balance: u64) -> (wallet: Wallet)
        ensures
            wallet == (Wallet { owner, balance }),
    {
        Wallet { owner, balance }
    }

    /// The wallet after `amount` was paid out of it.
    pub open spec fn debited(self, amount: u64) -> Wallet
        recommends
            amount <= self.balance,
    {
        Wallet { balance: (self.balance - amount) as u64, ..self }
    }

    /// The wallet after `amount` was paid into it.
    pub open spec fn credited(self, amount: u64) -> Wallet
        recommends
            self.balance + amount <= u64::MAX,
    {
        Wallet { balance: (self.balance + amount) as u64, ..self }
    }
}

/// Funds held in custody for exactly one job. Besides the balance it keeps,
/// for proofs only, the sum of everything ever paid in and the sum of
/// everything ever paid out.
pub struct Escrow {
    pub address: Principal,
    pub job_id: u64,
    pub balance: u64,
    pub deposited: Ghost<nat>,
    pub withdrawn: Ghost<nat>,
}

/// What an escrow holds and has seen.
pub struct EscrowView {
    pub address: Principal,
    pub job_id: u64,
    pub balance: u64,
    pub deposited: nat,
    pub withdrawn: nat,
}

impl View for Escrow {
    type V = EscrowView;

    open spec fn view(&self) -> EscrowView {
        EscrowView {
            address: self.address,
            job_id: self.job_id,
            balance: self.balance,
            deposited: self.deposited@,
            withdrawn: self.withdrawn@,
        }
    }
}

impl EscrowView {
    /// Nothing leaked: what was paid in is what was paid out plus what is
    /// still held.
    pub open spec fn conserved(self) -> bool {
        self.deposited == self.withdrawn + self.balance
    }

    /// Why a deposit of `amount` from `from` for `job` is refused, if it is:
    /// the escrow belongs to another job, the payer has too little, or the
    /// escrow cannot hold as much. The first failing test decides.
    pub open spec fn deposit_rejection(self, job: JobView, from: Wallet, amount: u64) -> Option<
        ErrorCode,
    > {
        if self.job_id != job.job_id {
            Some(ErrorCode::InvalidBump)
        } else if from.balance < amount {
            Some(ErrorCode::InsufficientFunds)
        } else if self.balance + amount > u64::MAX {
            Some(ErrorCode::ArithmeticOverflow)
        } else {
            None
        }
    }

    /// The escrow after `amount` was paid in.
    pub open spec fn after_deposit(self, amount: u64) -> EscrowView {
        EscrowView {
            balance: (self.balance + amount) as u64,
            deposited: (self.deposited + amount) as nat,
            ..self
        }
    }

    /// Why a withdrawal of `amount` for `job` to `to` is refused, if it is:
    /// the escrow belongs to another job, the job was already paid out, the
    /// escrow holds less than `amount`, or the payee's wallet cannot hold as
    /// much. The first failing test decides.
    pub open spec fn withdraw_rejection(self, job: JobView, to: Wallet, amount: u64) -> Option<
        ErrorCode,
    > {
        if self.job_id != job.job_id {
            Some(ErrorCode::InvalidBump)
        } else if job.total_paid != 0 {
            Some(ErrorCode::AlreadyWithdrawn)
        } else if amount > self.balance {
            Some(ErrorCode::Underfunded)
        } else if to.balance + amount > u64::MAX {
            Some(ErrorCode::ArithmeticOverflow)
        } else {
            None
        }
    }

    /// The escrow after `amount` was paid out.
    pub open spec fn after_withdrawal(self, amount: u64) -> EscrowView {
        EscrowView {
            balance: (self.balance - amount) as u64,
            withdrawn: (self.withdrawn + amount) as nat,
            ..self
        }
    }

    /// A job after the withdrawal of `amount` from this escrow: once nothing
    /// is left, the job is marked as paid in full and its escrow reference is
    /// cleared.
    pub open spec fn job_after_withdrawal(self, job: JobView, amount: u64) -> JobView {
        if self.balance == amount {
            JobView { total_paid: job.budget, escrow: Principal::nobody(), ..job }
        } else {
            job
        }
    }
}

impl Escrow {
    /// An empty escrow for job `job_id`, reachable under `address`.
    pub fn new(address: Principal, job_id: u64) -> (escrow: Escrow)
        ensures
            escrow@ == (EscrowView { address, job_id, balance: 0, deposited: 0, withdrawn: 0 }),
            escrow@.conserved(),
    {
        Escrow { address, job_id, balance: 0, deposited: Ghost(0), withdrawn: Ghost(0) }
    }

    /// An escrow for job `job_id` that is found holding `balance`, all of it
    /// counted as paid in.
    pub fn holding(address: Principal, job_id: u64, balance: u64) -> (escrow: Escrow)
        ensures
            escrow@ == (EscrowView {
                address,
                job_id,
                balance,
                deposited: balance as nat,
                withdrawn: 0,
            }),
            escrow@.conserved(),
    {
        Escrow { address, job_id, balance, deposited: Ghost(balance as nat), withdrawn: Ghost(0) }
    }

    /// What the escrow holds now.
    pub fn balance(&self) -> (held: u64)
        ensures
            held == self@.balance,
    {
        self.balance
    }

    /// Moves `amount` from `from` into the escrow of `job` and records the
    /// escrow on the job.
    pub fn deposit(&mut self, job: &mut Job, from: &mut Wallet, amount: u64) -> (r: Result<
        (),
        ErrorCode,
    >)
        ensures
            match r {
                Ok(()) => {
                    &&& old(self)@.deposit_rejection(old(job)@, *old(from), amount) is None
                    &&& *final(from) == old(from).debited(amount)
                    &&& final(self)@ == old(self)@.after_deposit(amount)
                    &&& final(job)@ == (JobView { escrow: old(self).address, ..old(job)@ })
                },
                Err(e) => {
                    &&& old(self)@.deposit_rejection(old(job)@, *old(from), amount) == Some(e)
                    &&& *final(self) == *old(self)
                    &&& *final(job) == *old(job)
                    &&& *final(from) == *old(from)
                },
            },
            old(self)@.conserved() ==> final(self)@.conserved(),
            final(from).balance + final(self).balance == old(from).balance + old(self).balance,
    {
        if self.job_id != job.job_id {
            return Err(ErrorCode::InvalidBump);
        }
        if from.balance < amount {
            return Err(ErrorCode::InsufficientFunds);
        }
        if amount > u64::MAX - self.balance {
            return Err(ErrorCode::ArithmeticOverflow);
        }
        from.balance = from.balance - amount;
        self.balance = self.balance + amount;
        self.deposited = Ghost((self.deposited@ + amount) as nat);
        job.escrow = self.address;
        Ok(())
    }

    /// Moves `amount` out of the escrow of `job` to `to`. The withdrawal that
    /// empties the escrow marks the job as paid.
    pub fn withdraw(&mut self, job: &mut Job, to: &mut Wallet, amount: u64) -> (r: Result<
        (),
        ErrorCode,
    >)
        ensures
            match r {
                Ok(()) => {
                    &&& old(self)@.withdraw_rejection(old(job)@, *old(to), amount) is None
                    &&& *final(to) == old(to).credited(amount)
                    &&& final(self)@ == old(self)@.after_withdrawal(amount)
                    &&& final(job)@ == old(self)@.job_after_withdrawal(old(job)@, amount)
                },
                Err(e) => {
                    &&& old(self)@.withdraw_rejection(old(job)@, *old(to), amount) == Some(e)
                    &&& *final(self) == *old(self)
                    &&& *final(job) == *old(job)
                    &&& *final(to) == *old(to)
                },
            },
            old(self)@.conserved() ==> final(self)@.conserved(),
            final(to).balance + final(self).balance == old(to).balance + old(self).balance,
    {
        if self.job_id != job.job_id {
            return Err(ErrorCode::InvalidBump);
        }
        if job.total_paid != 0 {
            return Err(ErrorCode::AlreadyWithdrawn);
        }
        if amount > self.balance {
            return Err(ErrorCode::Underfunded);
        }
        if amount > u64::MAX - to.balance {
            return Err(ErrorCode::ArithmeticOverflow);
        }
        self.balance = self.balance - amount;
        to.balance = to.balance + amount;
        self.withdrawn = Ghost((self.withdrawn@ + amount) as nat);
        if self.balance == 0 {
            job.total_paid = job.budget;
            job.escrow = Principal::default();
        }
        Ok(())
    }
}

} // verus!
