//! The life of one vault: a sequence of transactions and what it leads to.
use vstd::prelude::*;
use crate::pubkey::Pubkey;
use crate::vault::{day_of, VaultPolicy};

verus! {

/// What a transaction asks of a vault.
pub ghost enum Request {
    /// To create the vault once more, at an address that is in use.
    Create,
    Fund,
    SetPolicy { max_per_tx: u64, daily_limit: u64, expiry_ts: i64, recipients: Seq<Pubkey> },
    Pay { amount: u64, clock: Option<i64>, recipient: Pubkey },
    Revoke,
    Withdraw,
}

/// A transaction that concerns a vault. It is settled when the accounts fit the
/// instruction and the token program carries out what the instruction asks for; a
/// transaction that is not settled leaves no trace.
pub ghost struct Transaction {
    pub request: Request,
    pub settled: bool,
}

impl Transaction {
    /// The time at which a payment is attempted.
    pub open spec fn time(self) -> Option<i64> {
        match self.request {
            Request::Pay { clock, .. } => clock,
            _ => None,
        }
    }

    /// Whether the transaction puts another policy in force.
    pub open spec fn sets_policy(self) -> bool {
        self.settled && self.request is SetPolicy
    }

    /// What the transaction pays out of the vault `v`.
    pub open spec fn pays(self, v: VaultPolicy) -> nat {
        match self.request {
            Request::Pay { amount, clock, recipient } => if self.settled && v.payment_error(
                amount,
                clock,
                recipient,
            ) is None {
                amount as nat
            } else {
                0
            },
            _ => 0,
        }
    }

    /// What the transaction pays out of the vault `v` on a given day.
    pub open spec fn pays_on(self, v: VaultPolicy, day: int) -> nat {
        match self.time() {
            Some(now) => if day_of(now) == day {
                self.pays(v)
            } else {
                0
            },
            None => 0,
        }
    }

    /// The vault `v` after the transaction.
    pub open spec fn step(self, v: VaultPolicy) -> VaultPolicy {
        if !self.settled {
            v
        } else {
            match self.request {
                Request::Create => v,
                Request::Fund => v,
                Request::SetPolicy { max_per_tx, daily_limit, expiry_ts, recipients } => if
                VaultPolicy::policy_error(max_per_tx, daily_limit, recipients) is None {
                    v.after_policy(max_per_tx, daily_limit, expiry_ts, recipients)
                } else {
                    v
                },
                Request::Pay { amount, clock, recipient } => if v.payment_error(
                    amount,
                    clock,
                    recipient,
                ) is None {
                    v.after_payment(amount, clock->0)
                } else {
                    v
                },
                Request::Revoke => v.after_revocation(),
                Request::Withdraw => v,
            }
        }
    }
}

/// The vault `v` after a sequence of transactions.
pub open spec fn run(v: VaultPolicy, ts: Seq<Transaction>) -> VaultPolicy
    decreases ts.len(),
{
    if ts.len() == 0 {
        v
    } else {
        ts.last().step(run(v, ts.drop_last()))
    }
}

/// All that a sequence of transactions pays out of the vault `v`.
pub open spec fn paid(v: VaultPolicy, ts: Seq<Transaction>) -> nat
    decreases ts.len(),
{
    if ts.len() == 0 {
        0
    } else {
        paid(v, ts.drop_last()) + ts.last().pays(run(v, ts.drop_last()))
    }
}

/// What a sequence of transactions pays out of the vault `v` on a given day.
pub open spec fn paid_on(v: VaultPolicy, ts: Seq<Transaction>, day: int) -> nat
    decreases ts.len(),
{
    if ts.len() == 0 {
        0
    } else {
        paid_on(v, ts.drop_last(), day) + ts.last().pays_on(run(v, ts.drop_last()), day)
    }
}

/// Time never runs backwards from one payment to a later one.
pub open spec fn in_order(ts: Seq<Transaction>) -> bool {
    forall|i: int, j: int|
        #![trigger ts[i], ts[j]]
        0 <= i < j < ts.len() && ts[i].time() is Some && ts[j].time() is Some ==> ts[i].time()->0
            <= ts[j].time()->0
}

/// No transaction puts another policy in force.
pub open spec fn policy_stays(ts: Seq<Transaction>) -> bool {
    forall|i: int| 0 <= i < ts.len() ==> !(#[trigger] ts[i]).sets_policy()
}

/// Every payment whose time is known is attempted on the given day.
pub open spec fn on_one_day(ts: Seq<Transaction>, day: int) -> bool {
    forall|i: int|
        0 <= i < ts.len() ==> ((#[trigger] ts[i]).time() matches Some(now) ==> day_of(now) == day)
}

} // verus!
