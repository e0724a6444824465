//! The account as a mathematical state, and the one transition on it.
//!
//! Nothing here is compiled: amounts are unbounded integers, the history is a
//! map and the disputes are a set. The executable account of
//! [`crate::client_accounts`] is proved to follow this model step by step.

use crate::transaction::{Transaction, TransactionHistoryRecord, TransactionType};
use vstd::prelude::*;

verus! {

/// Number of transaction ids: an id is an unsigned 32-bit number.
pub const ID_COUNT: u64 = 0x1_0000_0000;

/// The state of one client's account.
pub struct AccountState {
    /// The client.
    pub id: u16,
    /// All funds of the account, in ten-thousandths, held ones included.
    pub total: int,
    /// Whether a chargeback has locked the account.
    pub locked: bool,
    /// What was kept of each deposit and withdrawal, by transaction id.
    pub history: Map<u32, TransactionHistoryRecord>,
    /// The ids that are under dispute.
    pub disputed: Set<u32>,
}

impl AccountState {
    /// The account of a client that has not been seen before.
    pub open spec fn new(id: u16) -> AccountState {
        AccountState { id, total: 0, locked: false, history: Map::empty(), disputed: Set::empty() }
    }

    /// What the state never loses: only ids of the history are disputed, and
    /// the history holds nothing but deposits, withdrawals and failed
    /// withdrawals.
    pub open spec fn wf(self) -> bool {
        &&& self.disputed.subset_of(self.history.dom())
        &&& forall|tx: u32| #[trigger]
            self.history.contains_key(tx) ==> {
                ||| self.history[tx].typ is Deposit
                ||| self.history[tx].typ is Withdrawal
                ||| self.history[tx].typ is FailedWithdrawal
            }
    }

    /// The funds that the id `tx` holds back: the amount of its entry if it is
    /// a disputed deposit, nothing otherwise.
    pub open spec fn held_by(self, tx: u32) -> int {
        if self.disputed.contains(tx) && self.history.contains_key(tx)
            && self.history[tx].typ is Deposit {
            self.history[tx].amount@
        } else {
            0
        }
    }

    /// The funds held back by the ids below `n`.
    pub open spec fn held_below(self, n: nat) -> int
        decreases n,
    {
        if n == 0 {
            0
        } else {
            self.held_below((n - 1) as nat) + self.held_by((n - 1) as u32)
        }
    }

    /// The held funds: the sum of the disputed deposits.
    pub open spec fn held(self) -> int {
        self.held_below(ID_COUNT as nat)
    }

    /// The funds that can be withdrawn: the total less the held funds, and
    /// nothing where that is negative.
    pub open spec fn available(self) -> int {
        if self.total - self.held() > 0 {
            self.total - self.held()
        } else {
            0
        }
    }

    /// The state with an entry added to the history and the total changed by
    /// `change`.
    pub open spec fn record(self, tx: u32, entry: TransactionHistoryRecord, change: int)
        -> AccountState {
        AccountState {
            total: self.total + change,
            history: self.history.insert(tx, entry),
            ..self
        }
    }

    /// The state after one record.
    ///
    /// A deposit or a withdrawal under an id that the history already holds,
    /// or without an amount, changes nothing. A withdrawal that the available
    /// funds do not cover is kept as a failed withdrawal and leaves the total.
    /// A dispute marks an id of the history. A resolve takes the mark away. A
    /// chargeback on a marked id takes the mark away, locks the account and
    /// undoes the entry: a deposit leaves the total, a withdrawal comes back
    /// to it, a failed withdrawal changes no funds. Every other record changes
    /// nothing.
    pub open spec fn apply(self, tx: Transaction) -> AccountState {
        match (tx.typ, tx.amount) {
            (TransactionType::Deposit, Some(amount)) if !self.history.contains_key(tx.tx) => {
                self.record(
                    tx.tx,
                    TransactionHistoryRecord { typ: TransactionType::Deposit, amount },
                    amount@,
                )
            },
            (TransactionType::Withdrawal, Some(amount)) if !self.history.contains_key(tx.tx) => {
                if self.available() - amount@ >= 0 {
                    self.record(
                        tx.tx,
                        TransactionHistoryRecord { typ: TransactionType::Withdrawal, amount },
                        -amount@,
                    )
                } else {
                    self.record(
                        tx.tx,
                        TransactionHistoryRecord { typ: TransactionType::FailedWithdrawal, amount },
                        0,
                    )
                }
            },
            (TransactionType::Dispute, _) if self.history.contains_key(tx.tx) => {
                AccountState { disputed: self.disputed.insert(tx.tx), ..self }
            },
            (TransactionType::Resolve, _) => {
                AccountState { disputed: self.disputed.remove(tx.tx), ..self }
            },
            (TransactionType::Chargeback, _) if self.disputed.contains(tx.tx)
                && self.history.contains_key(tx.tx) => {
                AccountState {
                    total: self.total + self.reversal(tx.tx),
                    locked: true,
                    disputed: self.disputed.remove(tx.tx),
                    ..self
                }
            },
            _ => self,
        }
    }

    /// What a chargeback on the id `tx` adds to the total.
    pub open spec fn reversal(self, tx: u32) -> int {
        match self.history[tx].typ {
            TransactionType::Deposit => -self.history[tx].amount@,
            TransactionType::Withdrawal => self.history[tx].amount@,
            _ => 0,
        }
    }
}

/// The state after a sequence of records, applied in order.
pub open spec fn run(s: AccountState, txs: Seq<Transaction>) -> AccountState
    decreases txs.len(),
{
    if txs.len() == 0 {
        s
    } else {
        run(s, txs.drop_last()).apply(txs.last())
    }
}

/// Two states that hold back the same funds under every id but `tx` differ in
/// their held funds below `n` by what they hold back under `tx`.
pub proof fn lemma_held_differs_at(s: AccountState, t: AccountState, tx: u32, n: nat)
    requires
        forall|other: u32| other != tx ==> s.held_by(other) == t.held_by(other),
        n <= ID_COUNT,
    ensures
        t.held_below(n) == s.held_below(n) + if tx < n {
            t.held_by(tx) - s.held_by(tx)
        } else {
            0
        },
    decreases n,
{
    if n > 0 {
        lemma_held_differs_at(s, t, tx, (n - 1) as nat);
    }
}

/// Where no id holds back more than `limit`, in either direction, the ids
/// below `n` together hold back at most `n` times as much.
pub proof fn lemma_held_bounded(s: AccountState, limit: int, n: nat)
    requires
        forall|tx: u32| -limit <= #[trigger] s.held_by(tx) <= limit,
    ensures
        -(n * limit) <= s.held_below(n) <= n * limit,
    decreases n,
{
    if n > 0 {
        lemma_held_bounded(s, limit, (n - 1) as nat);
        assert(n * limit == (n - 1) * limit + limit) by (nonlinear_arith);
    }
}

/// Where no id of `s` is disputed, no funds are held.
pub proof fn lemma_held_none(s: AccountState, n: nat)
    requires
        forall|tx: u32| !s.disputed.contains(tx),
    ensures
        s.held_below(n) == 0,
    decreases n,
{
    if n > 0 {
        lemma_held_none(s, (n - 1) as nat);
    }
}

} // verus!
