//! The accounts: one client's account, which applies records to its balance,
//! and the book that owns one account for every client seen.

use crate::model::{
    lemma_held_bounded, lemma_held_differs_at, lemma_held_none, AccountState, ID_COUNT,
};
use crate::money::Money;
use crate::snapshot::{csv_text, record_fields, render_csv, AccountSnapshot};
use crate::transaction::{Transaction, TransactionHistoryRecord, TransactionType};
use std::collections::{HashMap, HashSet};
use vstd::prelude::*;
use vstd::std_specs::hash::{spec_hash_keys_iter, spec_hash_map_iter};
use vstd::std_specs::iter::IteratorSpec;

verus! {

broadcast use vstd::std_specs::hash::group_hash_axioms;

/// Largest magnitude, in ten-thousandths, of the amount of one record: what
/// fits in 63 bits. However many of the ids are disputed deposits, their sum
/// then stays below 95 bits.
pub const AMOUNT_LIMIT: i128 = 9_223_372_036_854_775_807;

/// Largest magnitude, in ten-thousandths, of an account's total: two to the
/// power 94. The total less the held funds, less one more amount, then still
/// fits the 96 bits of a decimal.
pub const BALANCE_LIMIT: i128 = 19_807_040_628_566_084_398_385_987_584;

/// The state of one client's account.
///
/// `held()` is the sum of the disputed deposits, `available()` the total less
/// the held funds.
#[derive(Debug)]
pub struct ClientAccount {
    id: u16,
    total: Money,
    locked: bool,
    transaction_history: HashMap<u32, TransactionHistoryRecord>,
    disputed: HashSet<u32>,
}

impl View for ClientAccount {
    type V = AccountState;

    closed spec fn view(&self) -> AccountState {
        AccountState {
            id: self.id,
            total: self.total@,
            locked: self.locked,
            history: self.transaction_history@,
            disputed: self.disputed@,
        }
    }
}

/// Whether a state stays within what an account can hold: a total within
/// `BALANCE_LIMIT` and entries within `AMOUNT_LIMIT`.
pub open spec fn within_limits(s: AccountState) -> bool {
    &&& -BALANCE_LIMIT <= s.total <= BALANCE_LIMIT
    &&& forall|tx: u32| #[trigger]
        s.history.contains_key(tx) ==> -AMOUNT_LIMIT <= s.history[tx].amount@ <= AMOUNT_LIMIT
}

/// Within the limits, the held funds below any id count stay small enough to
/// be taken from the total.
pub proof fn lemma_held_in_range(s: AccountState, n: nat)
    requires
        within_limits(s),
        n <= ID_COUNT,
    ensures
        -(ID_COUNT * AMOUNT_LIMIT) <= s.held_below(n) <= ID_COUNT * AMOUNT_LIMIT,
{
    lemma_held_bounded(s, AMOUNT_LIMIT as int, n);
    assert(n * AMOUNT_LIMIT <= ID_COUNT * AMOUNT_LIMIT) by (nonlinear_arith)
        requires
            n <= ID_COUNT,
    ;
}

impl ClientAccount {
    /// What every account keeps: the state is well formed and within the
    /// limits.
    pub open spec fn inv(&self) -> bool {
        self@.wf() && within_limits(self@)
    }

    /// The account of a client that has not been seen before.
    pub fn new(id: u16) -> (r: ClientAccount)
        ensures
            r@ == AccountState::new(id),
            r.inv(),
    {
        ClientAccount {
            id,
            disputed: HashSet::new(),
            total: Money::zero(),
            locked: false,
            transaction_history: HashMap::new(),
        }
    }

    /// The client of the account.
    pub fn id(&self) -> (r: u16)
        ensures
            r == self@.id,
    {
        self.id
    }

    /// All funds of the account, held ones included.
    pub fn total(&self) -> (r: Money)
        ensures
            r@ == self@.total,
    {
        self.total
    }

    /// Whether a chargeback has locked the account.
    pub fn locked(&self) -> (r: bool)
        ensures
            r == self@.locked,
    {
        self.locked
    }

    /// Whether the id `tx` is under dispute.
    pub fn is_disputed(&self, tx: u32) -> (r: bool)
        ensures
            r == self@.disputed.contains(tx),
    {
        self.disputed.contains(&tx)
    }

    /// The number of ids under dispute.
    pub fn disputed_len(&self) -> (r: usize)
        ensures
            r == self@.disputed.len(),
    {
        self.disputed.len()
    }

    /// The number of entries of the history.
    pub fn history_len(&self) -> (r: usize)
        ensures
            r == self@.history.len(),
    {
        self.transaction_history.len()
    }

    /// What the history holds under the id `tx`.
    pub fn history_entry(&self, tx: u32) -> (r: Option<&TransactionHistoryRecord>)
        ensures
            match r {
                Some(entry) => self@.history.contains_key(tx) && *entry == self@.history[tx],
                None => !self@.history.contains_key(tx),
            },
    {
        self.transaction_history.get(&tx)
    }

    /// The held funds: the sum of the disputed deposits. Disputed withdrawals
    /// hold nothing back.
    pub fn held(&self) -> (r: Money)
        requires
            self.inv(),
        ensures
            r@ == self@.held(),
    {
        let mut held: Money = Money::zero();
        let ghost keys: Seq<&u32> = spec_hash_keys_iter(&self.disputed).remaining();
        let ghost mut done: Seq<u32> = Seq::empty();
        let ghost mut seen: AccountState = AccountState { disputed: Set::empty(), ..self@ };
        proof {
            assert(done.to_set() =~= Set::empty());
            lemma_held_none(seen, ID_COUNT as nat);
        }
        for txid in it: self.disputed.iter()
            invariant
                self.inv(),
                it.seq() == keys,
                keys.no_duplicates(),
                keys.unref().to_set() == self.disputed@,
                done.len() == it.index(),
                forall|i: int| 0 <= i < done.len() ==> done[i] == *it.seq()[i],
                seen == (AccountState { disputed: done.to_set(), ..self@ }),
                held@ == seen.held(),
        {
            let ghost before = seen;
            proof {
                done.lemma_push_to_set_commute(*txid);
                done = done.push(*txid);
                seen = AccountState { disputed: done.to_set(), ..self@ };
                assert(!before.disputed.contains(*txid));
                assert(seen.disputed =~= before.disputed.insert(*txid));
                lemma_held_differs_at(before, seen, *txid, ID_COUNT as nat);
                lemma_held_in_range(seen, ID_COUNT as nat);
            }
            match self.transaction_history.get(txid) {
                Some(hist) => {
                    match hist.typ {
                        TransactionType::Deposit => {
                            held = held.plus(hist.amount);
                        },
                        _ => {},
                    }
                },
                None => {},
            }
        }
        proof {
            assert(done =~= keys.unref());
            assert(seen == self@);
        }
        held
    }

    /// The funds that can be withdrawn: the total less the held funds, and
    /// nothing where that is negative.
    pub fn available(&self) -> (r: Money)
        requires
            self.inv(),
        ensures
            r@ == self@.available(),
    {
        proof {
            lemma_held_in_range(self@, ID_COUNT as nat);
        }
        let res: Money = self.total.minus(self.held());
        res.max(Money::zero())
    }

    /// The balances and the lock of the account as they stand.
    pub fn snapshot(&self) -> (r: AccountSnapshot)
        requires
            self.inv(),
        ensures
            r.shows(self@),
    {
        AccountSnapshot {
            id: self.id,
            available: self.available(),
            held: self.held(),
            total: self.total,
            locked: self.locked,
        }
    }

    /// The fields of the account's record: id, available, held, total and
    /// locked. The history and the disputes are not written out.
    pub fn serialize(&self) -> (r: Vec<String>)
        requires
            self.inv(),
        ensures
            r.deep_view() == record_fields(self@),
    {
        let snapshot: AccountSnapshot = self.snapshot();
        assert(snapshot.spec_fields() =~= record_fields(self@));
        snapshot.fields()
    }

    /// Whether the state after `tx` is one that an account can hold. Records
    /// that change nothing always are.
    pub open spec fn admits(&self, tx: Transaction) -> bool {
        within_limits(self@.apply(tx))
    }

    /// Applies one record, unless the state after it would leave the limits:
    /// then the account stays as it is and `false` comes back.
    fn apply_within_limits(&mut self, tx: Transaction) -> (done: bool)
        requires
            old(self).inv(),
        ensures
            final(self).inv(),
            done == old(self).admits(tx),
            final(self)@ == if done {
                old(self)@.apply(tx)
            } else {
                old(self)@
            },
    {
        proof {
            lemma_held_in_range(self@, ID_COUNT as nat);
        }
        match tx.typ {
            TransactionType::Deposit => {
                match tx.amount {
                    Some(amount) => {
                        if self.transaction_history.contains_key(&tx.tx) {
                            return true;
                        }
                        if !within(amount, AMOUNT_LIMIT) {
                            proof {
                                let after = self@.apply(tx);
                                assert(after.history.contains_key(tx.tx));
                                assert(after.history[tx.tx].amount == amount);
                            }
                            return false;
                        }
                        let total: Money = self.total.plus(amount);
                        if !within(total, BALANCE_LIMIT) {
                            return false;
                        }
                        self.total = total;
                        self.transaction_history.insert(
                            tx.tx,
                            TransactionHistoryRecord { typ: TransactionType::Deposit, amount },
                        );
                        true
                    },
                    None => true,
                }
            },
            TransactionType::Withdrawal => {
                match tx.amount {
                    Some(amount) => {
                        if self.transaction_history.contains_key(&tx.tx) {
                            return true;
                        }
                        if !within(amount, AMOUNT_LIMIT) {
                            proof {
                                let after = self@.apply(tx);
                                assert(after.history.contains_key(tx.tx));
                                assert(after.history[tx.tx].amount == amount);
                            }
                            return false;
                        }
                        let left: Money = self.available().minus(amount);
                        if left.units() >= 0 {
                            let total: Money = self.total.minus(amount);
                            if !within(total, BALANCE_LIMIT) {
                                return false;
                            }
                            self.total = total;
                            self.transaction_history.insert(
                                tx.tx,
                                TransactionHistoryRecord {
                                    typ: TransactionType::Withdrawal,
                                    amount,
                                },
                            );
                        } else {
                            self.transaction_history.insert(
                                tx.tx,
                                TransactionHistoryRecord {
                                    typ: TransactionType::FailedWithdrawal,
                                    amount,
                                },
                            );
                        }
                        true
                    },
                    None => true,
                }
            },
            TransactionType::Dispute => {
                if self.transaction_history.contains_key(&tx.tx) {
                    self.disputed.insert(tx.tx);
                }
                true
            },
            TransactionType::Resolve => {
                self.disputed.remove(&tx.tx);
                true
            },
            TransactionType::Chargeback => {
                if !self.disputed.contains(&tx.tx) {
                    return true;
                }
                let total: Money = match self.transaction_history.get(&tx.tx) {
                    Some(history) => {
                        match history.typ {
                            TransactionType::Deposit => self.total.minus(history.amount),
                            TransactionType::Withdrawal => self.total.plus(history.amount),
                            _ => self.total,
                        }
                    },
                    None => {
                        return true;
                    },
                };
                if !within(total, BALANCE_LIMIT) {
                    return false;
                }
                self.disputed.remove(&tx.tx);
                self.locked = true;
                self.total = total;
                true
            },
            _ => true,
        }
    }

    /// Applies one record to the account.
    pub fn update(&mut self, tx: Transaction)
        requires
            old(self).inv(),
            old(self).admits(tx),
        ensures
            final(self).inv(),
            final(self)@ == old(self)@.apply(tx),
    {
        let _ = self.apply_within_limits(tx);
    }

    /// Applies one record to the account, or reports that the state after it
    /// would leave the limits and changes nothing.
    pub fn try_update(&mut self, tx: Transaction) -> (r: Result<(), OutOfRange>)
        requires
            old(self).inv(),
        ensures
            final(self).inv(),
            r is Ok <==> old(self).admits(tx),
            final(self)@ == if r is Ok {
                old(self)@.apply(tx)
            } else {
                old(self)@
            },
    {
        if self.apply_within_limits(tx) {
            Ok(())
        } else {
            Err(OutOfRange)
        }
    }
}

/// Whether an amount is at most `limit` in magnitude.
fn within(amount: Money, limit: i128) -> (r: bool)
    requires
        0 <= limit,
    ensures
        r == (-limit <= amount@ <= limit),
{
    -limit <= amount.units() && amount.units() <= limit
}

/// The amount of a record, or the total after it, is more than an account can
/// hold.
#[derive(Debug, Clone, Copy, PartialEq, Eq)]
pub struct OutOfRange;

/// The account that a book holds for a client: the one it has, or a new one.
pub open spec fn account_of(book: Map<u16, AccountState>, client: u16) -> AccountState {
    if book.contains_key(client) {
        book[client]
    } else {
        AccountState::new(client)
    }
}

/// Whether `rows` lists the accounts of `book`: one snapshot for each client,
/// none twice, each showing the state of its client's account.
pub open spec fn lists(rows: Seq<AccountSnapshot>, book: Map<u16, AccountState>) -> bool {
    &&& rows.len() == book.dom().len()
    &&& forall|i: int|
        0 <= i < rows.len() ==> book.contains_key(#[trigger] rows[i].id) && rows[i].shows(
            book[rows[i].id],
        )
    &&& forall|i: int, j: int|
        0 <= i < j < rows.len() ==> #[trigger] rows[i].id != #[trigger] rows[j].id
}

/// The accounts of all clients seen so far, one for each.
#[derive(Debug)]
pub struct ClientAccounts {
    map: HashMap<u16, ClientAccount>,
}

impl View for ClientAccounts {
    type V = Map<u16, AccountState>;

    closed spec fn view(&self) -> Map<u16, AccountState> {
        Map::new(|client: u16| self.map@.contains_key(client), |client: u16| self.map@[client]@)
    }
}

impl ClientAccounts {
    /// What every book keeps: it holds finitely many accounts, each under the
    /// id of its client, well formed and within the limits.
    pub open spec fn inv(&self) -> bool {
        &&& self@.dom().finite()
        &&& forall|client: u16| #[trigger]
            self@.contains_key(client) ==> {
                &&& self@[client].id == client
                &&& self@[client].wf()
                &&& within_limits(self@[client])
            }
    }

    /// A book without accounts.
    pub fn new() -> (r: ClientAccounts)
        ensures
            r@ == Map::<u16, AccountState>::empty(),
            r.inv(),
    {
        let r = ClientAccounts { map: HashMap::new() };
        assert(r@ =~= Map::<u16, AccountState>::empty());
        r
    }

    /// The number of accounts.
    pub fn len(&self) -> (r: usize)
        ensures
            r == self@.dom().len(),
    {
        assert(self@.dom() =~= self.map@.dom());
        self.map.len()
    }

    /// The account of a client, if the book has one.
    pub fn get(&self, client: u16) -> (r: Option<&ClientAccount>)
        requires
            self.inv(),
        ensures
            match r {
                Some(acct) => self@.contains_key(client) && acct@ == self@[client] && acct.inv(),
                None => !self@.contains_key(client),
            },
    {
        self.map.get(&client)
    }

    /// Whether the account of the record's client can hold the state after
    /// the record.
    pub open spec fn admits(&self, tx: Transaction) -> bool {
        within_limits(account_of(self@, tx.client).apply(tx))
    }

    /// Applies one record to the account of its client, which is made new if
    /// the client has none yet. Where the account cannot hold the state after
    /// the record, the book stays as it is and the error says so.
    pub fn update(&mut self, tx: Transaction) -> (r: Result<(), OutOfRange>)
        requires
            old(self).inv(),
        ensures
            final(self).inv(),
            r is Ok <==> old(self).admits(tx),
            final(self)@ == if r is Ok {
                old(self)@.insert(tx.client, account_of(old(self)@, tx.client).apply(tx))
            } else {
                old(self)@
            },
    {
        let client: u16 = tx.client;
        let ghost before = self@;
        let (mut acct, known): (ClientAccount, bool) = match self.map.remove(&client) {
            Some(acct) => (acct, true),
            None => (ClientAccount::new(client), false),
        };
        assert(acct@ == account_of(before, client));
        let r = acct.try_update(tx);
        if r.is_ok() || known {
            self.map.insert(client, acct);
        }
        proof {
            if r is Ok {
                assert(self@ =~= before.insert(client, account_of(before, client).apply(tx)));
            } else {
                assert(self@ =~= before);
            }
        }
        r
    }

    /// The snapshot of every account of the book, one for each client, in an
    /// order that is the book's to choose.
    pub fn export(&self) -> (rows: Vec<AccountSnapshot>)
        requires
            self.inv(),
        ensures
            lists(rows@, self@),
    {
        let mut rows: Vec<AccountSnapshot> = Vec::new();
        let ghost pairs: Seq<(&u16, &ClientAccount)> = spec_hash_map_iter(&self.map).remaining();
        for (client, acct) in it: self.map.iter()
            invariant
                self.inv(),
                it.seq() == pairs,
                pairs.no_duplicates(),
                pairs.len() == self.map@.dom().len(),
                forall|i: int|
                    0 <= i < pairs.len() ==> self.map@.contains_key(*(#[trigger] pairs[i]).0)
                        && self.map@[*pairs[i].0] == *pairs[i].1,
                rows.len() == it.index(),
                forall|i: int|
                    0 <= i < rows.len() ==> (#[trigger] rows[i]).id == *pairs[i].0 && rows[i].shows(
                        self@[*pairs[i].0],
                    ),
        {
            proof {
                let k = rows.len() as int;
                assert(pairs[k] == (client, acct));
                assert(self.map@.contains_key(*pairs[k].0));
                assert(self@.contains_key(*client) && self@[*client] == acct@);
            }
            rows.push(acct.snapshot());
        }
        proof {
            assert(self@.dom() =~= self.map@.dom());
            assert forall|i: int, j: int| 0 <= i < j < rows.len() implies #[trigger] rows[i].id
                != #[trigger] rows[j].id by {
                if rows[i].id == rows[j].id {
                    assert(pairs[i] == pairs[j]);
                }
            }
        }
        rows
    }

    /// The book as delimited text: the record of the field names, then the
    /// record of every account, in the order of `export`. `None` where `csv`
    /// gives no text for one of the records.
    pub fn write_csv(&self) -> (r: Option<String>)
        requires
            self.inv(),
        ensures
            exists|rows: Seq<AccountSnapshot>|
                lists(rows, self@) && match r {
                    Some(text) => #[trigger] csv_text(rows) == Some(text@),
                    None => csv_text(rows) is None,
                },
    {
        let rows: Vec<AccountSnapshot> = self.export();
        render_csv(&rows)
    }
}

} // verus!
