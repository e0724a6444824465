//! What holds of every account, whatever records it is given.
//!
//! Each statement is about [`AccountState::apply`], the transition that the
//! executable account is proved to follow, and about [`run`], its repetition
//! over a sequence of records.

use crate::model::{lemma_held_differs_at, lemma_held_none, run, AccountState, ID_COUNT};
use crate::transaction::{Transaction, TransactionHistoryRecord, TransactionType};
use vstd::prelude::*;

verus! {

/// Whether a record is a deposit or a withdrawal.
pub open spec fn moves_funds(tx: Transaction) -> bool {
    tx.typ is Deposit || tx.typ is Withdrawal
}

/// What a record adds to the total of the state it meets: a deposit its
/// amount, a withdrawal that the available funds cover the negative of its
/// amount, anything else nothing.
pub open spec fn credit(before: AccountState, tx: Transaction) -> int {
    match (tx.typ, tx.amount) {
        (TransactionType::Deposit, Some(amount)) => amount@,
        (TransactionType::Withdrawal, Some(amount)) => if before.available() - amount@ >= 0 {
            -amount@
        } else {
            0
        },
        _ => 0,
    }
}

/// The sum of what each record of a sequence adds to the total of the state
/// it meets, starting from `s`: the deposits less the accepted withdrawals.
pub open spec fn sum_applied(s: AccountState, txs: Seq<Transaction>) -> int
    decreases txs.len(),
{
    if txs.len() == 0 {
        0
    } else {
        sum_applied(s, txs.drop_last()) + credit(run(s, txs.drop_last()), txs.last())
    }
}

/// A well-formed state stays well formed: after any record, only ids of the
/// history are disputed and the history holds only deposits, withdrawals and
/// failed withdrawals.
pub proof fn law_stays_well_formed(s: AccountState, tx: Transaction)
    requires
        s.wf(),
    ensures
        s.apply(tx).wf(),
{
}

/// A well-formed state stays well formed over any sequence of records.
pub proof fn law_run_stays_well_formed(s: AccountState, txs: Seq<Transaction>)
    requires
        s.wf(),
    ensures
        run(s, txs).wf(),
    decreases txs.len(),
{
    if txs.len() > 0 {
        law_run_stays_well_formed(s, txs.drop_last());
        law_stays_well_formed(run(s, txs.drop_last()), txs.last());
    }
}

/// An entry of the history is never removed and never changed, the client of
/// the account never changes, and a locked account stays locked.
pub proof fn law_history_is_kept(s: AccountState, txs: Seq<Transaction>, tx: u32)
    ensures
        run(s, txs).id == s.id,
        s.locked ==> run(s, txs).locked,
        s.history.contains_key(tx) ==> run(s, txs).history.contains_key(tx) && run(
            s,
            txs,
        ).history[tx] == s.history[tx],
    decreases txs.len(),
{
    if txs.len() > 0 {
        law_history_is_kept(s, txs.drop_last(), tx);
    }
}

/// Over deposits and withdrawals under ids that are all different, the total
/// of a new account is exactly the sum of the deposits less the accepted
/// withdrawals, however long the sequence is.
pub proof fn law_total_is_exact_sum(id: u16, txs: Seq<Transaction>)
    requires
        forall|i: int| 0 <= i < txs.len() ==> moves_funds(#[trigger] txs[i]),
        forall|i: int, j: int| 0 <= i < j < txs.len() ==> txs[i].tx != txs[j].tx,
    ensures
        run(AccountState::new(id), txs).total == sum_applied(AccountState::new(id), txs),
{
    lemma_total_is_exact_sum(id, txs);
}

/// The induction behind `law_total_is_exact_sum`: it also tracks that the
/// history holds no id that the sequence has not brought.
proof fn lemma_total_is_exact_sum(id: u16, txs: Seq<Transaction>)
    requires
        forall|i: int| 0 <= i < txs.len() ==> moves_funds(#[trigger] txs[i]),
        forall|i: int, j: int| 0 <= i < j < txs.len() ==> txs[i].tx != txs[j].tx,
    ensures
        run(AccountState::new(id), txs).total == sum_applied(AccountState::new(id), txs),
        forall|tx: u32| #[trigger]
            run(AccountState::new(id), txs).history.contains_key(tx) ==> exists|i: int|
                0 <= i < txs.len() && #[trigger] txs[i].tx == tx,
    decreases txs.len(),
{
    if txs.len() > 0 {
        let init = txs.drop_last();
        let last = txs.last();
        assert forall|i: int| 0 <= i < init.len() implies moves_funds(#[trigger] init[i]) by {
            assert(init[i] == txs[i]);
        }
        lemma_total_is_exact_sum(id, init);
        let before = run(AccountState::new(id), init);
        if before.history.contains_key(last.tx) {
            let i = choose|i: int| 0 <= i < init.len() && #[trigger] init[i].tx == last.tx;
            assert(txs[i].tx == txs[txs.len() - 1].tx);
        }
        let after = before.apply(last);
        assert forall|tx: u32| #[trigger] after.history.contains_key(tx) implies exists|i: int|
            0 <= i < txs.len() && #[trigger] txs[i].tx == tx by {
            if before.history.contains_key(tx) {
                let i = choose|i: int| 0 <= i < init.len() && #[trigger] init[i].tx == tx;
                assert(txs[i].tx == tx);
            } else {
                assert(txs[txs.len() - 1].tx == tx);
            }
        }
    }
}

/// A deposit or a withdrawal under an id that the history already holds
/// changes nothing.
pub proof fn law_known_id_is_dropped(s: AccountState, tx: Transaction)
    requires
        moves_funds(tx),
        s.history.contains_key(tx.tx),
    ensures
        s.apply(tx) == s,
{
}

/// Once a deposit or a withdrawal with an amount has been applied, a later
/// deposit or withdrawal under the same id changes nothing, whatever came in
/// between.
pub proof fn law_second_occurrence_is_dropped(
    s: AccountState,
    first: Transaction,
    between: Seq<Transaction>,
    second: Transaction,
)
    requires
        moves_funds(first),
        first.amount is Some,
        moves_funds(second),
        second.tx == first.tx,
    ensures
        run(s.apply(first), between).apply(second) == run(s.apply(first), between),
{
    law_history_is_kept(s.apply(first), between, first.tx);
}

/// A withdrawal of more than the available funds, under a new id, is turned
/// down: the funds and the disputes stay as they are and the history gains a
/// failed withdrawal under that id. The entry stays for good, so a later
/// withdrawal under the same id changes nothing.
pub proof fn law_overdraft_is_recorded_as_failed(
    s: AccountState,
    tx: Transaction,
    later: Seq<Transaction>,
    retry: Transaction,
)
    requires
        tx.typ is Withdrawal,
        tx.amount is Some,
        tx.amount->0@ > s.available(),
        !s.history.contains_key(tx.tx),
        retry.typ is Withdrawal,
        retry.tx == tx.tx,
    ensures
        s.apply(tx) == (AccountState {
            history: s.history.insert(
                tx.tx,
                TransactionHistoryRecord {
                    typ: TransactionType::FailedWithdrawal,
                    amount: tx.amount->0,
                },
            ),
            ..s
        }),
        run(s.apply(tx), later).history.contains_key(tx.tx),
        run(s.apply(tx), later).history[tx.tx].typ is FailedWithdrawal,
        run(s.apply(tx), later).apply(retry) == run(s.apply(tx), later),
{
    law_history_is_kept(s.apply(tx), later, tx.tx);
}

/// Where no disputed id is a deposit, no funds are held.
pub proof fn law_only_deposits_are_held(s: AccountState)
    requires
        forall|tx: u32|
            s.disputed.contains(tx) && #[trigger] s.history.contains_key(tx)
                ==> !(s.history[tx].typ is Deposit),
    ensures
        s.held() == 0,
{
    let none = AccountState { disputed: Set::empty(), ..s };
    lemma_held_none(none, ID_COUNT as nat);
    lemma_held_differs_at(none, s, 0, ID_COUNT as nat);
}

/// A dispute on an entry that is no deposit changes neither the held nor the
/// available funds, nor the total.
pub proof fn law_disputed_withdrawal_holds_nothing(s: AccountState, tx: Transaction)
    requires
        tx.typ is Dispute,
        s.history.contains_key(tx.tx),
        !(s.history[tx.tx].typ is Deposit),
    ensures
        s.apply(tx).disputed.contains(tx.tx),
        s.apply(tx).held() == s.held(),
        s.apply(tx).available() == s.available(),
        s.apply(tx).total == s.total,
{
    lemma_held_differs_at(s, s.apply(tx), tx.tx, ID_COUNT as nat);
}

/// A dispute on a deposit that is not disputed yet holds its amount back: the
/// held funds grow by it and the total stays.
pub proof fn law_disputed_deposit_is_held(s: AccountState, tx: Transaction)
    requires
        tx.typ is Dispute,
        s.history.contains_key(tx.tx),
        s.history[tx.tx].typ is Deposit,
        !s.disputed.contains(tx.tx),
    ensures
        s.apply(tx).held() == s.held() + s.history[tx.tx].amount@,
        s.apply(tx).total == s.total,
{
    lemma_held_differs_at(s, s.apply(tx), tx.tx, ID_COUNT as nat);
}

/// A chargeback on an id that is not disputed changes nothing.
pub proof fn law_chargeback_needs_dispute(s: AccountState, tx: Transaction)
    requires
        tx.typ is Chargeback,
        !s.disputed.contains(tx.tx),
    ensures
        s.apply(tx) == s,
{
}

/// A chargeback on a disputed id locks the account and ends the dispute, and
/// the account stays locked whatever comes later.
pub proof fn law_chargeback_locks_for_good(
    s: AccountState,
    tx: Transaction,
    later: Seq<Transaction>,
)
    requires
        s.wf(),
        tx.typ is Chargeback,
        s.disputed.contains(tx.tx),
    ensures
        s.apply(tx).locked,
        !s.apply(tx).disputed.contains(tx.tx),
        s.apply(tx).total == s.total + s.reversal(tx.tx),
        run(s.apply(tx), later).locked,
{
    law_history_is_kept(s.apply(tx), later, tx.tx);
}

/// A dispute, a resolve or a chargeback that names an id unknown to the
/// history changes nothing.
pub proof fn law_unknown_id_changes_nothing(s: AccountState, tx: Transaction)
    requires
        s.wf(),
        tx.typ is Dispute || tx.typ is Resolve || tx.typ is Chargeback,
        !s.history.contains_key(tx.tx),
    ensures
        s.apply(tx) == s,
{
    assert(s.disputed.remove(tx.tx) =~= s.disputed);
}

/// A record of a type that is not known changes nothing.
pub proof fn law_unknown_type_changes_nothing(s: AccountState, tx: Transaction)
    requires
        tx.typ is Unknown || tx.typ is FailedWithdrawal,
    ensures
        s.apply(tx) == s,
{
}

} // verus!
