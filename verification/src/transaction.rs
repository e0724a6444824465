//! The records that the engine takes in and the entries it keeps of them.

use crate::money::{units_of_text, Money};
use vstd::prelude::*;

verus! {

/// Whether two texts are the same.
fn same_text(a: &str, b: &str) -> (r: bool)
    ensures
        r == (a@ == b@),
{
    a.to_owned() == b.to_owned()
}

/// What a record asks for.
///
/// `FailedWithdrawal` never comes in from outside: it marks, in an account's
/// history, a withdrawal that was turned down. A label that is none of the five
/// known ones is kept as `Unknown`, and such a record changes nothing.
#[derive(Debug, Eq, PartialEq)]
pub enum TransactionType {
    Deposit,
    Withdrawal,
    Dispute,
    Resolve,
    Chargeback,
    FailedWithdrawal,
    Unknown(String),
}

impl TransactionType {
    /// Whether `label` is one of the five labels that name a known type.
    pub open spec fn is_known_label(label: Seq<char>) -> bool {
        ||| label == "deposit"@
        ||| label == "withdrawal"@
        ||| label == "dispute"@
        ||| label == "resolve"@
        ||| label == "chargeback"@
    }

    /// Whether this is the type that `label` names. The labels are matched
    /// letter for letter, in lower case; any other text names the `Unknown` that
    /// carries it.
    pub open spec fn is_named(self, label: Seq<char>) -> bool {
        match self {
            TransactionType::Deposit => label == "deposit"@,
            TransactionType::Withdrawal => label == "withdrawal"@,
            TransactionType::Dispute => label == "dispute"@,
            TransactionType::Resolve => label == "resolve"@,
            TransactionType::Chargeback => label == "chargeback"@,
            TransactionType::FailedWithdrawal => false,
            TransactionType::Unknown(text) => text@ == label && !Self::is_known_label(label),
        }
    }

    /// The type that a label names.
    pub fn from_label(label: &str) -> (r: TransactionType)
        ensures
            r.is_named(label@),
    {
        if same_text(label, "deposit") {
            TransactionType::Deposit
        } else if same_text(label, "withdrawal") {
            TransactionType::Withdrawal
        } else if same_text(label, "dispute") {
            TransactionType::Dispute
        } else if same_text(label, "resolve") {
            TransactionType::Resolve
        } else if same_text(label, "chargeback") {
            TransactionType::Chargeback
        } else {
            TransactionType::Unknown(label.to_owned())
        }
    }
}

/// One record of the input: what is asked, for which client, under which
/// transaction id, and for deposits and withdrawals the amount.
#[derive(Debug)]
pub struct Transaction {
    pub typ: TransactionType,
    pub client: u16,
    pub tx: u32,
    pub amount: Option<Money>,
}

impl Transaction {
    /// The record that the fields of one input row stand for: the type that
    /// the label names, the client and the transaction id as given, and the
    /// amount that the text stands for, if there is a text. `None` where there
    /// is a text that is no amount: such a row is no record.
    pub fn from_fields(label: &str, client: u16, tx: u32, amount: Option<&str>) -> (r: Option<
        Transaction,
    >)
        ensures
            match r {
                Some(record) => {
                    &&& record.typ.is_named(label@)
                    &&& record.client == client
                    &&& record.tx == tx
                    &&& match amount {
                        Some(text) => record.amount matches Some(money) && units_of_text(text@)
                            == Some(money@),
                        None => record.amount is None,
                    }
                },
                None => amount matches Some(text) && units_of_text(text@) is None,
            },
    {
        let amount: Option<Money> = match amount {
            Some(text) => {
                match Money::parse(text) {
                    Some(money) => Some(money),
                    None => {
                        return None;
                    },
                }
            },
            None => None,
        };
        Some(Transaction { typ: TransactionType::from_label(label), client, tx, amount })
    }
}

/// What an account keeps of a deposit or withdrawal it has seen.
#[derive(Debug, PartialEq)]
pub struct TransactionHistoryRecord {
    pub typ: TransactionType,
    pub amount: Money,
}

} // verus!
