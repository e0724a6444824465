//! What is written out of an account: its balances and lock, as values and as
//! the fields of a record.

use crate::csv_writer::{csv_line, csv_record};
use crate::decimal::decimal_text;
use crate::model::AccountState;
use crate::money::{Money, SCALE};
use vstd::prelude::*;
use vstd::string::StringExecFns;

verus! {

/// The character of a decimal digit.
pub open spec fn digit(d: int) -> char
    recommends
        0 <= d < 10,
{
    if d == 0 {
        '0'
    } else if d == 1 {
        '1'
    } else if d == 2 {
        '2'
    } else if d == 3 {
        '3'
    } else if d == 4 {
        '4'
    } else if d == 5 {
        '5'
    } else if d == 6 {
        '6'
    } else if d == 7 {
        '7'
    } else if d == 8 {
        '8'
    } else {
        '9'
    }
}

/// A number in decimal digits, without leading zeros.
pub open spec fn digits(n: nat) -> Seq<char>
    decreases n,
{
    if n < 10 {
        seq![digit(n as int)]
    } else {
        digits(n / 10).push(digit((n % 10) as int))
    }
}

/// The text of a truth value.
pub open spec fn bool_text(b: bool) -> Seq<char> {
    if b {
        "true"@
    } else {
        "false"@
    }
}

/// The names of the fields of a record, in their order.
pub open spec fn header_fields() -> Seq<Seq<char>> {
    seq!["id"@, "available"@, "held"@, "total"@, "locked"@]
}

fn digit_text(d: u16) -> (r: &'static str)
    requires
        d < 10,
    ensures
        r@ == seq![digit(d as int)],
{
    proof {
        reveal_strlit("0");
        reveal_strlit("1");
        reveal_strlit("2");
        reveal_strlit("3");
        reveal_strlit("4");
        reveal_strlit("5");
        reveal_strlit("6");
        reveal_strlit("7");
        reveal_strlit("8");
        reveal_strlit("9");
    }
    let r: &'static str = if d == 0 {
        "0"
    } else if d == 1 {
        "1"
    } else if d == 2 {
        "2"
    } else if d == 3 {
        "3"
    } else if d == 4 {
        "4"
    } else if d == 5 {
        "5"
    } else if d == 6 {
        "6"
    } else if d == 7 {
        "7"
    } else if d == 8 {
        "8"
    } else {
        "9"
    };
    assert(r@ =~= seq![digit(d as int)]);
    r
}

/// A client id in decimal digits.
pub fn id_text(id: u16) -> (r: String)
    ensures
        r@ == digits(id as nat),
    decreases id,
{
    if id < 10 {
        digit_text(id).to_owned()
    } else {
        let mut text: String = id_text(id / 10);
        text.append(digit_text(id % 10));
        text
    }
}

/// The fields of the record of an account in the state `s`: the id in
/// digits, the available, held and total funds with four fractional digits,
/// and the lock as `true` or `false`.
pub open spec fn record_fields(s: AccountState) -> Seq<Seq<char>> {
    seq![
        digits(s.id as nat),
        decimal_text(s.available(), SCALE as nat),
        decimal_text(s.held(), SCALE as nat),
        decimal_text(s.total, SCALE as nat),
        bool_text(s.locked),
    ]
}

/// The balances and the lock of one account at one moment.
#[derive(Debug, Clone, Copy, PartialEq, Eq)]
pub struct AccountSnapshot {
    pub id: u16,
    pub available: Money,
    pub held: Money,
    pub total: Money,
    pub locked: bool,
}

impl AccountSnapshot {
    /// Whether this is what a state shows: its client, its available, held and
    /// total funds, and its lock.
    pub open spec fn shows(self, s: AccountState) -> bool {
        &&& self.id == s.id
        &&& self.available@ == s.available()
        &&& self.held@ == s.held()
        &&& self.total@ == s.total
        &&& self.locked == s.locked
    }

    /// The fields of the record, as `record_fields` gives them for a state
    /// that this snapshot shows.
    pub open spec fn spec_fields(self) -> Seq<Seq<char>> {
        seq![
            digits(self.id as nat),
            decimal_text(self.available@, SCALE as nat),
            decimal_text(self.held@, SCALE as nat),
            decimal_text(self.total@, SCALE as nat),
            bool_text(self.locked),
        ]
    }

    /// The fields of the record.
    pub fn fields(&self) -> (r: Vec<String>)
        ensures
            r.deep_view() == self.spec_fields(),
    {
        let mut r: Vec<String> = Vec::new();
        r.push(id_text(self.id));
        r.push(self.available.to_display_string());
        r.push(self.held.to_display_string());
        r.push(self.total.to_display_string());
        r.push(if self.locked { "true".to_owned() } else { "false".to_owned() });
        assert(r.deep_view() =~= self.spec_fields());
        r
    }
}

/// The delimited text of a list of snapshots: the record of the field names,
/// then one record for each snapshot in its order, each as `csv` writes it.
/// `None` where `csv` gives no text for one of the records.
pub open spec fn csv_text(rows: Seq<AccountSnapshot>) -> Option<Seq<char>>
    decreases rows.len(),
{
    if rows.len() == 0 {
        csv_line(header_fields())
    } else {
        match (csv_text(rows.drop_last()), csv_line(rows.last().spec_fields())) {
            (Some(head), Some(line)) => Some(head + line),
            _ => None,
        }
    }
}

/// Where the text of the first `k` snapshots fails, the text of all fails.
proof fn lemma_csv_text_fails(rows: Seq<AccountSnapshot>, k: int)
    requires
        0 <= k <= rows.len(),
        csv_text(rows.take(k)) is None,
    ensures
        csv_text(rows) is None,
    decreases rows.len(),
{
    if k == rows.len() {
        assert(rows.take(k) =~= rows);
    } else {
        assert(rows.drop_last().take(k) =~= rows.take(k));
        lemma_csv_text_fails(rows.drop_last(), k);
    }
}

/// The record of the field names.
fn header() -> (r: Vec<String>)
    ensures
        r.deep_view() == header_fields(),
{
    let mut r: Vec<String> = Vec::new();
    r.push("id".to_owned());
    r.push("available".to_owned());
    r.push("held".to_owned());
    r.push("total".to_owned());
    r.push("locked".to_owned());
    assert(r.deep_view() =~= header_fields());
    r
}

/// The delimited text of a list of snapshots.
pub fn render_csv(rows: &Vec<AccountSnapshot>) -> (r: Option<String>)
    ensures
        match r {
            Some(text) => csv_text(rows@) == Some(text@),
            None => csv_text(rows@) is None,
        },
{
    let mut out: String = match csv_record(&header()) {
        Some(line) => line,
        None => {
            proof {
                assert(rows@.take(0) =~= Seq::empty());
                lemma_csv_text_fails(rows@, 0);
            }
            return None;
        },
    };
    assert(rows@.take(0) =~= Seq::empty());
    for i in 0..rows.len()
        invariant
            csv_text(rows@.take(i as int)) == Some(out@),
    {
        assert(rows@.take(i + 1).drop_last() =~= rows@.take(i as int));
        match csv_record(&rows[i].fields()) {
            Some(line) => {
                out.append(line.as_str());
            },
            None => {
                proof {
                    lemma_csv_text_fails(rows@, i + 1);
                }
                return None;
            },
        }
    }
    assert(rows@.take(rows.len() as int) =~= rows@);
    Some(out)
}

} // verus!
