use payments_engine::client_accounts::{ClientAccount, ClientAccounts, OutOfRange, AMOUNT_LIMIT};
use payments_engine::money::Money;
use payments_engine::snapshot::{id_text, render_csv, AccountSnapshot};
use payments_engine::transaction::{Transaction, TransactionHistoryRecord, TransactionType};

fn dec(text: &str) -> Money {
    Money::parse(text).unwrap()
}

fn record(typ: TransactionType, client: u16, tx: u32, amount: Option<&str>) -> Transaction {
    Transaction {
        typ,
        client,
        tx,
        amount: amount.map(dec),
    }
}

fn deposit(tx: u32, amount: &str) -> Transaction {
    record(TransactionType::Deposit, 1, tx, Some(amount))
}

fn withdrawal(tx: u32, amount: &str) -> Transaction {
    record(TransactionType::Withdrawal, 1, tx, Some(amount))
}

fn dispute(tx: u32) -> Transaction {
    record(TransactionType::Dispute, 1, tx, None)
}

fn resolve(tx: u32) -> Transaction {
    record(TransactionType::Resolve, 1, tx, None)
}

fn chargeback(tx: u32) -> Transaction {
    record(TransactionType::Chargeback, 1, tx, None)
}

fn balances(acct: &ClientAccount) -> (String, String, String, bool) {
    (
        acct.available().to_display_string(),
        acct.held().to_display_string(),
        acct.total().to_display_string(),
        acct.locked(),
    )
}

fn shown(available: &str, held: &str, total: &str, locked: bool) -> (String, String, String, bool) {
    (
        available.to_string(),
        held.to_string(),
        total.to_string(),
        locked,
    )
}

#[test]
fn deposit_dispute_chargeback_round_trip() {
    let mut acct = ClientAccount::new(1);
    acct.update(deposit(0, "1.1111"));
    acct.update(dispute(0));
    assert_eq!(balances(&acct), shown("0.0000", "1.1111", "1.1111", false));
    acct.update(chargeback(0));
    assert_eq!(balances(&acct), shown("0.0000", "0.0000", "0.0000", true));
    assert!(!acct.is_disputed(0));
    assert_eq!(acct.history_len(), 1);
}

#[test]
fn hundred_thousand_deposits_then_fifty_thousand_withdrawals_export_exactly() {
    let mut accts = ClientAccounts::new();
    for tx in 0..100000u32 {
        accts.update(deposit(tx, "0.1111")).unwrap();
    }
    for tx in 100000..150000u32 {
        accts.update(withdrawal(tx, "0.1111")).unwrap();
    }
    assert_eq!(
        accts.write_csv().unwrap(),
        "id,available,held,total,locked\n1,5555.0000,0.0000,5555.0000,false\n"
    );
    let rows = accts.export();
    assert_eq!(rows.len(), 1);
    assert_eq!(
        rows[0],
        AccountSnapshot {
            id: 1,
            available: dec("5555"),
            held: dec("0"),
            total: dec("5555"),
            locked: false,
        }
    );
}

#[test]
fn total_is_the_sum_of_deposits_less_accepted_withdrawals() {
    let mut acct = ClientAccount::new(1);
    acct.update(deposit(10, "5.0000"));
    acct.update(withdrawal(3, "1.2500"));
    acct.update(withdrawal(7, "10.0000"));
    acct.update(deposit(1, "0.0001"));
    acct.update(withdrawal(2, "3.7501"));
    assert_eq!(acct.total(), dec("0.0000"));
    assert_eq!(acct.history_len(), 5);
    assert_eq!(acct.history_entry(7).unwrap().typ, TransactionType::FailedWithdrawal);
    assert_eq!(acct.history_entry(2).unwrap().typ, TransactionType::Withdrawal);
}

#[test]
fn a_repeated_id_is_dropped_whatever_the_type_or_amount() {
    let mut acct = ClientAccount::new(1);
    acct.update(deposit(5, "2.0000"));
    acct.update(withdrawal(5, "1.0000"));
    acct.update(deposit(5, "9.0000"));
    assert_eq!(acct.total(), dec("2.0000"));
    assert_eq!(acct.history_len(), 1);
    assert_eq!(
        acct.history_entry(5).unwrap(),
        &TransactionHistoryRecord {
            typ: TransactionType::Deposit,
            amount: dec("2.0000"),
        }
    );
}

#[test]
fn a_failed_withdrawal_is_recorded_and_never_retried() {
    let mut acct = ClientAccount::new(1);
    acct.update(deposit(0, "1.0000"));
    acct.update(withdrawal(1, "1.0001"));
    assert_eq!(acct.total(), dec("1.0000"));
    assert_eq!(
        acct.history_entry(1).unwrap(),
        &TransactionHistoryRecord {
            typ: TransactionType::FailedWithdrawal,
            amount: dec("1.0001"),
        }
    );
    acct.update(deposit(2, "5.0000"));
    acct.update(withdrawal(1, "1.0001"));
    assert_eq!(acct.total(), dec("6.0000"));
    assert_eq!(acct.history_entry(1).unwrap().typ, TransactionType::FailedWithdrawal);
    assert_eq!(acct.history_len(), 3);
}

#[test]
fn a_withdrawal_of_all_available_funds_is_accepted() {
    let mut acct = ClientAccount::new(1);
    acct.update(deposit(0, "1.0000"));
    acct.update(withdrawal(1, "1.0000"));
    assert_eq!(acct.total(), dec("0"));
    assert_eq!(acct.history_entry(1).unwrap().typ, TransactionType::Withdrawal);
}

#[test]
fn available_is_never_negative() {
    let mut acct = ClientAccount::new(1);
    acct.update(deposit(0, "1.0000"));
    acct.update(withdrawal(1, "1.0000"));
    acct.update(dispute(0));
    assert_eq!(balances(&acct), shown("0.0000", "1.0000", "0.0000", false));
    acct.update(chargeback(0));
    assert_eq!(balances(&acct), shown("0.0000", "0.0000", "-1.0000", true));
}

#[test]
fn disputing_a_withdrawal_changes_neither_held_nor_available() {
    let mut acct = ClientAccount::new(1);
    acct.update(deposit(0, "3.0000"));
    acct.update(withdrawal(1, "1.0000"));
    let before = balances(&acct);
    acct.update(dispute(1));
    assert!(acct.is_disputed(1));
    assert_eq!(balances(&acct), before);
    assert_eq!(before, shown("2.0000", "0.0000", "2.0000", false));
}

#[test]
fn disputing_a_failed_withdrawal_holds_nothing_and_its_chargeback_moves_no_funds() {
    let mut acct = ClientAccount::new(1);
    acct.update(deposit(0, "1.0000"));
    acct.update(withdrawal(1, "2.0000"));
    acct.update(dispute(1));
    assert!(acct.is_disputed(1));
    assert_eq!(balances(&acct), shown("1.0000", "0.0000", "1.0000", false));
    acct.update(chargeback(1));
    assert!(!acct.is_disputed(1));
    assert_eq!(balances(&acct), shown("1.0000", "0.0000", "1.0000", true));
}

#[test]
fn a_dispute_on_a_disputed_id_changes_nothing() {
    let mut acct = ClientAccount::new(1);
    acct.update(deposit(0, "1.0000"));
    acct.update(dispute(0));
    acct.update(dispute(0));
    assert_eq!(acct.disputed_len(), 1);
    assert_eq!(balances(&acct), shown("0.0000", "1.0000", "1.0000", false));
}

#[test]
fn a_resolve_releases_the_held_funds() {
    let mut acct = ClientAccount::new(1);
    acct.update(deposit(0, "1.0000"));
    acct.update(deposit(1, "2.0000"));
    acct.update(dispute(0));
    acct.update(dispute(1));
    assert_eq!(balances(&acct), shown("0.0000", "3.0000", "3.0000", false));
    acct.update(resolve(0));
    assert_eq!(balances(&acct), shown("1.0000", "2.0000", "3.0000", false));
    assert_eq!(acct.disputed_len(), 1);
}

#[test]
fn a_chargeback_without_a_dispute_changes_nothing() {
    let mut acct = ClientAccount::new(1);
    acct.update(deposit(0, "1.0000"));
    acct.update(chargeback(0));
    assert_eq!(balances(&acct), shown("1.0000", "0.0000", "1.0000", false));
    acct.update(dispute(0));
    acct.update(resolve(0));
    acct.update(chargeback(0));
    assert_eq!(balances(&acct), shown("1.0000", "0.0000", "1.0000", false));
}

#[test]
fn a_locked_account_stays_locked() {
    let mut acct = ClientAccount::new(1);
    acct.update(deposit(0, "1.0000"));
    acct.update(dispute(0));
    acct.update(chargeback(0));
    assert!(acct.locked());
    acct.update(deposit(1, "4.0000"));
    acct.update(withdrawal(2, "1.0000"));
    acct.update(dispute(1));
    acct.update(resolve(1));
    acct.update(record(TransactionType::Unknown("unlock".to_string()), 1, 3, None));
    assert!(acct.locked());
    assert_eq!(acct.total(), dec("3.0000"));
}

#[test]
fn a_charged_back_id_can_be_disputed_again() {
    let mut acct = ClientAccount::new(1);
    acct.update(deposit(0, "1.0000"));
    acct.update(deposit(1, "5.0000"));
    acct.update(dispute(0));
    acct.update(chargeback(0));
    assert_eq!(balances(&acct), shown("5.0000", "0.0000", "5.0000", true));
    acct.update(dispute(0));
    assert_eq!(balances(&acct), shown("4.0000", "1.0000", "5.0000", true));
    acct.update(chargeback(0));
    assert_eq!(balances(&acct), shown("4.0000", "0.0000", "4.0000", true));
}

#[test]
fn references_to_unknown_ids_change_nothing() {
    let mut acct = ClientAccount::new(1);
    acct.update(deposit(0, "1.0000"));
    acct.update(dispute(0));
    let before = balances(&acct);
    acct.update(dispute(9));
    acct.update(resolve(9));
    acct.update(chargeback(9));
    assert_eq!(balances(&acct), before);
    assert_eq!(acct.disputed_len(), 1);
    assert_eq!(acct.history_len(), 1);
    assert!(acct.history_entry(9).is_none());
    assert!(!acct.is_disputed(9));
}

#[test]
fn records_of_unknown_type_and_records_without_amount_change_nothing() {
    let mut acct = ClientAccount::new(1);
    acct.update(deposit(0, "1.0000"));
    acct.update(record(TransactionType::Unknown("pirates_rock".to_string()), 1, 1, Some("5")));
    acct.update(record(TransactionType::FailedWithdrawal, 1, 2, Some("5")));
    acct.update(record(TransactionType::Deposit, 1, 3, None));
    acct.update(record(TransactionType::Withdrawal, 1, 4, None));
    assert_eq!(balances(&acct), shown("1.0000", "0.0000", "1.0000", false));
    assert_eq!(acct.history_len(), 1);
    acct.update(deposit(3, "1.0000"));
    assert_eq!(acct.total(), dec("2.0000"));
}

#[test]
fn negative_amounts_are_taken_as_they_are() {
    let mut acct = ClientAccount::new(1);
    acct.update(deposit(0, "-1.5000"));
    assert_eq!(balances(&acct), shown("0.0000", "0.0000", "-1.5000", false));
    acct.update(withdrawal(1, "-2.0000"));
    assert_eq!(balances(&acct), shown("0.5000", "0.0000", "0.5000", false));
}

#[test]
fn the_amount_limit_is_what_fits_in_63_bits() {
    assert_eq!(AMOUNT_LIMIT, i64::MAX as i128);
}

#[test]
fn an_amount_beyond_the_limit_is_out_of_range() {
    let limit: i128 = AMOUNT_LIMIT;
    let mut acct = ClientAccount::new(1);
    let too_much = Transaction {
        typ: TransactionType::Deposit,
        client: 1,
        tx: 0,
        amount: Money::from_units(limit + 1),
    };
    assert_eq!(acct.try_update(too_much), Err(OutOfRange));
    assert_eq!(acct.history_len(), 0);
    assert_eq!(acct.total(), Money::zero());
    let just_enough = Transaction {
        typ: TransactionType::Deposit,
        client: 1,
        tx: 0,
        amount: Money::from_units(limit),
    };
    assert_eq!(acct.try_update(just_enough), Ok(()));
    assert_eq!(acct.total().units(), limit);
    let overdrawn = Transaction {
        typ: TransactionType::Withdrawal,
        client: 1,
        tx: 1,
        amount: Money::from_units(-limit - 1),
    };
    assert_eq!(acct.try_update(overdrawn), Err(OutOfRange));
    assert_eq!(acct.history_len(), 1);
}

#[test]
fn an_amount_beyond_the_limit_on_a_record_that_is_dropped_is_no_error() {
    let limit: i128 = AMOUNT_LIMIT;
    let mut acct = ClientAccount::new(1);
    acct.update(deposit(0, "1.0000"));
    let repeated = Transaction {
        typ: TransactionType::Deposit,
        client: 1,
        tx: 0,
        amount: Money::from_units(limit + 1),
    };
    assert_eq!(acct.try_update(repeated), Ok(()));
    let inert = Transaction {
        typ: TransactionType::Dispute,
        client: 1,
        tx: 0,
        amount: Money::from_units(limit + 1),
    };
    assert_eq!(acct.try_update(inert), Ok(()));
    assert_eq!(balances(&acct), shown("0.0000", "1.0000", "1.0000", false));
}

#[test]
fn the_book_leaves_out_an_account_whose_first_record_is_out_of_range() {
    let limit: i128 = AMOUNT_LIMIT;
    let mut accts = ClientAccounts::new();
    let too_much = Transaction {
        typ: TransactionType::Deposit,
        client: 4,
        tx: 0,
        amount: Money::from_units(limit + 1),
    };
    assert_eq!(accts.update(too_much), Err(OutOfRange));
    assert_eq!(accts.len(), 0);
    assert!(accts.get(4).is_none());
    accts.update(record(TransactionType::Deposit, 4, 0, Some("2.5"))).unwrap();
    let again = Transaction {
        typ: TransactionType::Deposit,
        client: 4,
        tx: 1,
        amount: Money::from_units(-limit - 1),
    };
    assert_eq!(accts.update(again), Err(OutOfRange));
    assert_eq!(accts.len(), 1);
    assert_eq!(accts.get(4).unwrap().total(), dec("2.5"));
    assert_eq!(accts.get(4).unwrap().history_len(), 1);
}

#[test]
fn the_book_makes_an_account_on_first_reference() {
    let mut accts = ClientAccounts::new();
    assert_eq!(accts.len(), 0);
    accts.update(record(TransactionType::Dispute, 7, 1, None)).unwrap();
    assert_eq!(accts.len(), 1);
    let acct = accts.get(7).unwrap();
    assert_eq!(acct.id(), 7);
    assert_eq!(balances(acct), shown("0.0000", "0.0000", "0.0000", false));
    assert!(accts.get(8).is_none());
}

#[test]
fn the_book_routes_each_record_to_its_client() {
    let mut accts = ClientAccounts::new();
    accts.update(record(TransactionType::Deposit, 1, 1, Some("1.0"))).unwrap();
    accts.update(record(TransactionType::Deposit, 2, 1, Some("2.0"))).unwrap();
    accts.update(record(TransactionType::Withdrawal, 1, 2, Some("0.5"))).unwrap();
    accts.update(record(TransactionType::Dispute, 2, 1, None)).unwrap();
    accts.update(record(TransactionType::Dispute, 1, 9, None)).unwrap();
    assert_eq!(accts.len(), 2);
    assert_eq!(
        balances(accts.get(1).unwrap()),
        shown("0.5000", "0.0000", "0.5000", false)
    );
    assert_eq!(
        balances(accts.get(2).unwrap()),
        shown("0.0000", "2.0000", "2.0000", false)
    );
}

#[test]
fn export_lists_every_account_once() {
    let mut accts = ClientAccounts::new();
    for client in [3u16, 1, 2, 3, 1] {
        accts
            .update(record(TransactionType::Deposit, client, client as u32 + 10, Some("1.5")))
            .unwrap();
    }
    accts.update(record(TransactionType::Dispute, 2, 12, None)).unwrap();
    accts.update(record(TransactionType::Chargeback, 2, 12, None)).unwrap();
    let mut rows = accts.export();
    rows.sort_by_key(|row| row.id);
    assert_eq!(
        rows,
        vec![
            AccountSnapshot {
                id: 1,
                available: dec("1.5"),
                held: dec("0"),
                total: dec("1.5"),
                locked: false,
            },
            AccountSnapshot {
                id: 2,
                available: dec("0"),
                held: dec("0"),
                total: dec("0"),
                locked: true,
            },
            AccountSnapshot {
                id: 3,
                available: dec("1.5"),
                held: dec("0"),
                total: dec("1.5"),
                locked: false,
            },
        ]
    );
}

#[test]
fn an_empty_book_writes_only_the_field_names() {
    let accts = ClientAccounts::new();
    assert_eq!(accts.export(), vec![]);
    assert_eq!(
        accts.write_csv().unwrap(),
        "id,available,held,total,locked\n"
    );
}

#[test]
fn write_csv_has_one_line_for_each_account() {
    let mut accts = ClientAccounts::new();
    accts.update(record(TransactionType::Deposit, 20, 1, Some("1.5"))).unwrap();
    accts.update(record(TransactionType::Deposit, 10, 2, Some("2.25"))).unwrap();
    accts.update(record(TransactionType::Dispute, 10, 2, None)).unwrap();
    let text = accts.write_csv().unwrap();
    let mut lines: Vec<&str> = text.lines().collect();
    assert_eq!(lines.remove(0), "id,available,held,total,locked");
    lines.sort();
    assert_eq!(
        lines,
        vec![
            "10,0.0000,2.2500,2.2500,false",
            "20,1.5000,0.0000,1.5000,false"
        ]
    );
    assert!(text.ends_with('\n'));
}

#[test]
fn render_csv_keeps_the_order_of_the_snapshots() {
    let rows = vec![
        AccountSnapshot {
            id: 65535,
            available: dec("5554.8889"),
            held: dec("0.1111"),
            total: dec("5555"),
            locked: false,
        },
        AccountSnapshot {
            id: 0,
            available: dec("0"),
            held: dec("0"),
            total: dec("-1.25"),
            locked: true,
        },
    ];
    assert_eq!(
        render_csv(&rows).unwrap(),
        "id,available,held,total,locked\n65535,5554.8889,0.1111,5555.0000,false\n0,0.0000,0.0000,-1.2500,true\n"
    );
    assert_eq!(
        rows[0].fields(),
        vec!["65535", "5554.8889", "0.1111", "5555.0000", "false"]
    );
}

#[test]
fn serialize_gives_the_five_fields_of_an_account() {
    let mut acct = ClientAccount::new(42);
    acct.update(deposit(0, "1.1111"));
    acct.update(deposit(1, "2.0000"));
    acct.update(dispute(0));
    assert_eq!(
        acct.serialize(),
        vec!["42", "2.0000", "1.1111", "3.1111", "false"]
    );
    let snapshot = acct.snapshot();
    assert_eq!(snapshot.id, 42);
    assert_eq!(snapshot.available, dec("2"));
    assert_eq!(snapshot.held, dec("1.1111"));
    assert_eq!(snapshot.total, dec("3.1111"));
    assert!(!snapshot.locked);
}

#[test]
fn ids_are_written_in_decimal_digits() {
    assert_eq!(id_text(0), "0");
    assert_eq!(id_text(7), "7");
    assert_eq!(id_text(10), "10");
    assert_eq!(id_text(409), "409");
    assert_eq!(id_text(12345), "12345");
    assert_eq!(id_text(65535), "65535");
}

#[test]
fn held_counts_every_disputed_deposit() {
    let mut acct = ClientAccount::new(1);
    for tx in 0..1000u32 {
        acct.update(deposit(tx, "0.1111"));
    }
    for tx in 0..500u32 {
        acct.update(dispute(2 * tx));
    }
    assert_eq!(acct.disputed_len(), 500);
    assert_eq!(balances(&acct), shown("55.5500", "55.5500", "111.1000", false));
}
