use finance_ledger::account::Account as LedgerAccount;
use finance_ledger::balance::get_account_balance;
use finance_ledger::category::{Category as LedgerCategory, CategoryType};
use finance_ledger::dates::Date;
use finance_ledger::models::{Category, CategoryTypes, Transaction, Transfer};
use finance_ledger::transaction::Transaction as LedgerTransaction;

const USER: i32 = 7;
const ACCOUNT: i32 = 1;

fn d(year: i32, month: u8, day: u8) -> Date {
    Date { year, month, day }
}

fn tx(id: i32, value: i32, kind: CategoryTypes) -> (Transaction, Category) {
    (
        Transaction {
            id,
            value,
            description: "t".to_string(),
            date: d(2024, 3, 1),
            account: ACCOUNT,
            category: 10,
            user_id: USER,
        },
        Category { id: 10, categorytype: kind, name: "c".to_string(), user_id: USER },
    )
}

fn transfer(id: i32, value: i32, origin: i32, destination: i32) -> Transfer {
    Transfer {
        id,
        origin_account: origin,
        destination_account: destination,
        value,
        description: "m".to_string(),
        date: d(2024, 3, 2),
        user_id: USER,
    }
}

#[test]
fn empty_account_has_zero_balance() {
    assert_eq!(get_account_balance(ACCOUNT, USER, &vec![], &vec![], &vec![]), 0);
}

#[test]
fn income_minus_expense() {
    // one income of 1000 and one expense of 300 leave 700
    let txs = vec![tx(1, 1000, CategoryTypes::Income), tx(2, 300, CategoryTypes::Expense)];
    assert_eq!(get_account_balance(ACCOUNT, USER, &txs, &vec![], &vec![]), 700);
}

#[test]
fn transfers_out_subtract_and_in_add() {
    // origin of a 200 transfer and destination of a 50 transfer: -150
    let outgoing = vec![transfer(1, 200, ACCOUNT, 2)];
    let incoming = vec![transfer(2, 50, 3, ACCOUNT)];
    assert_eq!(get_account_balance(ACCOUNT, USER, &vec![], &outgoing, &incoming), -150);
}

#[test]
fn display_only_transfer_labels_never_count() {
    // rows labeled TransferIncome or TransferExpense are synthesized for
    // display; summing them would double count the transfer rows
    let txs = vec![
        tx(1, 1000, CategoryTypes::Income),
        tx(2, 400, CategoryTypes::TransferIncome),
        tx(3, 250, CategoryTypes::TransferExpense),
    ];
    assert_eq!(get_account_balance(ACCOUNT, USER, &txs, &vec![], &vec![]), 1000);
}

#[test]
fn rows_of_other_accounts_and_users_are_ignored() {
    let mut other_account = tx(1, 900, CategoryTypes::Income);
    other_account.0.account = 2;
    let mut other_user = tx(2, 800, CategoryTypes::Income);
    other_user.0.user_id = 99;
    let txs = vec![other_account, other_user, tx(3, 5, CategoryTypes::Income)];
    let unrelated_transfer = vec![transfer(4, 100, 2, 3)];
    assert_eq!(
        get_account_balance(ACCOUNT, USER, &txs, &unrelated_transfer, &unrelated_transfer),
        5
    );
}

#[test]
fn balance_is_independent_of_insertion_order() {
    let a = tx(1, 1000, CategoryTypes::Income);
    let b = tx(2, 300, CategoryTypes::Expense);
    let c = tx(3, 42, CategoryTypes::Income);
    let forward = vec![a.clone(), b.clone(), c.clone()];
    let backward = vec![c, b, a];
    let t1 = transfer(4, 200, ACCOUNT, 2);
    let t2 = transfer(5, 50, ACCOUNT, 3);
    let one_way = vec![t1.clone(), t2.clone()];
    let other_way = vec![t2, t1];
    assert_eq!(
        get_account_balance(ACCOUNT, USER, &forward, &one_way, &vec![]),
        get_account_balance(ACCOUNT, USER, &backward, &other_way, &vec![])
    );
}

#[test]
fn balance_equals_the_sum_of_signed_contributions() {
    let txs = vec![
        tx(1, 10, CategoryTypes::Income),
        tx(2, 3, CategoryTypes::Expense),
        tx(3, 7, CategoryTypes::Income),
    ];
    let outgoing = vec![transfer(4, 4, ACCOUNT, 2)];
    let incoming = vec![transfer(5, 9, 2, ACCOUNT)];
    let expected: i64 = 10 - 3 + 7 - 4 + 9;
    assert_eq!(get_account_balance(ACCOUNT, USER, &txs, &outgoing, &incoming), expected);
}

#[test]
fn same_list_serves_as_both_transfer_sides() {
    // passing every transfer as both the outgoing and the incoming list:
    // the account filter keeps the sides apart
    let transfers = vec![transfer(1, 200, ACCOUNT, 2), transfer(2, 50, 3, ACCOUNT)];
    assert_eq!(get_account_balance(ACCOUNT, USER, &vec![], &transfers, &transfers), -150);
}

#[test]
fn ledger_account_balance_matches_its_categories() {
    let salary = LedgerCategory::new(CategoryType::Income, "Salary");
    let rent = LedgerCategory::new(CategoryType::Expense, "Rent");
    let mut account = LedgerAccount::new("Main");
    account.add_transaction(LedgerTransaction::new(salary, 2000, d(2024, 1, 1)));
    account.add_transaction(LedgerTransaction::new(rent, 750, d(2024, 1, 2)));
    assert_eq!(account.balance(), 1250);
}

#[test]
fn ledger_account_starts_empty() {
    let account = LedgerAccount::new("Fresh");
    assert_eq!(account.name, "Fresh");
    assert_eq!(account.balance(), 0);
}
