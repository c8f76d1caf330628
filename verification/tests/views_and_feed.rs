use finance_ledger::category::CategoryType;
use finance_ledger::dates::Date;
use finance_ledger::feed::{create_transaction_from_transfer, create_transaction_join, get_transactions};
use finance_ledger::lifecycle::create_scheduled_transaction;
use finance_ledger::models::{
    Account, Category, CategoryTypes, RepeatFrequencies, ScheduledTransactionKinds,
};
use finance_ledger::schedule::PostScheduledTransaction;
use finance_ledger::schedule_views::{
    create_scheduled_transaction_join, get_all_scheduled_transactions,
};
use finance_ledger::store::DatabaseScheduledTransactions;
use finance_ledger::transfer_schedules::{
    create_scheduled_transfer_join, get_scheduled_transaction_to_join,
    get_scheduled_transfer_to_join, GetScheduledTransaction as FlatScheduledTransaction,
    GetScheduledTransfer, ScheduledTransactionType, ScheduledTransfer,
};
use finance_ledger::models::{AppUser, Transaction, Transfer};
use finance_ledger::views::{get_account, get_all_accounts, get_all_categories};

const USER: i32 = 7;

fn d(year: i32, month: u8, day: u8) -> Date {
    Date { year, month, day }
}

fn accounts() -> Vec<Account> {
    vec![
        Account { id: 1, name: "Checking".to_string(), user_id: USER },
        Account { id: 2, name: "Savings".to_string(), user_id: USER },
        Account { id: 3, name: "Elsewhere".to_string(), user_id: 99 },
    ]
}

fn categories() -> Vec<Category> {
    vec![
        Category {
            id: 10,
            categorytype: CategoryTypes::Income,
            name: "Salary".to_string(),
            user_id: USER,
        },
        Category {
            id: 11,
            categorytype: CategoryTypes::Expense,
            name: "Rent".to_string(),
            user_id: 99,
        },
    ]
}

#[test]
fn category_type_names_round_trip() {
    assert_eq!(CategoryType::Expense.as_str(), "Expense");
    assert_eq!(CategoryType::Income.as_str(), "Income");
    assert!(matches!(CategoryType::from_str("Expense"), Some(CategoryType::Expense)));
    assert!(matches!(CategoryType::from_str("Income"), Some(CategoryType::Income)));
    assert!(CategoryType::from_str("income").is_none());
    assert!(CategoryType::from_str("").is_none());
}

#[test]
fn account_view_carries_the_balance() {
    let txs = vec![(
        Transaction {
            id: 1,
            value: 80,
            description: "t".to_string(),
            date: d(2024, 1, 1),
            account: 1,
            category: 10,
            user_id: USER,
        },
        Category {
            id: 10,
            categorytype: CategoryTypes::Income,
            name: "Salary".to_string(),
            user_id: USER,
        },
    )];
    let view = get_account(1, USER, &accounts(), &txs, &vec![], &vec![]).unwrap();
    assert_eq!(view.id, 1);
    assert_eq!(view.name, "Checking");
    assert_eq!(view.balance, 80);
    assert!(get_account(3, USER, &accounts(), &txs, &vec![], &vec![]).is_none());
}

#[test]
fn account_list_is_scoped_to_the_user() {
    let views = get_all_accounts(USER, &accounts(), &vec![], &vec![], &vec![]);
    assert_eq!(views.len(), 2);
    assert_eq!(views[0].name, "Checking");
    assert_eq!(views[1].name, "Savings");
    assert_eq!(views[0].balance, 0);
}

#[test]
fn category_list_is_scoped_to_the_user() {
    let mine = get_all_categories(USER, &categories());
    assert_eq!(mine.len(), 1);
    assert_eq!(mine[0].name, "Salary");
}

#[test]
fn scheduled_view_resolves_names() {
    let mut store = DatabaseScheduledTransactions::new();
    let p = PostScheduledTransaction {
        kind: ScheduledTransactionKinds::Transaction,
        value: 500,
        description: None,
        created_date: d(2024, 1, 15),
        account_id: Some(1),
        category_id: Some(10),
        origin_account_id: None,
        destination_account_id: None,
        repeat: false,
        repeat_freq: None,
        repeat_interval: None,
        infinite_repeat: None,
        end_after_repeats: None,
        current_repeat_count: None,
        next_date: None,
    };
    let ob = create_scheduled_transaction(&mut store, &p, &accounts(), &categories(), USER)
        .unwrap();
    let view = create_scheduled_transaction_join(&ob, &accounts(), &categories()).unwrap();
    assert_eq!(view.account_name.as_deref(), Some("Checking"));
    assert_eq!(view.category_name.as_deref(), Some("Salary"));
    assert_eq!(view.category_type, Some(CategoryTypes::Income));
    // with the account gone the view no longer exists
    let fewer = vec![Account { id: 2, name: "Savings".to_string(), user_id: USER }];
    assert!(create_scheduled_transaction_join(&ob, &fewer, &categories()).is_none());
}

#[test]
fn schedule_listing_is_newest_first() {
    let mut store = DatabaseScheduledTransactions::new();
    let base = PostScheduledTransaction {
        kind: ScheduledTransactionKinds::Transaction,
        value: 1,
        description: None,
        created_date: d(2024, 1, 15),
        account_id: Some(1),
        category_id: Some(10),
        origin_account_id: None,
        destination_account_id: None,
        repeat: false,
        repeat_freq: None,
        repeat_interval: None,
        infinite_repeat: None,
        end_after_repeats: None,
        current_repeat_count: None,
        next_date: None,
    };
    let older = PostScheduledTransaction { created_date: d(2023, 6, 1), ..base.clone() };
    let newest = PostScheduledTransaction { created_date: d(2024, 5, 9), ..base.clone() };
    create_scheduled_transaction(&mut store, &older, &accounts(), &categories(), USER).unwrap();
    create_scheduled_transaction(&mut store, &newest, &accounts(), &categories(), USER).unwrap();
    create_scheduled_transaction(&mut store, &base, &accounts(), &categories(), USER).unwrap();
    let views =
        get_all_scheduled_transactions(&store, USER, &accounts(), &categories()).unwrap();
    assert_eq!(views.len(), 3);
    assert_eq!(views[0].created_date, d(2024, 5, 9));
    assert_eq!(views[1].created_date, d(2024, 1, 15));
    assert_eq!(views[2].created_date, d(2023, 6, 1));
}

#[test]
fn feed_row_of_a_transaction() {
    let tuple = (
        Transaction {
            id: 4,
            value: 120,
            description: "groceries".to_string(),
            date: d(2024, 2, 2),
            account: 1,
            category: 10,
            user_id: USER,
        },
        Category {
            id: 10,
            categorytype: CategoryTypes::Expense,
            name: "Food".to_string(),
            user_id: USER,
        },
        Account { id: 1, name: "Checking".to_string(), user_id: USER },
    );
    let row = create_transaction_join(&tuple, USER);
    assert_eq!(row.id, 4);
    assert_eq!(row.category_id, Some(10));
    assert_eq!(row.category_name.as_deref(), Some("Food"));
    assert_eq!(row.account_name, "Checking");
    assert_eq!(row.from_account_id, None);
}

#[test]
fn feed_row_of_a_transfer() {
    let t = Transfer {
        id: 9,
        origin_account: 1,
        destination_account: 2,
        value: 300,
        description: "stash".to_string(),
        date: d(2024, 2, 3),
        user_id: USER,
    };
    let row = create_transaction_from_transfer(&t, CategoryTypes::TransferExpense, &accounts());
    assert_eq!(row.category_type, CategoryTypes::TransferExpense);
    assert_eq!(row.account_id, 2);
    assert_eq!(row.account_name, "Savings");
    assert_eq!(row.from_account_id, Some(1));
    assert_eq!(row.from_account_name.as_deref(), Some("Checking"));
}

#[test]
fn feed_merges_all_sources_newest_first() {
    let joins = vec![(
        Transaction {
            id: 1,
            value: 10,
            description: "old".to_string(),
            date: d(2024, 1, 5),
            account: 1,
            category: 10,
            user_id: USER,
        },
        Category {
            id: 10,
            categorytype: CategoryTypes::Expense,
            name: "Food".to_string(),
            user_id: USER,
        },
        Account { id: 1, name: "Checking".to_string(), user_id: USER },
    )];
    let outgoing = vec![Transfer {
        id: 2,
        origin_account: 1,
        destination_account: 2,
        value: 20,
        description: "mid".to_string(),
        date: d(2024, 2, 10),
        user_id: USER,
    }];
    let incoming = vec![Transfer {
        id: 3,
        origin_account: 2,
        destination_account: 1,
        value: 30,
        description: "new".to_string(),
        date: d(2024, 3, 15),
        user_id: USER,
    }];
    let rows = get_transactions(&joins, &outgoing, &incoming, &accounts(), USER);
    assert_eq!(rows.len(), 3);
    assert_eq!(rows[0].description, "new");
    assert_eq!(rows[0].category_type, CategoryTypes::TransferIncome);
    assert_eq!(rows[1].description, "mid");
    assert_eq!(rows[1].category_type, CategoryTypes::TransferExpense);
    assert_eq!(rows[2].description, "old");
    assert_eq!(rows[2].category_id, Some(10));
}

#[test]
fn scheduled_transfer_view_resolves_both_names() {
    let st = ScheduledTransfer {
        id: 5,
        origin_account_id: 1,
        destination_account_id: 2,
        value: 40,
        description: "sweep".to_string(),
        created_date: d(2024, 4, 1),
        repeat: false,
        repeat_freq: None,
        repeat_interval: None,
        infinite_repeat: None,
        end_after_repeats: None,
        current_repeat_count: None,
        next_date: Some(d(2024, 4, 1)),
        user_id: USER,
    };
    let user = AppUser { id: USER, name: "me".to_string(), password: "pw".to_string() };
    let view = create_scheduled_transfer_join(&(st.clone(), user.clone()), &accounts()).unwrap();
    assert_eq!(view.origin_account_name, "Checking");
    assert_eq!(view.destination_account_name, "Savings");
    let st_foreign = ScheduledTransfer { origin_account_id: 3, ..st };
    assert!(create_scheduled_transfer_join(&(st_foreign, user), &accounts()).is_err());
}

#[test]
fn unified_rows_keep_their_kind_apart() {
    let flat = FlatScheduledTransaction {
        id: 1,
        account_id: 1,
        account_name: "Checking".to_string(),
        value: 10,
        description: "x".to_string(),
        category_id: 10,
        category_type: CategoryTypes::Expense,
        category_name: "Food".to_string(),
        created_date: d(2024, 1, 1),
        repeat: false,
        repeat_freq: None,
        repeat_interval: None,
        infinite_repeat: None,
        end_after_repeats: None,
        current_repeat_count: None,
        next_date: Some(d(2024, 1, 1)),
        user_id: USER,
    };
    let row = get_scheduled_transaction_to_join(&flat);
    assert_eq!(row.scheduled_type, ScheduledTransactionType::Transaction);
    assert_eq!(row.account_name.as_deref(), Some("Checking"));
    assert_eq!(row.origin_account_id, None);

    let gst = GetScheduledTransfer {
        id: 2,
        origin_account_id: 1,
        origin_account_name: "Checking".to_string(),
        destination_account_id: 2,
        destination_account_name: "Savings".to_string(),
        value: 20,
        description: "y".to_string(),
        created_date: d(2024, 1, 2),
        repeat: true,
        repeat_freq: Some(RepeatFrequencies::Weeks),
        repeat_interval: Some(2),
        infinite_repeat: Some(true),
        end_after_repeats: None,
        current_repeat_count: Some(0),
        next_date: Some(d(2024, 1, 2)),
        user_id: USER,
    };
    let row = get_scheduled_transfer_to_join(&gst);
    assert_eq!(row.scheduled_type, ScheduledTransactionType::Transfer);
    assert_eq!(row.origin_account_name.as_deref(), Some("Checking"));
    assert_eq!(row.destination_account_name.as_deref(), Some("Savings"));
    assert_eq!(row.account_id, None);
    assert_eq!(row.repeat_freq, Some(RepeatFrequencies::Weeks));
}

#[test]
fn store_lookups_are_scoped_to_the_owner() {
    let mut store = DatabaseScheduledTransactions::new();
    let p = PostScheduledTransaction {
        kind: ScheduledTransactionKinds::Transaction,
        value: 500,
        description: None,
        created_date: d(2024, 1, 15),
        account_id: Some(1),
        category_id: Some(10),
        origin_account_id: None,
        destination_account_id: None,
        repeat: false,
        repeat_freq: None,
        repeat_interval: None,
        infinite_repeat: None,
        end_after_repeats: None,
        current_repeat_count: None,
        next_date: None,
    };
    let ob = create_scheduled_transaction(&mut store, &p, &accounts(), &categories(), USER)
        .unwrap();
    assert!(store.get_scheduled_transaction(ob.id, USER).is_ok());
    assert!(store.get_scheduled_transaction(ob.id, 99).is_err());
    assert_eq!(store.get_all_scheduled_transactions(99).len(), 0);
    assert_eq!(store.get_all_scheduled_transactions(USER).len(), 1);
}
