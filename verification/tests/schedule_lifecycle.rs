use finance_ledger::dates::Date;
use finance_ledger::lifecycle::{
    create_scheduled_transaction, edit_scheduled_transaction, pay_scheduled_transaction,
    MaterializedEntry, PostScheduledTransactionPay, ScheduleAdvance,
};
use finance_ledger::models::{
    Account, Category, CategoryTypes, RepeatFrequencies, ScheduledTransactionKinds,
};
use finance_ledger::schedule::{
    validate_scheduled_transaction, ObligationError, PostScheduledTransaction,
};
use finance_ledger::store::DatabaseScheduledTransactions;

const USER: i32 = 7;

fn d(year: i32, month: u8, day: u8) -> Date {
    Date { year, month, day }
}

fn accounts() -> Vec<Account> {
    vec![
        Account { id: 1, name: "Checking".to_string(), user_id: USER },
        Account { id: 2, name: "Savings".to_string(), user_id: USER },
        Account { id: 5, name: "Stranger".to_string(), user_id: 99 },
    ]
}

fn categories() -> Vec<Category> {
    vec![Category {
        id: 10,
        categorytype: CategoryTypes::Expense,
        name: "Rent".to_string(),
        user_id: USER,
    }]
}

fn transaction_payload() -> PostScheduledTransaction {
    PostScheduledTransaction {
        kind: ScheduledTransactionKinds::Transaction,
        value: 500,
        description: Some("rent".to_string()),
        created_date: d(2024, 1, 31),
        account_id: Some(1),
        category_id: Some(10),
        origin_account_id: None,
        destination_account_id: None,
        repeat: false,
        repeat_freq: None,
        repeat_interval: None,
        infinite_repeat: None,
        end_after_repeats: None,
        current_repeat_count: None,
        next_date: None,
    }
}

fn repeating_payload(cap: i32) -> PostScheduledTransaction {
    PostScheduledTransaction {
        repeat: true,
        repeat_freq: Some(RepeatFrequencies::Months),
        repeat_interval: Some(1),
        infinite_repeat: Some(false),
        end_after_repeats: Some(cap),
        ..transaction_payload()
    }
}

fn pay_request() -> PostScheduledTransactionPay {
    PostScheduledTransactionPay {
        value: 500,
        description: "rent january".to_string(),
        date: d(2024, 1, 31),
        category_id: Some(10),
        account_id: Some(1),
        origin_account_id: None,
        destination_account_id: None,
    }
}

#[test]
fn create_initializes_counter_and_next_date() {
    let mut store = DatabaseScheduledTransactions::new();
    let ob = create_scheduled_transaction(
        &mut store,
        &repeating_payload(3),
        &accounts(),
        &categories(),
        USER,
    )
    .unwrap();
    assert_eq!(ob.id, 1);
    assert_eq!(ob.current_repeat_count, Some(0));
    assert_eq!(ob.next_date, Some(d(2024, 1, 31)));
    assert_eq!(ob.end_after_repeats, Some(3));
    assert!(validate_scheduled_transaction(&ob).is_ok());
}

#[test]
fn create_clears_cap_when_repetition_is_infinite() {
    let mut store = DatabaseScheduledTransactions::new();
    let mut p = repeating_payload(3);
    p.infinite_repeat = Some(true);
    // a cap supplied alongside an infinite repetition is ignored
    let ob =
        create_scheduled_transaction(&mut store, &p, &accounts(), &categories(), USER).unwrap();
    assert_eq!(ob.end_after_repeats, None);
    assert_eq!(ob.infinite_repeat, Some(true));
}

#[test]
fn create_rejects_missing_repeat_fields() {
    let mut store = DatabaseScheduledTransactions::new();
    let mut p = repeating_payload(3);
    p.repeat_freq = None;
    let r = create_scheduled_transaction(&mut store, &p, &accounts(), &categories(), USER);
    assert_eq!(r.unwrap_err(), ObligationError::InvalidSchedule);
}

#[test]
fn create_rejects_nonpositive_interval() {
    let mut store = DatabaseScheduledTransactions::new();
    let mut p = repeating_payload(3);
    p.repeat_interval = Some(0);
    let r = create_scheduled_transaction(&mut store, &p, &accounts(), &categories(), USER);
    assert_eq!(r.unwrap_err(), ObligationError::InvalidSchedule);
}

#[test]
fn create_rejects_unknown_account() {
    let mut store = DatabaseScheduledTransactions::new();
    let mut p = transaction_payload();
    p.account_id = Some(5);  // another user's account
    let r = create_scheduled_transaction(&mut store, &p, &accounts(), &categories(), USER);
    assert_eq!(r.unwrap_err(), ObligationError::InvalidSchedule);
}

#[test]
fn create_transfer_to_same_account_is_invalid() {
    let mut store = DatabaseScheduledTransactions::new();
    let p = PostScheduledTransaction {
        kind: ScheduledTransactionKinds::Transfer,
        account_id: None,
        category_id: None,
        origin_account_id: Some(5),
        destination_account_id: Some(5),
        ..transaction_payload()
    };
    let accounts = vec![Account { id: 5, name: "Only".to_string(), user_id: USER }];
    let r = create_scheduled_transaction(&mut store, &p, &accounts, &categories(), USER);
    assert_eq!(r.unwrap_err(), ObligationError::InvalidSchedule);
}

#[test]
fn create_reports_store_exhaustion() {
    let mut store = DatabaseScheduledTransactions::with_first_id(i32::MAX);
    let r = create_scheduled_transaction(
        &mut store,
        &transaction_payload(),
        &accounts(),
        &categories(),
        USER,
    );
    assert_eq!(r.unwrap_err(), ObligationError::DependencyFailure);
}

#[test]
fn validating_a_valid_schedule_twice_never_rejects() {
    let mut store = DatabaseScheduledTransactions::new();
    let ob = create_scheduled_transaction(
        &mut store,
        &repeating_payload(2),
        &accounts(),
        &categories(),
        USER,
    )
    .unwrap();
    assert!(validate_scheduled_transaction(&ob).is_ok());
    assert!(validate_scheduled_transaction(&ob).is_ok());
}

#[test]
fn one_shot_pay_retires_and_second_pay_is_not_found() {
    let mut store = DatabaseScheduledTransactions::new();
    let ob = create_scheduled_transaction(
        &mut store,
        &transaction_payload(),
        &accounts(),
        &categories(),
        USER,
    )
    .unwrap();
    let outcome = pay_scheduled_transaction(
        &mut store,
        ob.id,
        &pay_request(),
        &accounts(),
        &categories(),
        USER,
    )
    .unwrap();
    match outcome.schedule {
        ScheduleAdvance::Retired(gone) => assert_eq!(gone.id, ob.id),
        ScheduleAdvance::Advanced(_) => panic!("a one-shot schedule must retire"),
    }
    match outcome.entry {
        MaterializedEntry::Transaction(t) => {
            assert_eq!(t.value, 500);
            assert_eq!(t.account, 1);
            assert_eq!(t.category, 10);
            assert_eq!(t.user_id, USER);
        },
        MaterializedEntry::Transfer(_) => panic!("a transaction schedule materializes a transaction"),
    }
    let again = pay_scheduled_transaction(
        &mut store,
        ob.id,
        &pay_request(),
        &accounts(),
        &categories(),
        USER,
    );
    assert_eq!(again.unwrap_err(), ObligationError::NotFound);
}

#[test]
fn finite_schedule_retires_on_the_capth_pay() {
    // the scenario: 500 a month from January 31, three occurrences
    let mut store = DatabaseScheduledTransactions::new();
    let ob = create_scheduled_transaction(
        &mut store,
        &repeating_payload(3),
        &accounts(),
        &categories(),
        USER,
    )
    .unwrap();

    let first = pay_scheduled_transaction(
        &mut store,
        ob.id,
        &pay_request(),
        &accounts(),
        &categories(),
        USER,
    )
    .unwrap();
    match first.schedule {
        ScheduleAdvance::Advanced(s) => {
            assert_eq!(s.current_repeat_count, Some(1));
            // January 31 plus one month resolves to the end of February
            assert_eq!(s.next_date, Some(d(2024, 2, 29)));
        },
        ScheduleAdvance::Retired(_) => panic!("the first pay of three must not retire"),
    }
    match first.entry {
        MaterializedEntry::Transaction(t) => assert_eq!(t.value, 500),
        MaterializedEntry::Transfer(_) => panic!("wrong entry kind"),
    }

    let second = pay_scheduled_transaction(
        &mut store,
        ob.id,
        &pay_request(),
        &accounts(),
        &categories(),
        USER,
    )
    .unwrap();
    match second.schedule {
        ScheduleAdvance::Advanced(s) => {
            assert_eq!(s.current_repeat_count, Some(2));
            assert_eq!(s.next_date, Some(d(2024, 3, 31)));
        },
        ScheduleAdvance::Retired(_) => panic!("the second pay of three must not retire"),
    }

    let third = pay_scheduled_transaction(
        &mut store,
        ob.id,
        &pay_request(),
        &accounts(),
        &categories(),
        USER,
    )
    .unwrap();
    match third.schedule {
        ScheduleAdvance::Retired(s) => assert_eq!(s.current_repeat_count, Some(2)),
        ScheduleAdvance::Advanced(_) => panic!("the third pay must retire the schedule"),
    }
    assert!(store.get_scheduled_transaction(ob.id, USER).is_err());
}

#[test]
fn pay_of_missing_id_is_not_found() {
    let mut store = DatabaseScheduledTransactions::new();
    let r = pay_scheduled_transaction(
        &mut store,
        42,
        &pay_request(),
        &accounts(),
        &categories(),
        USER,
    );
    assert_eq!(r.unwrap_err(), ObligationError::NotFound);
}

#[test]
fn pay_with_missing_payload_references_is_invalid() {
    let mut store = DatabaseScheduledTransactions::new();
    let ob = create_scheduled_transaction(
        &mut store,
        &transaction_payload(),
        &accounts(),
        &categories(),
        USER,
    )
    .unwrap();
    let mut pay = pay_request();
    pay.account_id = None;
    let r = pay_scheduled_transaction(&mut store, ob.id, &pay, &accounts(), &categories(), USER);
    assert_eq!(r.unwrap_err(), ObligationError::InvalidSchedule);
    // the failed pay left the schedule in place
    assert!(store.get_scheduled_transaction(ob.id, USER).is_ok());
}

#[test]
fn pay_with_unknown_account_reference_is_not_found() {
    let mut store = DatabaseScheduledTransactions::new();
    let ob = create_scheduled_transaction(
        &mut store,
        &transaction_payload(),
        &accounts(),
        &categories(),
        USER,
    )
    .unwrap();
    let mut pay = pay_request();
    pay.account_id = Some(77);
    let r = pay_scheduled_transaction(&mut store, ob.id, &pay, &accounts(), &categories(), USER);
    assert_eq!(r.unwrap_err(), ObligationError::NotFound);
}

#[test]
fn pay_records_the_payload_not_the_schedule() {
    let mut store = DatabaseScheduledTransactions::new();
    let ob = create_scheduled_transaction(
        &mut store,
        &transaction_payload(),
        &accounts(),
        &categories(),
        USER,
    )
    .unwrap();
    // paid late and with a different amount than scheduled
    let pay = PostScheduledTransactionPay {
        value: 525,
        description: "rent, late".to_string(),
        date: d(2024, 2, 3),
        ..pay_request()
    };
    let outcome =
        pay_scheduled_transaction(&mut store, ob.id, &pay, &accounts(), &categories(), USER)
            .unwrap();
    match outcome.entry {
        MaterializedEntry::Transaction(t) => {
            assert_eq!(t.value, 525);
            assert_eq!(t.description, "rent, late");
            assert_eq!(t.date, d(2024, 2, 3));
        },
        MaterializedEntry::Transfer(_) => panic!("wrong entry kind"),
    }
}

#[test]
fn transfer_schedule_pays_into_a_transfer() {
    let mut store = DatabaseScheduledTransactions::new();
    let p = PostScheduledTransaction {
        kind: ScheduledTransactionKinds::Transfer,
        account_id: None,
        category_id: None,
        origin_account_id: Some(1),
        destination_account_id: Some(2),
        ..transaction_payload()
    };
    let ob = create_scheduled_transaction(&mut store, &p, &accounts(), &categories(), USER)
        .unwrap();
    let pay = PostScheduledTransactionPay {
        account_id: None,
        category_id: None,
        origin_account_id: Some(1),
        destination_account_id: Some(2),
        ..pay_request()
    };
    let outcome =
        pay_scheduled_transaction(&mut store, ob.id, &pay, &accounts(), &categories(), USER)
            .unwrap();
    match outcome.entry {
        MaterializedEntry::Transfer(t) => {
            assert_eq!(t.origin_account, 1);
            assert_eq!(t.destination_account, 2);
            assert_eq!(t.value, 500);
        },
        MaterializedEntry::Transaction(_) => panic!("a transfer schedule materializes a transfer"),
    }
}

#[test]
fn transfer_pay_with_unknown_account_is_invalid_not_notfound() {
    let mut store = DatabaseScheduledTransactions::new();
    let p = PostScheduledTransaction {
        kind: ScheduledTransactionKinds::Transfer,
        account_id: None,
        category_id: None,
        origin_account_id: Some(1),
        destination_account_id: Some(2),
        ..transaction_payload()
    };
    let ob = create_scheduled_transaction(&mut store, &p, &accounts(), &categories(), USER)
        .unwrap();
    let pay = PostScheduledTransactionPay {
        account_id: None,
        category_id: None,
        origin_account_id: Some(77),
        destination_account_id: Some(2),
        ..pay_request()
    };
    let r = pay_scheduled_transaction(&mut store, ob.id, &pay, &accounts(), &categories(), USER);
    assert_eq!(r.unwrap_err(), ObligationError::InvalidSchedule);
}

#[test]
fn edit_preserves_the_paid_count() {
    let mut store = DatabaseScheduledTransactions::new();
    let ob = create_scheduled_transaction(
        &mut store,
        &repeating_payload(5),
        &accounts(),
        &categories(),
        USER,
    )
    .unwrap();
    pay_scheduled_transaction(&mut store, ob.id, &pay_request(), &accounts(), &categories(), USER)
        .unwrap();
    pay_scheduled_transaction(&mut store, ob.id, &pay_request(), &accounts(), &categories(), USER)
        .unwrap();
    let mut p = repeating_payload(9);
    p.value = 600;
    let edited =
        edit_scheduled_transaction(&mut store, ob.id, &p, &accounts(), &categories(), USER)
            .unwrap();
    assert_eq!(edited.value, 600);
    assert_eq!(edited.end_after_repeats, Some(9));
    assert_eq!(edited.current_repeat_count, Some(2));
}

#[test]
fn edit_rejects_a_cap_at_or_below_the_paid_count() {
    let mut store = DatabaseScheduledTransactions::new();
    let ob = create_scheduled_transaction(
        &mut store,
        &repeating_payload(5),
        &accounts(),
        &categories(),
        USER,
    )
    .unwrap();
    pay_scheduled_transaction(&mut store, ob.id, &pay_request(), &accounts(), &categories(), USER)
        .unwrap();
    pay_scheduled_transaction(&mut store, ob.id, &pay_request(), &accounts(), &categories(), USER)
        .unwrap();
    let r = edit_scheduled_transaction(
        &mut store,
        ob.id,
        &repeating_payload(2),
        &accounts(),
        &categories(),
        USER,
    );
    assert_eq!(r.unwrap_err(), ObligationError::InvalidSchedule);
}

#[test]
fn edit_of_missing_id_is_not_found() {
    let mut store = DatabaseScheduledTransactions::new();
    let r = edit_scheduled_transaction(
        &mut store,
        3,
        &transaction_payload(),
        &accounts(),
        &categories(),
        USER,
    );
    assert_eq!(r.unwrap_err(), ObligationError::NotFound);
}

#[test]
fn deletion_is_scoped_to_the_owner() {
    let mut store = DatabaseScheduledTransactions::new();
    let ob = create_scheduled_transaction(
        &mut store,
        &transaction_payload(),
        &accounts(),
        &categories(),
        USER,
    )
    .unwrap();
    assert!(store.delete_scheduled_transaction(ob.id, 99).is_err());
    let removed = store.delete_scheduled_transaction(ob.id, USER).unwrap();
    assert_eq!(removed.id, ob.id);
    assert!(store.delete_scheduled_transaction(ob.id, USER).is_err());
}
