//! Rows of the unified transaction feed: committed transactions joined
//! with their category and account, and display rows synthesized from
//! transfers. A synthesized row carries a display-only transfer label
//! and is never a stored transaction.

use vstd::prelude::*;
use crate::dates::{Date, date_le, date_on_or_before};
use crate::models::{Account, Category, CategoryTypes, Transaction, Transfer};
use crate::models::{find_account, spec_find_account};

verus! {

/// One row of the unified feed.
#[derive(Debug, Clone)]
pub struct TransactionTransferJoined {
    pub id: i32,
    pub value: i32,
    pub description: String,
    pub date: Date,
    pub category_id: Option<i32>,
    pub category_type: CategoryTypes,
    pub category_name: Option<String>,
    pub account_id: i32,
    pub account_name: String,
    pub user_id: i32,
    pub from_account_id: Option<i32>,
    pub from_account_name: Option<String>,
}

/// The feed row of one committed transaction with its category and
/// account.
pub open spec fn spec_transaction_row(
    transaction: Transaction,
    category: Category,
    account: Account,
    user_id: i32,
) -> TransactionTransferJoined {
    TransactionTransferJoined {
        id: transaction.id,
        value: transaction.value,
        description: transaction.description,
        date: transaction.date,
        category_id: Some(transaction.category),
        category_type: category.categorytype,
        category_name: Some(category.name),
        account_id: transaction.account,
        account_name: account.name,
        user_id,
        from_account_id: None,
        from_account_name: None,
    }
}

pub fn create_transaction_join(
    tuple: &(Transaction, Category, Account),
    user_id: i32,
) -> (r: TransactionTransferJoined)
    ensures
        r == spec_transaction_row(tuple.0, tuple.1, tuple.2, user_id),
{
    let transaction = &tuple.0;
    let category = &tuple.1;
    let account = &tuple.2;
    TransactionTransferJoined {
        id: transaction.id,
        value: transaction.value,
        description: transaction.description.clone(),
        date: transaction.date,
        category_id: Some(transaction.category),
        category_type: category.categorytype,
        category_name: Some(category.name.clone()),
        account_id: transaction.account,
        account_name: account.name.clone(),
        user_id,
        from_account_id: None,
        from_account_name: None,
    }
}

/// The account a synthesized transfer row is displayed under: the
/// origin when shown as an expense, the destination when shown as an
/// income.
pub open spec fn spec_transfer_row_account(transfer: Transfer, category_type: CategoryTypes) -> i32 {
    if category_type == CategoryTypes::Expense {
        transfer.origin_account
    } else {
        transfer.destination_account
    }
}

/// The display row a committed transfer synthesizes.
pub open spec fn spec_transfer_row(
    transfer: Transfer,
    category_type: CategoryTypes,
    accounts: Seq<Account>,
) -> TransactionTransferJoined {
    let shown = spec_find_account(
        accounts,
        spec_transfer_row_account(transfer, category_type),
        transfer.user_id,
    ).unwrap();
    let origin = spec_find_account(accounts, transfer.origin_account, transfer.user_id).unwrap();
    TransactionTransferJoined {
        id: transfer.id,
        value: transfer.value,
        description: transfer.description,
        date: transfer.date,
        category_id: None,
        category_type,
        category_name: None,
        account_id: spec_transfer_row_account(transfer, category_type),
        account_name: shown.name,
        user_id: transfer.user_id,
        from_account_id: Some(origin.id),
        from_account_name: Some(origin.name),
    }
}

/// Synthesizes the display row of a committed transfer, under the
/// account its label points at. Both referenced accounts must still be
/// the owner's.
pub fn create_transaction_from_transfer(
    transfer: &Transfer,
    category_type: CategoryTypes,
    accounts: &Vec<Account>,
) -> (r: TransactionTransferJoined)
    requires
        spec_find_account(
            accounts@,
            spec_transfer_row_account(*transfer, category_type),
            transfer.user_id,
        ) is Some,
        spec_find_account(accounts@, transfer.origin_account, transfer.user_id) is Some,
    ensures
        r == spec_transfer_row(*transfer, category_type, accounts@),
{
    let transfer_account_id: i32 = if category_type == CategoryTypes::Expense {
        transfer.origin_account
    } else {
        transfer.destination_account
    };
    let acc = find_account(accounts, transfer_account_id, transfer.user_id).unwrap();
    let from_acc = find_account(accounts, transfer.origin_account, transfer.user_id).unwrap();
    TransactionTransferJoined {
        id: transfer.id,
        value: transfer.value,
        description: transfer.description.clone(),
        date: transfer.date,
        category_id: None,
        category_type,
        category_name: None,
        account_id: transfer_account_id,
        account_name: acc.name,
        user_id: transfer.user_id,
        from_account_id: Some(from_acc.id),
        from_account_name: Some(from_acc.name),
    }
}

/// The feed rows of these joined transactions, in order.
pub open spec fn spec_transaction_rows(
    rows: Seq<(Transaction, Category, Account)>,
    user_id: i32,
) -> Seq<TransactionTransferJoined>
    decreases rows.len(),
{
    if rows.len() == 0 {
        Seq::empty()
    } else {
        spec_transaction_rows(rows.drop_last(), user_id).push(
            spec_transaction_row(rows.last().0, rows.last().1, rows.last().2, user_id),
        )
    }
}

/// The display rows these transfers synthesize, in order.
pub open spec fn spec_transfer_rows(
    rows: Seq<Transfer>,
    category_type: CategoryTypes,
    accounts: Seq<Account>,
) -> Seq<TransactionTransferJoined>
    decreases rows.len(),
{
    if rows.len() == 0 {
        Seq::empty()
    } else {
        spec_transfer_rows(rows.drop_last(), category_type, accounts).push(
            spec_transfer_row(rows.last(), category_type, accounts),
        )
    }
}

/// Every transfer in the list resolves both the account it is shown
/// under and its origin among the given accounts.
pub open spec fn spec_transfers_resolve(
    rows: Seq<Transfer>,
    category_type: CategoryTypes,
    accounts: Seq<Account>,
) -> bool {
    forall|i: int|
        0 <= i < rows.len() ==> {
            &&& spec_find_account(
                accounts,
                spec_transfer_row_account(#[trigger] rows[i], category_type),
                rows[i].user_id,
            ) is Some
            &&& spec_find_account(accounts, rows[i].origin_account, rows[i].user_id) is Some
        }
}

/// The feed rows stand in non-ascending order of entry date: the newest
/// entries come first.
pub open spec fn spec_feed_newest_first(rows: Seq<TransactionTransferJoined>) -> bool {
    forall|i: int, j: int|
        0 <= i < j < rows.len() ==> date_le(#[trigger] rows[j].date, #[trigger] rows[i].date)
}

/// The position of a feed row whose date is latest.
fn max_date_index(rows: &Vec<TransactionTransferJoined>) -> (r: usize)
    requires
        rows@.len() > 0,
    ensures
        0 <= r < rows@.len(),
        forall|j: int| 0 <= j < rows@.len() ==> date_le(#[trigger] rows@[j].date, rows@[r as int].date),
{
    let mut best: usize = 0;
    let mut i: usize = 1;
    while i < rows.len()
        invariant
            0 <= best < i <= rows@.len(),
            forall|j: int| 0 <= j < i ==> date_le(#[trigger] rows@[j].date, rows@[best as int].date),
        decreases rows.len() - i,
    {
        if !date_on_or_before(&rows[i].date, &rows[best].date) {
            proof {
                crate::dates::lemma_date_le_total(rows@[i as int].date, rows@[best as int].date);
                assert forall|j: int| 0 <= j < i + 1 implies date_le(
                    #[trigger] rows@[j].date,
                    rows@[i as int].date,
                ) by {
                    if j < i {
                        crate::dates::lemma_date_le_trans(
                            rows@[j].date,
                            rows@[best as int].date,
                            rows@[i as int].date,
                        );
                    }
                }
            }
            best = i;
        }
        i = i + 1;
    }
    best
}

/// Reorders the feed newest first; the same rows, rearranged.
fn sort_feed_newest_first(rows: Vec<TransactionTransferJoined>) -> (r: Vec<
    TransactionTransferJoined,
>)
    ensures
        r@.to_multiset() == rows@.to_multiset(),
        spec_feed_newest_first(r@),
{
    let mut remaining = rows;
    let ghost orig = remaining@;
    let mut out: Vec<TransactionTransferJoined> = Vec::new();
    proof {
        broadcast use vstd::multiset::group_multiset_axioms;

        assert forall|x: TransactionTransferJoined| out@.to_multiset().count(x) == 0 by {
            vstd::seq_lib::to_multiset_contains(out@, x);
        }
        assert(out@.to_multiset() =~= vstd::multiset::Multiset::<
            TransactionTransferJoined,
        >::empty());
        assert(out@.to_multiset().add(remaining@.to_multiset()) =~= orig.to_multiset());
    }
    while remaining.len() > 0
        invariant
            out@.to_multiset().add(remaining@.to_multiset()) == orig.to_multiset(),
            spec_feed_newest_first(out@),
            forall|i: int, j: int|
                0 <= i < out@.len() && 0 <= j < remaining@.len() ==> date_le(
                    #[trigger] remaining@[j].date,
                    #[trigger] out@[i].date,
                ),
        decreases remaining.len(),
    {
        let k = max_date_index(&remaining);
        let ghost old_rem = remaining@;
        let picked = remaining.remove(k);
        let ghost before = out@;
        out.push(picked);
        proof {
            broadcast use vstd::multiset::group_multiset_axioms;

            vstd::seq_lib::to_multiset_build(before, picked);
            vstd::seq_lib::to_multiset_remove(old_rem, k as int);
            vstd::seq_lib::to_multiset_contains(old_rem, picked);
            assert(out@ == before.push(picked));
            assert(remaining@ == old_rem.remove(k as int));
            assert(old_rem[k as int] == picked);
            assert(old_rem.contains(picked));
            assert(out@.to_multiset().add(remaining@.to_multiset()) =~= orig.to_multiset());
            assert forall|a: int, b: int|
                0 <= a < b < out@.len() implies date_le(
                #[trigger] out@[b].date,
                #[trigger] out@[a].date,
            ) by {
                if b < out@.len() - 1 {
                    assert(date_le(before[b].date, before[a].date));
                }
            }
        }
    }
    proof {
        broadcast use vstd::multiset::group_multiset_axioms;

        vstd::seq_lib::to_multiset_len(remaining@);
        assert(out@.to_multiset() =~= orig.to_multiset());
    }
    out
}

/// The unified feed of an account: its committed transactions, the
/// transfers leaving it shown as transfer expenses and the transfers
/// reaching it shown as transfer incomes, newest first. The rows are
/// exactly the three sources' rows, rearranged.
pub fn get_transactions(
    joins: &Vec<(Transaction, Category, Account)>,
    transfers_from: &Vec<Transfer>,
    transfers_to: &Vec<Transfer>,
    accounts: &Vec<Account>,
    user_id: i32,
) -> (r: Vec<TransactionTransferJoined>)
    requires
        spec_transfers_resolve(transfers_from@, CategoryTypes::TransferExpense, accounts@),
        spec_transfers_resolve(transfers_to@, CategoryTypes::TransferIncome, accounts@),
    ensures
        r@.to_multiset() == (spec_transaction_rows(joins@, user_id) + spec_transfer_rows(
            transfers_from@,
            CategoryTypes::TransferExpense,
            accounts@,
        ) + spec_transfer_rows(transfers_to@, CategoryTypes::TransferIncome, accounts@))
            .to_multiset(),
        spec_feed_newest_first(r@),
{
    let mut rows: Vec<TransactionTransferJoined> = Vec::new();
    let mut i: usize = 0;
    proof {
        assert(joins@.take(0) =~= Seq::<(Transaction, Category, Account)>::empty());
    }
    while i < joins.len()
        invariant
            0 <= i <= joins@.len(),
            rows@ == spec_transaction_rows(joins@.take(i as int), user_id),
        decreases joins.len() - i,
    {
        proof {
            assert(joins@.take(i + 1).drop_last() =~= joins@.take(i as int));
            assert(joins@.take(i + 1).last() == joins@[i as int]);
        }
        rows.push(create_transaction_join(&joins[i], user_id));
        i = i + 1;
    }
    proof {
        assert(joins@.take(joins@.len() as int) =~= joins@);
    }
    let ghost tx_rows = spec_transaction_rows(joins@, user_id);
    let mut j: usize = 0;
    proof {
        assert(transfers_from@.take(0) =~= Seq::<Transfer>::empty());
        assert(rows@ =~= tx_rows + spec_transfer_rows(
            transfers_from@.take(0),
            CategoryTypes::TransferExpense,
            accounts@,
        ));
    }
    while j < transfers_from.len()
        invariant
            0 <= j <= transfers_from@.len(),
            spec_transfers_resolve(transfers_from@, CategoryTypes::TransferExpense, accounts@),
            rows@ == tx_rows + spec_transfer_rows(
                transfers_from@.take(j as int),
                CategoryTypes::TransferExpense,
                accounts@,
            ),
        decreases transfers_from.len() - j,
    {
        proof {
            assert(transfers_from@.take(j + 1).drop_last() =~= transfers_from@.take(j as int));
            assert(transfers_from@.take(j + 1).last() == transfers_from@[j as int]);
        }
        rows.push(
            create_transaction_from_transfer(
                &transfers_from[j],
                CategoryTypes::TransferExpense,
                accounts,
            ),
        );
        j = j + 1;
    }
    proof {
        assert(transfers_from@.take(transfers_from@.len() as int) =~= transfers_from@);
    }
    let ghost from_rows = spec_transfer_rows(
        transfers_from@,
        CategoryTypes::TransferExpense,
        accounts@,
    );
    let mut k: usize = 0;
    proof {
        assert(transfers_to@.take(0) =~= Seq::<Transfer>::empty());
        assert(rows@ =~= (tx_rows + from_rows) + spec_transfer_rows(
            transfers_to@.take(0),
            CategoryTypes::TransferIncome,
            accounts@,
        ));
    }
    while k < transfers_to.len()
        invariant
            0 <= k <= transfers_to@.len(),
            spec_transfers_resolve(transfers_to@, CategoryTypes::TransferIncome, accounts@),
            rows@ == (tx_rows + from_rows) + spec_transfer_rows(
                transfers_to@.take(k as int),
                CategoryTypes::TransferIncome,
                accounts@,
            ),
        decreases transfers_to.len() - k,
    {
        proof {
            assert(transfers_to@.take(k + 1).drop_last() =~= transfers_to@.take(k as int));
            assert(transfers_to@.take(k + 1).last() == transfers_to@[k as int]);
        }
        rows.push(
            create_transaction_from_transfer(
                &transfers_to[k],
                CategoryTypes::TransferIncome,
                accounts,
            ),
        );
        k = k + 1;
    }
    proof {
        assert(transfers_to@.take(transfers_to@.len() as int) =~= transfers_to@);
        assert(rows@ =~= tx_rows + spec_transfer_rows(
            transfers_from@,
            CategoryTypes::TransferExpense,
            accounts@,
        ) + spec_transfer_rows(transfers_to@, CategoryTypes::TransferIncome, accounts@));
    }
    sort_feed_newest_first(rows)
}

} // verus!
