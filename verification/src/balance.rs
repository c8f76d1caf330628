//! The balance aggregator: an account's signed total over the committed
//! transactions and transfers that concern it. Income counts positive,
//! expense negative; a transfer out subtracts, a transfer in adds; the
//! display-only transfer category labels never count.

use vstd::prelude::*;
use vstd::seq_lib::group_to_multiset_ensures;
use crate::models::{Category, CategoryTypes, Transaction, Transfer};

verus! {

/// What one committed transaction adds to this account's balance: its
/// value when its category is income, the negated value when expense,
/// nothing when the row does not belong to the account and user or
/// carries a display-only transfer label.
pub open spec fn spec_transaction_contribution(
    row: (Transaction, Category),
    account_id: i32,
    user_id: i32,
) -> int {
    if row.0.account == account_id && row.0.user_id == user_id {
        if row.1.categorytype == CategoryTypes::Income {
            row.0.value as int
        } else if row.1.categorytype == CategoryTypes::Expense {
            -(row.0.value as int)
        } else {
            0
        }
    } else {
        0
    }
}

/// What one committed transfer adds when this account is its origin.
pub open spec fn spec_transfer_out_contribution(t: Transfer, account_id: i32, user_id: i32) -> int {
    if t.origin_account == account_id && t.user_id == user_id {
        -(t.value as int)
    } else {
        0
    }
}

/// What one committed transfer adds when this account is its destination.
pub open spec fn spec_transfer_in_contribution(t: Transfer, account_id: i32, user_id: i32) -> int {
    if t.destination_account == account_id && t.user_id == user_id {
        t.value as int
    } else {
        0
    }
}

/// The sum of a per-row contribution over a sequence of rows.
pub open spec fn spec_contribution_sum<T>(rows: Seq<T>, f: spec_fn(T) -> int) -> int
    decreases rows.len(),
{
    if rows.len() == 0 {
        0
    } else {
        spec_contribution_sum(rows.drop_last(), f) + f(rows.last())
    }
}

pub open spec fn spec_transactions_sum(
    rows: Seq<(Transaction, Category)>,
    account_id: i32,
    user_id: i32,
) -> int {
    spec_contribution_sum(
        rows,
        |row: (Transaction, Category)| spec_transaction_contribution(row, account_id, user_id),
    )
}

pub open spec fn spec_transfers_out_sum(rows: Seq<Transfer>, account_id: i32, user_id: i32) -> int {
    spec_contribution_sum(rows, |t: Transfer| spec_transfer_out_contribution(t, account_id, user_id))
}

pub open spec fn spec_transfers_in_sum(rows: Seq<Transfer>, account_id: i32, user_id: i32) -> int {
    spec_contribution_sum(rows, |t: Transfer| spec_transfer_in_contribution(t, account_id, user_id))
}

/// The account's balance: the three signed sums together.
pub open spec fn spec_account_balance(
    transactions: Seq<(Transaction, Category)>,
    transfers_from: Seq<Transfer>,
    transfers_to: Seq<Transfer>,
    account_id: i32,
    user_id: i32,
) -> int {
    spec_transactions_sum(transactions, account_id, user_id) + spec_transfers_out_sum(
        transfers_from,
        account_id,
        user_id,
    ) + spec_transfers_in_sum(transfers_to, account_id, user_id)
}

/// The signed balance of an account, scoped to its owner, over the
/// committed rows the caller loaded: transactions joined with their
/// categories, transfers read as outgoing, and transfers read as
/// incoming (the same list may serve as both; the account filter keeps
/// each side apart). An account with no rows has balance zero.
pub fn get_account_balance(
    account_id: i32,
    user_id: i32,
    transactions: &Vec<(Transaction, Category)>,
    transfers_from: &Vec<Transfer>,
    transfers_to: &Vec<Transfer>,
) -> (r: i64)
    requires
        transactions@.len() <= 0x4000_0000,
        transfers_from@.len() <= 0x4000_0000,
        transfers_to@.len() <= 0x4000_0000,
    ensures
        r == spec_account_balance(
            transactions@,
            transfers_from@,
            transfers_to@,
            account_id,
            user_id,
        ),
{
    let mut balance: i64 = 0;
    let mut i: usize = 0;
    while i < transactions.len()
        invariant
            0 <= i <= transactions@.len() <= 0x4000_0000,
            balance == spec_transactions_sum(transactions@.take(i as int), account_id, user_id),
            -(i * 0x8000_0000) <= balance <= i * 0x8000_0000,
        decreases transactions.len() - i,
    {
        proof {
            assert(transactions@.take(i + 1).drop_last() =~= transactions@.take(i as int));
        }
        let row = &transactions[i];
        if row.1.categorytype == CategoryTypes::Income {
            if row.0.account == account_id && row.0.user_id == user_id {
                balance = balance + (row.0.value as i64);
            }
        } else if row.1.categorytype == CategoryTypes::Expense {
            if row.0.account == account_id && row.0.user_id == user_id {
                balance = balance - (row.0.value as i64);
            }
        }
        i = i + 1;
    }
    proof {
        assert(transactions@.take(transactions@.len() as int) =~= transactions@);
    }
    let mut j: usize = 0;
    while j < transfers_from.len()
        invariant
            0 <= j <= transfers_from@.len() <= 0x4000_0000,
            balance == spec_transactions_sum(transactions@, account_id, user_id)
                + spec_transfers_out_sum(transfers_from@.take(j as int), account_id, user_id),
            -0x2000_0000_0000_0000 - (j * 0x8000_0000) <= balance <= 0x2000_0000_0000_0000 + (
            j * 0x8000_0000),
            transactions@.len() <= 0x4000_0000,
        decreases transfers_from.len() - j,
    {
        proof {
            assert(transfers_from@.take(j + 1).drop_last() =~= transfers_from@.take(j as int));
        }
        let t = &transfers_from[j];
        if t.origin_account == account_id && t.user_id == user_id {
            balance = balance - (t.value as i64);
        }
        j = j + 1;
    }
    proof {
        assert(transfers_from@.take(transfers_from@.len() as int) =~= transfers_from@);
    }
    let mut k: usize = 0;
    while k < transfers_to.len()
        invariant
            0 <= k <= transfers_to@.len() <= 0x4000_0000,
            balance == spec_transactions_sum(transactions@, account_id, user_id)
                + spec_transfers_out_sum(transfers_from@, account_id, user_id)
                + spec_transfers_in_sum(transfers_to@.take(k as int), account_id, user_id),
            -0x4000_0000_0000_0000 - (k * 0x8000_0000) <= balance <= 0x4000_0000_0000_0000 + (
            k * 0x8000_0000),
            transactions@.len() <= 0x4000_0000,
            transfers_from@.len() <= 0x4000_0000,
        decreases transfers_to.len() - k,
    {
        proof {
            assert(transfers_to@.take(k + 1).drop_last() =~= transfers_to@.take(k as int));
        }
        let t = &transfers_to[k];
        if t.destination_account == account_id && t.user_id == user_id {
            balance = balance + (t.value as i64);
        }
        k = k + 1;
    }
    proof {
        assert(transfers_to@.take(transfers_to@.len() as int) =~= transfers_to@);
    }
    balance
}

/// Splitting the rows in two splits the sum: the balance is additive in
/// its entries.
pub proof fn lemma_contribution_sum_concat<T>(a: Seq<T>, b: Seq<T>, f: spec_fn(T) -> int)
    ensures
        spec_contribution_sum(a + b, f) == spec_contribution_sum(a, f) + spec_contribution_sum(
            b,
            f,
        ),
    decreases b.len(),
{
    if b.len() == 0 {
        assert(a + b =~= a);
    } else {
        assert((a + b).drop_last() =~= a + b.drop_last());
        assert((a + b).last() == b.last());
        lemma_contribution_sum_concat(a, b.drop_last(), f);
    }
}

/// Taking one row out takes exactly its contribution out of the sum.
pub proof fn lemma_contribution_sum_remove<T>(rows: Seq<T>, i: int, f: spec_fn(T) -> int)
    requires
        0 <= i < rows.len(),
    ensures
        spec_contribution_sum(rows, f) == spec_contribution_sum(rows.remove(i), f) + f(rows[i]),
    decreases rows.len(),
{
    if i == rows.len() - 1 {
        assert(rows.remove(i) =~= rows.drop_last());
    } else {
        assert(rows.remove(i).drop_last() =~= rows.drop_last().remove(i));
        assert(rows.remove(i).last() == rows.last());
        lemma_contribution_sum_remove(rows.drop_last(), i, f);
    }
}

/// Two arrangements of the same rows have the same sum: the order in
/// which entries were inserted never changes a balance.
pub proof fn lemma_contribution_sum_permutation<T>(a: Seq<T>, b: Seq<T>, f: spec_fn(T) -> int)
    requires
        a.to_multiset() == b.to_multiset(),
    ensures
        spec_contribution_sum(a, f) == spec_contribution_sum(b, f),
    decreases a.len(),
{
    broadcast use group_to_multiset_ensures;

    if a.len() == 0 {
        assert(a.to_multiset().len() == a.len());
        assert(b.to_multiset().len() == b.len());
        assert(b.len() == 0);
    } else {
        let x = a.last();
        assert(a[a.len() - 1] == x);
        assert(a.contains(x));
        assert(a.to_multiset().count(x) > 0);
        assert(b.contains(x));
        let k = choose|k: int| 0 <= k < b.len() && b[k] == x;
        lemma_contribution_sum_remove(b, k, f);
        assert(a.drop_last() =~= a.remove(a.len() - 1));
        assert(a.remove(a.len() - 1).to_multiset() == a.to_multiset().remove(x));
        assert(b.remove(k).to_multiset() == b.to_multiset().remove(x));
        lemma_contribution_sum_permutation(a.drop_last(), b.remove(k), f);
    }
}

/// An account's balance is the sum of each entry's signed contribution
/// and nothing else: rearranging the committed rows — however they were
/// interleaved when inserted — never changes it.
pub proof fn lemma_account_balance_order_independent(
    transactions_a: Seq<(Transaction, Category)>,
    transactions_b: Seq<(Transaction, Category)>,
    transfers_from_a: Seq<Transfer>,
    transfers_from_b: Seq<Transfer>,
    transfers_to_a: Seq<Transfer>,
    transfers_to_b: Seq<Transfer>,
    account_id: i32,
    user_id: i32,
)
    requires
        transactions_a.to_multiset() == transactions_b.to_multiset(),
        transfers_from_a.to_multiset() == transfers_from_b.to_multiset(),
        transfers_to_a.to_multiset() == transfers_to_b.to_multiset(),
    ensures
        spec_account_balance(
            transactions_a,
            transfers_from_a,
            transfers_to_a,
            account_id,
            user_id,
        ) == spec_account_balance(
            transactions_b,
            transfers_from_b,
            transfers_to_b,
            account_id,
            user_id,
        ),
{
    lemma_contribution_sum_permutation(
        transactions_a,
        transactions_b,
        |row: (Transaction, Category)| spec_transaction_contribution(row, account_id, user_id),
    );
    lemma_contribution_sum_permutation(
        transfers_from_a,
        transfers_from_b,
        |t: Transfer| spec_transfer_out_contribution(t, account_id, user_id),
    );
    lemma_contribution_sum_permutation(
        transfers_to_a,
        transfers_to_b,
        |t: Transfer| spec_transfer_in_contribution(t, account_id, user_id),
    );
}

/// The balance over rows committed in two batches is the sum of the two
/// batches' balances.
pub proof fn lemma_account_balance_additive(
    transactions_a: Seq<(Transaction, Category)>,
    transactions_b: Seq<(Transaction, Category)>,
    transfers_from_a: Seq<Transfer>,
    transfers_from_b: Seq<Transfer>,
    transfers_to_a: Seq<Transfer>,
    transfers_to_b: Seq<Transfer>,
    account_id: i32,
    user_id: i32,
)
    ensures
        spec_account_balance(
            transactions_a + transactions_b,
            transfers_from_a + transfers_from_b,
            transfers_to_a + transfers_to_b,
            account_id,
            user_id,
        ) == spec_account_balance(
            transactions_a,
            transfers_from_a,
            transfers_to_a,
            account_id,
            user_id,
        ) + spec_account_balance(
            transactions_b,
            transfers_from_b,
            transfers_to_b,
            account_id,
            user_id,
        ),
{
    lemma_contribution_sum_concat(
        transactions_a,
        transactions_b,
        |row: (Transaction, Category)| spec_transaction_contribution(row, account_id, user_id),
    );
    lemma_contribution_sum_concat(
        transfers_from_a,
        transfers_from_b,
        |t: Transfer| spec_transfer_out_contribution(t, account_id, user_id),
    );
    lemma_contribution_sum_concat(
        transfers_to_a,
        transfers_to_b,
        |t: Transfer| spec_transfer_in_contribution(t, account_id, user_id),
    );
}

} // verus!
