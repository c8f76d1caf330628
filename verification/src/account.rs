//! An in-memory account holding its own transaction list, with the same
//! signed-total semantics as the row-based balance aggregator: income
//! adds, expense subtracts.

use vstd::prelude::*;
use vstd::string::StringExecFns;
use crate::balance::spec_contribution_sum;
use crate::category::CategoryType;
use crate::transaction::Transaction;

verus! {

/// What one transaction adds to the account's total.
pub open spec fn spec_entry_contribution(t: Transaction) -> int {
    match t.category.category_type {
        CategoryType::Expense => -(t.value as int),
        CategoryType::Income => t.value as int,
    }
}

/// The account's signed total over its transaction list.
pub open spec fn spec_ledger_balance(entries: Seq<Transaction>) -> int {
    spec_contribution_sum(entries, |t: Transaction| spec_entry_contribution(t))
}

#[derive(Debug)]
pub struct Account {
    pub name: String,
    pub transactions: Vec<Transaction>,
}

impl Account {
    pub fn new(name: &str) -> (r: Account)
        ensures
            r.name@ == name@,
            r.transactions@ == Seq::<Transaction>::empty(),
    {
        Account { name: name.to_owned(), transactions: Vec::new() }
    }

    pub fn add_transaction(&mut self, transaction: Transaction)
        ensures
            final(self).name == old(self).name,
            final(self).transactions@ == old(self).transactions@.push(transaction),
    {
        self.transactions.push(transaction);
    }

    /// The signed total of the account's transactions. Bounded values
    /// and list length keep the machine total exact.
    pub fn balance(&self) -> (r: i64)
        requires
            self.transactions@.len() <= 0x4000_0000,
            forall|i: int|
                0 <= i < self.transactions@.len() ==> -0x1_0000_0000
                    <= #[trigger] self.transactions@[i].value <= 0x1_0000_0000,
        ensures
            r == spec_ledger_balance(self.transactions@),
    {
        let mut total: i64 = 0;
        let mut i: usize = 0;
        while i < self.transactions.len()
            invariant
                0 <= i <= self.transactions@.len() <= 0x4000_0000,
                forall|k: int|
                    0 <= k < self.transactions@.len() ==> -0x1_0000_0000
                        <= #[trigger] self.transactions@[k].value <= 0x1_0000_0000,
                total == spec_ledger_balance(self.transactions@.take(i as int)),
                -(i * 0x1_0000_0000) <= total <= i * 0x1_0000_0000,
            decreases self.transactions.len() - i,
        {
            proof {
                assert(self.transactions@.take(i + 1).drop_last() =~= self.transactions@.take(
                    i as int,
                ));
            }
            let t = &self.transactions[i];
            match t.category.category_type {
                CategoryType::Expense => {
                    total = total - t.value;
                },
                CategoryType::Income => {
                    total = total + t.value;
                },
            }
            i = i + 1;
        }
        proof {
            assert(self.transactions@.take(self.transactions@.len() as int)
                =~= self.transactions@);
        }
        total
    }
}

/// Adding one transaction moves the balance by exactly that
/// transaction's signed contribution.
pub proof fn lemma_ledger_balance_push(entries: Seq<Transaction>, t: Transaction)
    ensures
        spec_ledger_balance(entries.push(t)) == spec_ledger_balance(entries)
            + spec_entry_contribution(t),
{
    assert(entries.push(t).drop_last() =~= entries);
}

} // verus!
