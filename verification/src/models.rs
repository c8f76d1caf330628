//! The ledger's data shapes: accounts, categories, committed transactions
//! and transfers, users, and the scheduled obligation record.

use vstd::prelude::*;
use crate::dates::Date;

verus! {

/// Which ledger entry a scheduled obligation materializes into when paid.
#[derive(Debug, Copy, Clone, PartialEq, Eq, Structural)]
pub enum ScheduledTransactionKinds {
    Transaction,
    Transfer,
}

/// How a stored category contributes to a balance. `TransferIncome` and
/// `TransferExpense` are display-only labels for rows synthesized from
/// transfers; they never appear on a stored transaction's category and
/// never count toward a balance.
#[derive(Debug, Copy, Clone, PartialEq, Eq, Structural)]
pub enum CategoryTypes {
    Expense,
    Income,
    TransferIncome,
    TransferExpense,
}

/// The calendar unit of a repeating schedule.
#[derive(Debug, Copy, Clone, PartialEq, Eq, Structural)]
pub enum RepeatFrequencies {
    Days,
    Weeks,
    Months,
    Years,
}

#[derive(Debug)]
pub struct Account {
    pub id: i32,
    pub name: String,
    pub user_id: i32,
}

impl Clone for Account {
    fn clone(&self) -> (r: Self)
        ensures
            r == *self,
    {
        Account { id: self.id, name: self.name.clone(), user_id: self.user_id }
    }
}

#[derive(Debug, Clone)]
pub struct NewAccount {
    pub name: String,
    pub user_id: i32,
}

#[derive(Debug)]
pub struct Category {
    pub id: i32,
    pub categorytype: CategoryTypes,
    pub name: String,
    pub user_id: i32,
}

impl Clone for Category {
    fn clone(&self) -> (r: Self)
        ensures
            r == *self,
    {
        Category {
            id: self.id,
            categorytype: self.categorytype,
            name: self.name.clone(),
            user_id: self.user_id,
        }
    }
}

#[derive(Debug, Clone)]
pub struct NewCategory {
    pub categorytype: CategoryTypes,
    pub name: String,
    pub user_id: i32,
}

#[derive(Debug, Clone)]
pub struct AppUser {
    pub id: i32,
    pub name: String,
    pub password: String,
}

#[derive(Debug, Clone)]
pub struct NewAppUser {
    pub name: String,
    pub password: String,
}

/// A committed ledger transaction.
#[derive(Debug, Clone)]
pub struct Transaction {
    pub id: i32,
    pub value: i32,
    pub description: String,
    pub date: Date,
    pub account: i32,
    pub category: i32,
    pub user_id: i32,
}

/// A ledger transaction not yet given an id by the store.
#[derive(Debug, Clone)]
pub struct NewTransaction {
    pub value: i32,
    pub description: String,
    pub date: Date,
    pub account: i32,
    pub category: i32,
    pub user_id: i32,
}

/// A committed transfer between two accounts.
#[derive(Debug, Clone)]
pub struct Transfer {
    pub id: i32,
    pub origin_account: i32,
    pub destination_account: i32,
    pub value: i32,
    pub description: String,
    pub date: Date,
    pub user_id: i32,
}

/// A transfer not yet given an id by the store.
#[derive(Debug, Clone)]
pub struct NewTransfer {
    pub origin_account: i32,
    pub destination_account: i32,
    pub value: i32,
    pub description: String,
    pub date: Date,
    pub user_id: i32,
}

/// A scheduled obligation: one pending recurring or one-off future ledger
/// entry. `kind` decides which payload fields are meaningful; see
/// `crate::schedule::valid_schedule` for the invariants.
#[derive(Debug)]
pub struct ScheduledTransaction {
    pub id: i32,
    pub kind: ScheduledTransactionKinds,
    pub value: i32,
    pub description: Option<String>,
    pub created_date: Date,
    pub account_id: Option<i32>,
    pub category_id: Option<i32>,
    pub origin_account_id: Option<i32>,
    pub destination_account_id: Option<i32>,
    pub repeat: bool,
    pub repeat_freq: Option<RepeatFrequencies>,
    pub repeat_interval: Option<i32>,
    pub infinite_repeat: Option<bool>,
    pub end_after_repeats: Option<i32>,
    pub current_repeat_count: Option<i32>,
    pub next_date: Option<Date>,
    pub user_id: i32,
}

/// A scheduled obligation not yet given an id by the store.
#[derive(Debug, Clone)]
pub struct NewScheduledTransaction {
    pub kind: ScheduledTransactionKinds,
    pub value: i32,
    pub description: Option<String>,
    pub created_date: Date,
    pub account_id: Option<i32>,
    pub category_id: Option<i32>,
    pub origin_account_id: Option<i32>,
    pub destination_account_id: Option<i32>,
    pub repeat: bool,
    pub repeat_freq: Option<RepeatFrequencies>,
    pub repeat_interval: Option<i32>,
    pub infinite_repeat: Option<bool>,
    pub end_after_repeats: Option<i32>,
    pub current_repeat_count: Option<i32>,
    pub next_date: Option<Date>,
    pub user_id: i32,
}

impl Clone for ScheduledTransaction {
    fn clone(&self) -> (r: Self)
        ensures
            r == *self,
    {
        ScheduledTransaction {
            id: self.id,
            kind: self.kind,
            value: self.value,
            description: self.description.clone(),
            created_date: self.created_date,
            account_id: self.account_id,
            category_id: self.category_id,
            origin_account_id: self.origin_account_id,
            destination_account_id: self.destination_account_id,
            repeat: self.repeat,
            repeat_freq: self.repeat_freq,
            repeat_interval: self.repeat_interval,
            infinite_repeat: self.infinite_repeat,
            end_after_repeats: self.end_after_repeats,
            current_repeat_count: self.current_repeat_count,
            next_date: self.next_date,
            user_id: self.user_id,
        }
    }
}

impl NewScheduledTransaction {
    /// The stored record this draft becomes under the given id.
    pub open spec fn spec_with_id(self, id: i32) -> ScheduledTransaction {
        ScheduledTransaction {
            id,
            kind: self.kind,
            value: self.value,
            description: self.description,
            created_date: self.created_date,
            account_id: self.account_id,
            category_id: self.category_id,
            origin_account_id: self.origin_account_id,
            destination_account_id: self.destination_account_id,
            repeat: self.repeat,
            repeat_freq: self.repeat_freq,
            repeat_interval: self.repeat_interval,
            infinite_repeat: self.infinite_repeat,
            end_after_repeats: self.end_after_repeats,
            current_repeat_count: self.current_repeat_count,
            next_date: self.next_date,
            user_id: self.user_id,
        }
    }

    /// Executable form of `spec_with_id`.
    pub fn with_id(&self, id: i32) -> (r: ScheduledTransaction)
        ensures
            r == self.spec_with_id(id),
    {
        ScheduledTransaction {
            id,
            kind: self.kind,
            value: self.value,
            description: self.description.clone(),
            created_date: self.created_date,
            account_id: self.account_id,
            category_id: self.category_id,
            origin_account_id: self.origin_account_id,
            destination_account_id: self.destination_account_id,
            repeat: self.repeat,
            repeat_freq: self.repeat_freq,
            repeat_interval: self.repeat_interval,
            infinite_repeat: self.infinite_repeat,
            end_after_repeats: self.end_after_repeats,
            current_repeat_count: self.current_repeat_count,
            next_date: self.next_date,
            user_id: self.user_id,
        }
    }
}

/// Some account with this id belongs to this user.
pub open spec fn spec_account_exists(accounts: Seq<Account>, id: i32, user_id: i32) -> bool {
    exists|i: int|
        0 <= i < accounts.len() && accounts[i].id == id && accounts[i].user_id == user_id
}

/// Some category with this id belongs to this user.
pub open spec fn spec_category_exists(categories: Seq<Category>, id: i32, user_id: i32) -> bool {
    exists|i: int|
        0 <= i < categories.len() && categories[i].id == id && categories[i].user_id == user_id
}

/// The first account with this id that belongs to this user.
pub open spec fn spec_find_account(accounts: Seq<Account>, id: i32, user_id: i32) -> Option<
    Account,
>
    decreases accounts.len(),
{
    if accounts.len() == 0 {
        None
    } else if accounts.first().id == id && accounts.first().user_id == user_id {
        Some(accounts.first())
    } else {
        spec_find_account(accounts.drop_first(), id, user_id)
    }
}

/// The first category with this id that belongs to this user.
pub open spec fn spec_find_category(categories: Seq<Category>, id: i32, user_id: i32) -> Option<
    Category,
>
    decreases categories.len(),
{
    if categories.len() == 0 {
        None
    } else if categories.first().id == id && categories.first().user_id == user_id {
        Some(categories.first())
    } else {
        spec_find_category(categories.drop_first(), id, user_id)
    }
}

/// A lookup finds an entry exactly when one exists.
pub proof fn lemma_find_account_exists(accounts: Seq<Account>, id: i32, user_id: i32)
    ensures
        spec_find_account(accounts, id, user_id) is Some <==> spec_account_exists(
            accounts,
            id,
            user_id,
        ),
    decreases accounts.len(),
{
    if accounts.len() > 0 {
        lemma_find_account_exists(accounts.drop_first(), id, user_id);
        if spec_account_exists(accounts.drop_first(), id, user_id) {
            let i = choose|i: int|
                0 <= i < accounts.drop_first().len() && accounts.drop_first()[i].id == id
                    && accounts.drop_first()[i].user_id == user_id;
            assert(accounts[i + 1] == accounts.drop_first()[i]);
        }
        if !(accounts.first().id == id && accounts.first().user_id == user_id)
            && spec_account_exists(accounts, id, user_id) {
            let i = choose|i: int|
                0 <= i < accounts.len() && accounts[i].id == id && accounts[i].user_id == user_id;
            assert(accounts.drop_first()[i - 1] == accounts[i]);
        }
    }
}

/// A lookup finds a category exactly when one exists.
pub proof fn lemma_find_category_exists(categories: Seq<Category>, id: i32, user_id: i32)
    ensures
        spec_find_category(categories, id, user_id) is Some <==> spec_category_exists(
            categories,
            id,
            user_id,
        ),
    decreases categories.len(),
{
    if categories.len() > 0 {
        lemma_find_category_exists(categories.drop_first(), id, user_id);
        if spec_category_exists(categories.drop_first(), id, user_id) {
            let i = choose|i: int|
                0 <= i < categories.drop_first().len() && categories.drop_first()[i].id == id
                    && categories.drop_first()[i].user_id == user_id;
            assert(categories[i + 1] == categories.drop_first()[i]);
        }
        if !(categories.first().id == id && categories.first().user_id == user_id)
            && spec_category_exists(categories, id, user_id) {
            let i = choose|i: int|
                0 <= i < categories.len() && categories[i].id == id && categories[i].user_id
                    == user_id;
            assert(categories.drop_first()[i - 1] == categories[i]);
        }
    }
}

/// Finds the user's account with this id, as the store's lookup would.
pub fn find_account(accounts: &Vec<Account>, id: i32, user_id: i32) -> (r: Option<Account>)
    ensures
        r == spec_find_account(accounts@, id, user_id),
{
    let mut i: usize = 0;
    proof {
        assert(accounts@.skip(0) =~= accounts@);
    }
    while i < accounts.len()
        invariant
            0 <= i <= accounts.len(),
            spec_find_account(accounts@, id, user_id) == spec_find_account(
                accounts@.skip(i as int),
                id,
                user_id,
            ),
        decreases accounts.len() - i,
    {
        proof {
            assert(accounts@.skip(i as int).first() == accounts@[i as int]);
            assert(accounts@.skip(i as int).drop_first() =~= accounts@.skip(i + 1));
        }
        if accounts[i].id == id && accounts[i].user_id == user_id {
            return Some(accounts[i].clone());
        }
        i = i + 1;
    }
    None
}

/// Finds the user's category with this id, as the store's lookup would.
pub fn find_category(categories: &Vec<Category>, id: i32, user_id: i32) -> (r: Option<Category>)
    ensures
        r == spec_find_category(categories@, id, user_id),
{
    let mut i: usize = 0;
    proof {
        assert(categories@.skip(0) =~= categories@);
    }
    while i < categories.len()
        invariant
            0 <= i <= categories.len(),
            spec_find_category(categories@, id, user_id) == spec_find_category(
                categories@.skip(i as int),
                id,
                user_id,
            ),
        decreases categories.len() - i,
    {
        proof {
            assert(categories@.skip(i as int).first() == categories@[i as int]);
            assert(categories@.skip(i as int).drop_first() =~= categories@.skip(i + 1));
        }
        if categories[i].id == id && categories[i].user_id == user_id {
            return Some(categories[i].clone());
        }
        i = i + 1;
    }
    None
}

/// Whether the user owns an account with the given id; the ownership
/// scoping applied before any account reference is accepted.
pub fn account_exists(accounts: &Vec<Account>, id: i32, user_id: i32) -> (r: bool)
    ensures
        r == spec_account_exists(accounts@, id, user_id),
{
    let mut i: usize = 0;
    while i < accounts.len()
        invariant
            0 <= i <= accounts.len(),
            forall|j: int|
                0 <= j < i ==> !(accounts@[j].id == id && accounts@[j].user_id == user_id),
        decreases accounts.len() - i,
    {
        if accounts[i].id == id && accounts[i].user_id == user_id {
            return true;
        }
        i = i + 1;
    }
    false
}

/// Whether the user owns a category with the given id.
pub fn category_exists(categories: &Vec<Category>, id: i32, user_id: i32) -> (r: bool)
    ensures
        r == spec_category_exists(categories@, id, user_id),
{
    let mut i: usize = 0;
    while i < categories.len()
        invariant
            0 <= i <= categories.len(),
            forall|j: int|
                0 <= j < i ==> !(categories@[j].id == id && categories@[j].user_id == user_id),
        decreases categories.len() - i,
    {
        if categories[i].id == id && categories[i].user_id == user_id {
            return true;
        }
        i = i + 1;
    }
    false
}

} // verus!
