//! Caller-facing shapes for accounts and categories, and the read-only
//! projections that decorate an account with its computed balance.

use vstd::prelude::*;
use crate::balance::{get_account_balance, spec_account_balance};
use crate::models::{Account, Category, CategoryTypes, Transaction, Transfer};
use crate::models::{find_account, spec_find_account};

verus! {

/// An account as callers read it: with its computed balance.
#[derive(Debug, Clone)]
pub struct GetAccount {
    pub id: i32,
    pub name: String,
    pub balance: i64,
    pub user_id: i32,
}

/// An account as callers read it, in the flat shape of the account list.
#[derive(Debug, Clone)]
pub struct AccountWithBalance {
    pub id: i32,
    pub name: String,
    pub balance: i64,
    pub user_id: i32,
}

/// A caller's payload for creating or renaming an account.
#[derive(Debug, Clone)]
pub struct PostAccount {
    pub name: String,
}

/// An account payload before the owner is attached.
#[derive(Debug, Clone)]
pub struct AccountNoUser {
    pub name: String,
}

/// A caller's payload for creating or editing a category.
#[derive(Debug, Clone)]
pub struct PostCategory {
    pub categorytype: CategoryTypes,
    pub name: String,
}

/// A category payload before the owner is attached.
#[derive(Debug, Clone)]
pub struct CategoryNoUser {
    pub categorytype: CategoryTypes,
    pub name: String,
}

/// The view of one account with its balance over the given rows.
pub open spec fn spec_account_view(
    a: Account,
    transactions: Seq<(Transaction, Category)>,
    transfers_from: Seq<Transfer>,
    transfers_to: Seq<Transfer>,
    user_id: i32,
) -> GetAccount {
    GetAccount {
        id: a.id,
        name: a.name,
        balance: spec_account_balance(
            transactions,
            transfers_from,
            transfers_to,
            a.id,
            user_id,
        ) as i64,
        user_id,
    }
}

/// The user's accounts, each with its balance, in the order given.
pub open spec fn spec_accounts_with_balance(
    accounts: Seq<Account>,
    transactions: Seq<(Transaction, Category)>,
    transfers_from: Seq<Transfer>,
    transfers_to: Seq<Transfer>,
    user_id: i32,
) -> Seq<GetAccount>
    decreases accounts.len(),
{
    if accounts.len() == 0 {
        Seq::empty()
    } else {
        spec_accounts_with_balance(
            accounts.drop_last(),
            transactions,
            transfers_from,
            transfers_to,
            user_id,
        ) + if accounts.last().user_id == user_id {
            seq![
                spec_account_view(
                    accounts.last(),
                    transactions,
                    transfers_from,
                    transfers_to,
                    user_id,
                ),
            ]
        } else {
            Seq::empty()
        }
    }
}

/// The user's account with this id, decorated with its balance over the
/// committed rows the caller loaded; `None` when the user has no such
/// account.
pub fn get_account(
    account_id: i32,
    user_id: i32,
    accounts: &Vec<Account>,
    transactions: &Vec<(Transaction, Category)>,
    transfers_from: &Vec<Transfer>,
    transfers_to: &Vec<Transfer>,
) -> (r: Option<GetAccount>)
    requires
        transactions@.len() <= 0x4000_0000,
        transfers_from@.len() <= 0x4000_0000,
        transfers_to@.len() <= 0x4000_0000,
    ensures
        match r {
            Some(view) => {
                &&& spec_find_account(accounts@, account_id, user_id) is Some
                &&& view == spec_account_view(
                    spec_find_account(accounts@, account_id, user_id).unwrap(),
                    transactions@,
                    transfers_from@,
                    transfers_to@,
                    user_id,
                )
            },
            None => spec_find_account(accounts@, account_id, user_id) is None,
        },
{
    match find_account(accounts, account_id, user_id) {
        Some(account) => {
            let balance = get_account_balance(
                account.id,
                user_id,
                transactions,
                transfers_from,
                transfers_to,
            );
            Some(GetAccount { id: account.id, name: account.name, balance, user_id })
        },
        None => None,
    }
}

/// All the user's accounts, each with its balance over the committed
/// rows the caller loaded.
pub fn get_all_accounts(
    user_id: i32,
    accounts: &Vec<Account>,
    transactions: &Vec<(Transaction, Category)>,
    transfers_from: &Vec<Transfer>,
    transfers_to: &Vec<Transfer>,
) -> (r: Vec<GetAccount>)
    requires
        transactions@.len() <= 0x4000_0000,
        transfers_from@.len() <= 0x4000_0000,
        transfers_to@.len() <= 0x4000_0000,
    ensures
        r@ == spec_accounts_with_balance(
            accounts@,
            transactions@,
            transfers_from@,
            transfers_to@,
            user_id,
        ),
{
    let mut out: Vec<GetAccount> = Vec::new();
    let mut i: usize = 0;
    while i < accounts.len()
        invariant
            0 <= i <= accounts@.len(),
            transactions@.len() <= 0x4000_0000,
            transfers_from@.len() <= 0x4000_0000,
            transfers_to@.len() <= 0x4000_0000,
            out@ == spec_accounts_with_balance(
                accounts@.take(i as int),
                transactions@,
                transfers_from@,
                transfers_to@,
                user_id,
            ),
        decreases accounts.len() - i,
    {
        proof {
            assert(accounts@.take(i + 1).drop_last() =~= accounts@.take(i as int));
            assert(accounts@.take(i + 1).last() == accounts@[i as int]);
        }
        if accounts[i].user_id == user_id {
            let balance = get_account_balance(
                accounts[i].id,
                user_id,
                transactions,
                transfers_from,
                transfers_to,
            );
            out.push(
                GetAccount { id: accounts[i].id, name: accounts[i].name.clone(), balance, user_id },
            );
            proof {
                assert(out@ =~= spec_accounts_with_balance(
                    accounts@.take(i + 1),
                    transactions@,
                    transfers_from@,
                    transfers_to@,
                    user_id,
                ));
            }
        } else {
            proof {
                assert(out@ =~= spec_accounts_with_balance(
                    accounts@.take(i + 1),
                    transactions@,
                    transfers_from@,
                    transfers_to@,
                    user_id,
                ));
            }
        }
        i = i + 1;
    }
    proof {
        assert(accounts@.take(accounts@.len() as int) =~= accounts@);
    }
    out
}

/// All the user's categories, in the order given.
pub fn get_all_categories(user_id: i32, categories: &Vec<Category>) -> (r: Vec<Category>)
    ensures
        r@ == categories@.filter(|c: Category| c.user_id == user_id),
{
    let mut out: Vec<Category> = Vec::new();
    let mut i: usize = 0;
    proof {
        assert(categories@.take(0).filter(|c: Category| c.user_id == user_id) =~= Seq::<
            Category,
        >::empty());
    }
    while i < categories.len()
        invariant
            0 <= i <= categories@.len(),
            out@ == categories@.take(i as int).filter(|c: Category| c.user_id == user_id),
        decreases categories.len() - i,
    {
        proof {
            reveal_with_fuel(Seq::filter, 2);
            assert(categories@.take(i + 1).drop_last() =~= categories@.take(i as int));
            assert(categories@.take(i + 1).last() == categories@[i as int]);
        }
        if categories[i].user_id == user_id {
            out.push(categories[i].clone());
        }
        i = i + 1;
    }
    proof {
        assert(categories@.take(categories@.len() as int) =~= categories@);
    }
    out
}

} // verus!
