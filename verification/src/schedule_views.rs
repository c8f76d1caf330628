//! The caller-facing view of a scheduled obligation, with its account
//! and category names resolved, and the listing that returns a user's
//! schedules newest first.

use vstd::prelude::*;
use vstd::multiset::Multiset;
use crate::dates::{Date, date_le, date_on_or_before};
use crate::models::{
    Account, Category, CategoryTypes, RepeatFrequencies, ScheduledTransaction,
    ScheduledTransactionKinds,
};
use crate::models::{find_account, find_category, spec_find_account, spec_find_category};
use crate::store::{DatabaseScheduledTransactions, spec_user_schedules};

verus! {

/// A scheduled obligation as callers read it: the payload of its kind,
/// with the referenced names resolved.
#[derive(Debug, Clone)]
pub struct GetScheduledTransaction {
    pub id: i32,
    pub kind: ScheduledTransactionKinds,
    pub value: i32,
    pub description: Option<String>,
    pub created_date: Date,
    pub account_id: Option<i32>,
    pub account_name: Option<String>,
    pub category_id: Option<i32>,
    pub category_type: Option<CategoryTypes>,
    pub category_name: Option<String>,
    pub origin_account_id: Option<i32>,
    pub origin_account_name: Option<String>,
    pub destination_account_id: Option<i32>,
    pub destination_account_name: Option<String>,
    pub repeat: bool,
    pub repeat_freq: Option<RepeatFrequencies>,
    pub repeat_interval: Option<i32>,
    pub infinite_repeat: Option<bool>,
    pub end_after_repeats: Option<i32>,
    pub current_repeat_count: Option<i32>,
    pub next_date: Option<Date>,
    pub user_id: i32,
}

/// The schedule's references are present and resolve among the owner's
/// accounts and categories; the condition under which the view exists.
pub open spec fn spec_join_ok(
    s: ScheduledTransaction,
    accounts: Seq<Account>,
    categories: Seq<Category>,
) -> bool {
    match s.kind {
        ScheduledTransactionKinds::Transaction => {
            &&& s.account_id is Some
            &&& s.category_id is Some
            &&& spec_find_account(accounts, s.account_id.unwrap(), s.user_id) is Some
            &&& spec_find_category(categories, s.category_id.unwrap(), s.user_id) is Some
        },
        ScheduledTransactionKinds::Transfer => {
            &&& s.origin_account_id is Some
            &&& s.destination_account_id is Some
            &&& spec_find_account(accounts, s.origin_account_id.unwrap(), s.user_id) is Some
            &&& spec_find_account(accounts, s.destination_account_id.unwrap(), s.user_id) is Some
        },
    }
}

/// The view of one schedule, its names resolved per its kind.
pub open spec fn spec_scheduled_join(
    s: ScheduledTransaction,
    accounts: Seq<Account>,
    categories: Seq<Category>,
) -> GetScheduledTransaction {
    let base = GetScheduledTransaction {
        id: s.id,
        kind: s.kind,
        value: s.value,
        description: s.description,
        created_date: s.created_date,
        account_id: None,
        account_name: None,
        category_id: None,
        category_type: None,
        category_name: None,
        origin_account_id: None,
        origin_account_name: None,
        destination_account_id: None,
        destination_account_name: None,
        repeat: s.repeat,
        repeat_freq: s.repeat_freq,
        repeat_interval: s.repeat_interval,
        infinite_repeat: s.infinite_repeat,
        end_after_repeats: s.end_after_repeats,
        current_repeat_count: s.current_repeat_count,
        next_date: s.next_date,
        user_id: s.user_id,
    };
    match s.kind {
        ScheduledTransactionKinds::Transaction => {
            let account = spec_find_account(accounts, s.account_id.unwrap(), s.user_id).unwrap();
            let category = spec_find_category(
                categories,
                s.category_id.unwrap(),
                s.user_id,
            ).unwrap();
            GetScheduledTransaction {
                account_id: Some(account.id),
                account_name: Some(account.name),
                category_id: Some(category.id),
                category_type: Some(category.categorytype),
                category_name: Some(category.name),
                ..base
            }
        },
        ScheduledTransactionKinds::Transfer => {
            let origin = spec_find_account(
                accounts,
                s.origin_account_id.unwrap(),
                s.user_id,
            ).unwrap();
            let destination = spec_find_account(
                accounts,
                s.destination_account_id.unwrap(),
                s.user_id,
            ).unwrap();
            GetScheduledTransaction {
                origin_account_id: Some(origin.id),
                origin_account_name: Some(origin.name),
                destination_account_id: Some(destination.id),
                destination_account_name: Some(destination.name),
                ..base
            }
        },
    }
}

/// Resolves a schedule's references into its caller-facing view;
/// `None` exactly when a reference is missing or not the owner's.
pub fn create_scheduled_transaction_join(
    scheduled_transaction: &ScheduledTransaction,
    accounts: &Vec<Account>,
    categories: &Vec<Category>,
) -> (r: Option<GetScheduledTransaction>)
    ensures
        r is Some <==> spec_join_ok(*scheduled_transaction, accounts@, categories@),
        r is Some ==> r.unwrap() == spec_scheduled_join(
            *scheduled_transaction,
            accounts@,
            categories@,
        ),
{
    let s = scheduled_transaction;
    match s.kind {
        ScheduledTransactionKinds::Transaction => {
            if s.account_id.is_none() || s.category_id.is_none() {
                return None;
            }
            let account = match find_account(accounts, s.account_id.unwrap(), s.user_id) {
                Some(a) => a,
                None => {
                    return None;
                },
            };
            let category = match find_category(categories, s.category_id.unwrap(), s.user_id) {
                Some(c) => c,
                None => {
                    return None;
                },
            };
            Some(
                GetScheduledTransaction {
                    id: s.id,
                    kind: s.kind,
                    value: s.value,
                    description: s.description.clone(),
                    created_date: s.created_date,
                    account_id: Some(account.id),
                    account_name: Some(account.name),
                    category_id: Some(category.id),
                    category_type: Some(category.categorytype),
                    category_name: Some(category.name),
                    origin_account_id: None,
                    origin_account_name: None,
                    destination_account_id: None,
                    destination_account_name: None,
                    repeat: s.repeat,
                    repeat_freq: s.repeat_freq,
                    repeat_interval: s.repeat_interval,
                    infinite_repeat: s.infinite_repeat,
                    end_after_repeats: s.end_after_repeats,
                    current_repeat_count: s.current_repeat_count,
                    next_date: s.next_date,
                    user_id: s.user_id,
                },
            )
        },
        ScheduledTransactionKinds::Transfer => {
            if s.origin_account_id.is_none() || s.destination_account_id.is_none() {
                return None;
            }
            let origin = match find_account(accounts, s.origin_account_id.unwrap(), s.user_id) {
                Some(a) => a,
                None => {
                    return None;
                },
            };
            let destination = match find_account(
                accounts,
                s.destination_account_id.unwrap(),
                s.user_id,
            ) {
                Some(a) => a,
                None => {
                    return None;
                },
            };
            Some(
                GetScheduledTransaction {
                    id: s.id,
                    kind: s.kind,
                    value: s.value,
                    description: s.description.clone(),
                    created_date: s.created_date,
                    account_id: None,
                    account_name: None,
                    category_id: None,
                    category_type: None,
                    category_name: None,
                    origin_account_id: Some(origin.id),
                    origin_account_name: Some(origin.name),
                    destination_account_id: Some(destination.id),
                    destination_account_name: Some(destination.name),
                    repeat: s.repeat,
                    repeat_freq: s.repeat_freq,
                    repeat_interval: s.repeat_interval,
                    infinite_repeat: s.infinite_repeat,
                    end_after_repeats: s.end_after_repeats,
                    current_repeat_count: s.current_repeat_count,
                    next_date: s.next_date,
                    user_id: s.user_id,
                },
            )
        },
    }
}

/// The views of these schedules, in order; `None` when any schedule's
/// references no longer resolve.
pub open spec fn spec_joined_list(
    items: Seq<ScheduledTransaction>,
    accounts: Seq<Account>,
    categories: Seq<Category>,
) -> Option<Seq<GetScheduledTransaction>>
    decreases items.len(),
{
    if items.len() == 0 {
        Some(Seq::empty())
    } else {
        match spec_joined_list(items.drop_last(), accounts, categories) {
            None => None,
            Some(pre) => {
                if spec_join_ok(items.last(), accounts, categories) {
                    Some(pre.push(spec_scheduled_join(items.last(), accounts, categories)))
                } else {
                    None
                }
            },
        }
    }
}

/// The views stand in non-ascending order of creation date: the newest
/// schedules come first.
pub open spec fn spec_sorted_newest_first(views: Seq<GetScheduledTransaction>) -> bool {
    forall|i: int, j: int|
        0 <= i < j < views.len() ==> date_le(
            #[trigger] views[j].created_date,
            #[trigger] views[i].created_date,
        )
}

/// The position of a view whose creation date is latest.
fn max_created_date_index(views: &Vec<GetScheduledTransaction>) -> (r: usize)
    requires
        views@.len() > 0,
    ensures
        0 <= r < views@.len(),
        forall|j: int|
            0 <= j < views@.len() ==> date_le(
                #[trigger] views@[j].created_date,
                views@[r as int].created_date,
            ),
{
    let mut best: usize = 0;
    let mut i: usize = 1;
    while i < views.len()
        invariant
            0 <= best < i <= views@.len(),
            forall|j: int|
                0 <= j < i ==> date_le(
                    #[trigger] views@[j].created_date,
                    views@[best as int].created_date,
                ),
        decreases views.len() - i,
    {
        if !date_on_or_before(&views[i].created_date, &views[best].created_date) {
            proof {
                crate::dates::lemma_date_le_total(
                    views@[i as int].created_date,
                    views@[best as int].created_date,
                );
                assert forall|j: int|
                    0 <= j < i + 1 implies date_le(
                    #[trigger] views@[j].created_date,
                    views@[i as int].created_date,
                ) by {
                    if j < i {
                        crate::dates::lemma_date_le_trans(
                            views@[j].created_date,
                            views@[best as int].created_date,
                            views@[i as int].created_date,
                        );
                    }
                }
            }
            best = i;
        }
        i = i + 1;
    }
    best
}

/// Reorders the views newest first; the same views, rearranged.
fn sort_views_newest_first(views: Vec<GetScheduledTransaction>) -> (r: Vec<
    GetScheduledTransaction,
>)
    ensures
        r@.to_multiset() == views@.to_multiset(),
        spec_sorted_newest_first(r@),
{
    let mut remaining = views;
    let ghost orig = remaining@;
    let mut out: Vec<GetScheduledTransaction> = Vec::new();
    proof {
        broadcast use vstd::multiset::group_multiset_axioms;

        assert forall|x: GetScheduledTransaction| out@.to_multiset().count(x) == 0 by {
            vstd::seq_lib::to_multiset_contains(out@, x);
        }
        assert(out@.to_multiset() =~= Multiset::<GetScheduledTransaction>::empty());
        assert(out@.to_multiset().add(remaining@.to_multiset()) =~= orig.to_multiset());
    }
    while remaining.len() > 0
        invariant
            out@.to_multiset().add(remaining@.to_multiset()) == orig.to_multiset(),
            spec_sorted_newest_first(out@),
            forall|i: int, j: int|
                0 <= i < out@.len() && 0 <= j < remaining@.len() ==> date_le(
                    #[trigger] remaining@[j].created_date,
                    #[trigger] out@[i].created_date,
                ),
        decreases remaining.len(),
    {
        let k = max_created_date_index(&remaining);
        let ghost old_rem = remaining@;
        let picked = remaining.remove(k);
        let ghost before = out@;
        out.push(picked);
        proof {
            broadcast use vstd::multiset::group_multiset_axioms;

            vstd::seq_lib::to_multiset_build(before, picked);
            vstd::seq_lib::to_multiset_remove(old_rem, k as int);
            vstd::seq_lib::to_multiset_contains(old_rem, picked);
            assert(out@ == before.push(picked));
            assert(remaining@ == old_rem.remove(k as int));
            assert(old_rem[k as int] == picked);
            assert(old_rem.contains(picked));
            assert(out@.to_multiset().add(remaining@.to_multiset()) =~= orig.to_multiset());
            assert forall|i: int, j: int|
                0 <= i < j < out@.len() implies date_le(
                #[trigger] out@[j].created_date,
                #[trigger] out@[i].created_date,
            ) by {
                if j < out@.len() - 1 {
                    assert(date_le(before[j].created_date, before[i].created_date));
                }
            }
        }
    }
    proof {
        broadcast use vstd::multiset::group_multiset_axioms;

        vstd::seq_lib::to_multiset_len(remaining@);
        assert(out@.to_multiset() =~= orig.to_multiset());
    }
    out
}

/// All the user's schedules as caller-facing views, newest first;
/// `None` when any schedule's references no longer resolve.
pub fn get_all_scheduled_transactions(
    store: &DatabaseScheduledTransactions,
    user_id: i32,
    accounts: &Vec<Account>,
    categories: &Vec<Category>,
) -> (r: Option<Vec<GetScheduledTransaction>>)
    requires
        store.inv(),
    ensures
        r is None ==> spec_joined_list(
            spec_user_schedules(store.contents(), user_id),
            accounts@,
            categories@,
        ) is None,
        r is Some ==> spec_joined_list(
            spec_user_schedules(store.contents(), user_id),
            accounts@,
            categories@,
        ) is Some,
        r is Some ==> {
            &&& r.unwrap()@.to_multiset() == spec_joined_list(
                spec_user_schedules(store.contents(), user_id),
                accounts@,
                categories@,
            ).unwrap().to_multiset()
            &&& spec_sorted_newest_first(r.unwrap()@)
        },
{
    let items = store.get_all_scheduled_transactions(user_id);
    let ghost filtered = spec_user_schedules(store.contents(), user_id);
    let mut views: Vec<GetScheduledTransaction> = Vec::new();
    let mut i: usize = 0;
    proof {
        assert(filtered.take(0) =~= Seq::<ScheduledTransaction>::empty());
    }
    while i < items.len()
        invariant
            0 <= i <= items@.len(),
            items@ == filtered,
            filtered == spec_user_schedules(store.contents(), user_id),
            spec_joined_list(filtered.take(i as int), accounts@, categories@) == Some(views@),
        decreases items.len() - i,
    {
        proof {
            assert(filtered.take(i + 1).drop_last() =~= filtered.take(i as int));
            assert(filtered.take(i + 1).last() == filtered[i as int]);
        }
        match create_scheduled_transaction_join(&items[i], accounts, categories) {
            Some(view) => {
                views.push(view);
            },
            None => {
                proof {
                    lemma_joined_list_prefix_none(filtered, i + 1, accounts@, categories@);
                }
                return None;
            },
        }
        i = i + 1;
    }
    proof {
        assert(filtered.take(filtered.len() as int) =~= filtered);
    }
    Some(sort_views_newest_first(views))
}

/// Once a prefix of the list fails to join, the whole list does.
proof fn lemma_joined_list_prefix_none(
    items: Seq<ScheduledTransaction>,
    n: int,
    accounts: Seq<Account>,
    categories: Seq<Category>,
)
    requires
        0 <= n <= items.len(),
        spec_joined_list(items.take(n), accounts, categories) is None,
    ensures
        spec_joined_list(items, accounts, categories) is None,
    decreases items.len() - n,
{
    if n < items.len() {
        assert(items.take(n + 1).drop_last() =~= items.take(n));
        lemma_joined_list_prefix_none(items, n + 1, accounts, categories);
    } else {
        assert(items.take(n) =~= items);
    }
}

} // verus!
