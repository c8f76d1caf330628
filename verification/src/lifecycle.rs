//! The obligation lifecycle: creating, editing and paying scheduled
//! obligations. Paying materializes a ledger entry from the payload
//! supplied at pay time, then either retires the schedule (one-shot, or
//! a finite repetition that reached its cap) or advances its counter and
//! recomputes the next due date from the immutable anchor.

use vstd::prelude::*;
use crate::dates::{Date, date_valid};
use crate::models::{
    Account, Category, NewScheduledTransaction, NewTransaction, NewTransfer,
    ScheduledTransaction, ScheduledTransactionKinds, spec_account_exists, spec_category_exists,
};
use crate::models::{account_exists, category_exists};
use crate::recurrence::{
    calculate_next_date, check_next_date_in_range, lemma_next_date_in_range_mono,
    next_date_in_range, spec_next_date,
};
use crate::schedule::{
    ObligationError, PostScheduledTransaction, build_scheduled_transaction,
    lemma_built_schedule_valid, spec_built_schedule, spec_creatable, valid_schedule,
};
use crate::store::{
    DatabaseScheduledTransactions, spec_contains_schedule, spec_index_of_schedule,
    spec_schedule_at, store_contents_inv,
};

verus! {

/// The payload of a pay request. Value, description and date may differ
/// from the stored schedule: a payment can be recorded with another
/// amount or on another day than planned.
#[derive(Debug, Clone)]
pub struct PostScheduledTransactionPay {
    pub value: i32,
    pub description: String,
    pub date: Date,
    pub category_id: Option<i32>,
    pub account_id: Option<i32>,
    pub origin_account_id: Option<i32>,
    pub destination_account_id: Option<i32>,
}

/// The ledger entry a pay asks its caller to commit.
#[derive(Debug, Clone)]
pub enum MaterializedEntry {
    Transaction(NewTransaction),
    Transfer(NewTransfer),
}

/// What happened to the schedule itself: removed for good, or kept with
/// an advanced counter and next date.
#[derive(Debug, Clone)]
pub enum ScheduleAdvance {
    Retired(ScheduledTransaction),
    Advanced(ScheduledTransaction),
}

/// The result of a successful pay transition.
#[derive(Debug, Clone)]
pub struct PayOutcome {
    pub entry: MaterializedEntry,
    pub schedule: ScheduleAdvance,
}

/// The pay payload carries the reference fields the schedule's kind
/// needs, and they resolve among the caller's accounts and categories.
pub open spec fn spec_pay_refs_ok(
    kind: ScheduledTransactionKinds,
    pay: PostScheduledTransactionPay,
    accounts: Seq<Account>,
    categories: Seq<Category>,
    user_id: i32,
) -> bool {
    match kind {
        ScheduledTransactionKinds::Transaction => {
            &&& pay.account_id is Some
            &&& pay.category_id is Some
            &&& spec_account_exists(accounts, pay.account_id.unwrap(), user_id)
            &&& spec_category_exists(categories, pay.category_id.unwrap(), user_id)
        },
        ScheduledTransactionKinds::Transfer => {
            &&& pay.origin_account_id is Some
            &&& pay.destination_account_id is Some
            &&& spec_account_exists(accounts, pay.origin_account_id.unwrap(), user_id)
            &&& spec_account_exists(accounts, pay.destination_account_id.unwrap(), user_id)
        },
    }
}

/// The error a pay with bad references reports: missing payload fields
/// are always `InvalidSchedule`; an unresolved reference is `NotFound`
/// for a transaction schedule but `InvalidSchedule` for a transfer one.
pub open spec fn spec_pay_refs_error(
    kind: ScheduledTransactionKinds,
    pay: PostScheduledTransactionPay,
    accounts: Seq<Account>,
    categories: Seq<Category>,
    user_id: i32,
) -> Option<ObligationError> {
    match kind {
        ScheduledTransactionKinds::Transaction => {
            if pay.account_id is None || pay.category_id is None {
                Some(ObligationError::InvalidSchedule)
            } else if !spec_account_exists(accounts, pay.account_id.unwrap(), user_id) {
                Some(ObligationError::NotFound)
            } else if !spec_category_exists(categories, pay.category_id.unwrap(), user_id) {
                Some(ObligationError::NotFound)
            } else {
                None
            }
        },
        ScheduledTransactionKinds::Transfer => {
            if pay.origin_account_id is None || pay.destination_account_id is None {
                Some(ObligationError::InvalidSchedule)
            } else if !spec_account_exists(accounts, pay.origin_account_id.unwrap(), user_id) {
                Some(ObligationError::InvalidSchedule)
            } else if !spec_account_exists(
                accounts,
                pay.destination_account_id.unwrap(),
                user_id,
            ) {
                Some(ObligationError::InvalidSchedule)
            } else {
                None
            }
        },
    }
}

/// This pay is the schedule's last: it is one-shot, or its counter is
/// about to reach the cap.
pub open spec fn spec_pay_retires(ob: ScheduledTransaction) -> bool {
    ||| !ob.repeat
    ||| (!ob.infinite_repeat.unwrap() && ob.current_repeat_count.unwrap() + 1
        >= ob.end_after_repeats.unwrap())
}

/// Why an advance cannot be taken, if it cannot: the counter has no
/// headroom, or the next occurrence would leave the representable range.
pub open spec fn spec_advance_error(ob: ScheduledTransaction) -> Option<ObligationError> {
    if spec_pay_retires(ob) {
        None
    } else if ob.current_repeat_count.unwrap() == i32::MAX {
        Some(ObligationError::InvalidSchedule)
    } else if !next_date_in_range(
        ob.created_date,
        true,
        ob.repeat_freq.unwrap(),
        ob.repeat_interval.unwrap() as int,
        ob.current_repeat_count.unwrap() + 1,
    ) {
        Some(ObligationError::InvalidSchedule)
    } else {
        None
    }
}

/// The error a pay reports, or `None` when it succeeds. All checks run
/// before anything is materialized or mutated.
pub open spec fn spec_pay_error(
    s: Seq<ScheduledTransaction>,
    id: i32,
    user_id: i32,
    pay: PostScheduledTransactionPay,
    accounts: Seq<Account>,
    categories: Seq<Category>,
) -> Option<ObligationError> {
    if !spec_contains_schedule(s, id, user_id) {
        Some(ObligationError::NotFound)
    } else {
        let ob = spec_schedule_at(s, id, user_id);
        match spec_pay_refs_error(ob.kind, pay, accounts, categories, user_id) {
            Some(e) => Some(e),
            None => spec_advance_error(ob),
        }
    }
}

/// The ledger entry a pay materializes, built from the payload supplied
/// at pay time and scoped to the caller.
pub open spec fn spec_pay_entry(
    ob: ScheduledTransaction,
    pay: PostScheduledTransactionPay,
    user_id: i32,
) -> MaterializedEntry {
    match ob.kind {
        ScheduledTransactionKinds::Transaction => MaterializedEntry::Transaction(
            NewTransaction {
                value: pay.value,
                description: pay.description,
                date: pay.date,
                account: pay.account_id.unwrap(),
                category: pay.category_id.unwrap(),
                user_id,
            },
        ),
        ScheduledTransactionKinds::Transfer => MaterializedEntry::Transfer(
            NewTransfer {
                origin_account: pay.origin_account_id.unwrap(),
                destination_account: pay.destination_account_id.unwrap(),
                value: pay.value,
                description: pay.description,
                date: pay.date,
                user_id,
            },
        ),
    }
}

/// The schedule after one more paid occurrence: the counter moves up by
/// one and the next due date is recomputed from the anchor; nothing else
/// changes.
pub open spec fn spec_advanced_schedule(ob: ScheduledTransaction) -> ScheduledTransaction {
    ScheduledTransaction {
        current_repeat_count: Some((ob.current_repeat_count.unwrap() + 1) as i32),
        next_date: Some(
            spec_next_date(
                ob.created_date,
                true,
                ob.repeat_freq.unwrap(),
                ob.repeat_interval.unwrap() as int,
                ob.current_repeat_count.unwrap() + 1,
            ),
        ),
        ..ob
    }
}

/// The store's contents after a successful pay: the schedule is removed
/// when this pay retires it, advanced in place otherwise.
pub open spec fn spec_pay_new_contents(
    s: Seq<ScheduledTransaction>,
    id: i32,
    user_id: i32,
) -> Seq<ScheduledTransaction> {
    let idx = spec_index_of_schedule(s, id, user_id);
    if spec_pay_retires(s[idx]) {
        s.remove(idx)
    } else {
        s.update(idx, spec_advanced_schedule(s[idx]))
    }
}

/// The value a successful pay returns.
pub open spec fn spec_pay_outcome(
    s: Seq<ScheduledTransaction>,
    id: i32,
    user_id: i32,
    pay: PostScheduledTransactionPay,
) -> PayOutcome {
    let ob = spec_schedule_at(s, id, user_id);
    PayOutcome {
        entry: spec_pay_entry(ob, pay, user_id),
        schedule: if spec_pay_retires(ob) {
            ScheduleAdvance::Retired(ob)
        } else {
            ScheduleAdvance::Advanced(spec_advanced_schedule(ob))
        },
    }
}

/// Pays one occurrence of the schedule with this id, scoped to the
/// caller. On success the returned entry is what the caller must commit
/// to the ledger, and the schedule has been retired or advanced as the
/// returned `ScheduleAdvance` says. On any error the store is untouched
/// and nothing is to be committed: all validation precedes every write.
pub fn pay_scheduled_transaction(
    store: &mut DatabaseScheduledTransactions,
    id: i32,
    pay: &PostScheduledTransactionPay,
    accounts: &Vec<Account>,
    categories: &Vec<Category>,
    user_id: i32,
) -> (r: Result<PayOutcome, ObligationError>)
    requires
        old(store).inv(),
    ensures
        final(store).inv(),
        final(store).spec_next_id() == old(store).spec_next_id(),
        match spec_pay_error(old(store).contents(), id, user_id, *pay, accounts@, categories@) {
            Some(e) => {
                &&& r == Err::<PayOutcome, ObligationError>(e)
                &&& *final(store) == *old(store)
            },
            None => {
                &&& r == Ok::<PayOutcome, ObligationError>(
                    spec_pay_outcome(old(store).contents(), id, user_id, *pay),
                )
                &&& final(store).contents() == spec_pay_new_contents(
                    old(store).contents(),
                    id,
                    user_id,
                )
            },
        },
{
    let ob = match store.get_scheduled_transaction(id, user_id) {
        Ok(ob) => ob,
        Err(e) => {
            return Err(e);
        },
    };
    proof {
        let idx = spec_index_of_schedule(store.contents(), id, user_id);
        assert(valid_schedule(store.contents()[idx]));
    }
    let entry = match ob.kind {
        ScheduledTransactionKinds::Transaction => {
            if pay.account_id.is_none() || pay.category_id.is_none() {
                return Err(ObligationError::InvalidSchedule);
            }
            if !account_exists(accounts, pay.account_id.unwrap(), user_id) {
                return Err(ObligationError::NotFound);
            }
            if !category_exists(categories, pay.category_id.unwrap(), user_id) {
                return Err(ObligationError::NotFound);
            }
            MaterializedEntry::Transaction(
                NewTransaction {
                    value: pay.value,
                    description: pay.description.clone(),
                    date: pay.date,
                    account: pay.account_id.unwrap(),
                    category: pay.category_id.unwrap(),
                    user_id,
                },
            )
        },
        ScheduledTransactionKinds::Transfer => {
            if pay.origin_account_id.is_none() || pay.destination_account_id.is_none() {
                return Err(ObligationError::InvalidSchedule);
            }
            if !account_exists(accounts, pay.origin_account_id.unwrap(), user_id) {
                return Err(ObligationError::InvalidSchedule);
            }
            if !account_exists(accounts, pay.destination_account_id.unwrap(), user_id) {
                return Err(ObligationError::InvalidSchedule);
            }
            MaterializedEntry::Transfer(
                NewTransfer {
                    origin_account: pay.origin_account_id.unwrap(),
                    destination_account: pay.destination_account_id.unwrap(),
                    value: pay.value,
                    description: pay.description.clone(),
                    date: pay.date,
                    user_id,
                },
            )
        },
    };
    if !ob.repeat {
        let removed = store.delete_scheduled_transaction(id, user_id).unwrap();
        return Ok(PayOutcome { entry, schedule: ScheduleAdvance::Retired(removed) });
    }
    let count = ob.current_repeat_count.unwrap();
    let infinite = ob.infinite_repeat.unwrap();
    if !infinite && count + 1 >= ob.end_after_repeats.unwrap() {
        let removed = store.delete_scheduled_transaction(id, user_id).unwrap();
        return Ok(PayOutcome { entry, schedule: ScheduleAdvance::Retired(removed) });
    }
    if infinite && count == i32::MAX {
        return Err(ObligationError::InvalidSchedule);
    }
    let new_count = count + 1;
    let freq = ob.repeat_freq.unwrap();
    let interval = ob.repeat_interval.unwrap();
    if !check_next_date_in_range(&ob.created_date, freq, interval, new_count) {
        return Err(ObligationError::InvalidSchedule);
    }
    let next = calculate_next_date(ob.created_date, true, freq, interval, new_count);
    let draft = NewScheduledTransaction {
        kind: ob.kind,
        value: ob.value,
        description: ob.description.clone(),
        created_date: ob.created_date,
        account_id: ob.account_id,
        category_id: ob.category_id,
        origin_account_id: ob.origin_account_id,
        destination_account_id: ob.destination_account_id,
        repeat: ob.repeat,
        repeat_freq: ob.repeat_freq,
        repeat_interval: ob.repeat_interval,
        infinite_repeat: ob.infinite_repeat,
        end_after_repeats: ob.end_after_repeats,
        current_repeat_count: Some(new_count),
        next_date: Some(next),
        user_id: ob.user_id,
    };
    proof {
        assert(draft.spec_with_id(1) == ScheduledTransaction {
            id: 1,
            ..spec_advanced_schedule(ob)
        });
    }
    let updated = store.update_scheduled_transaction(id, &draft, user_id).unwrap();
    proof {
        assert(draft.spec_with_id(id) == spec_advanced_schedule(ob));
    }
    Ok(PayOutcome { entry, schedule: ScheduleAdvance::Advanced(updated) })
}

/// A one-shot schedule is retired by its single pay: the pay succeeds
/// returning the schedule as retired, the schedule is gone from the
/// store afterwards, and a second pay of the same id reports `NotFound`,
/// whatever payload it brings.
pub proof fn lemma_one_shot_pay_retires(
    s: Seq<ScheduledTransaction>,
    next_id: int,
    id: i32,
    user_id: i32,
    pay: PostScheduledTransactionPay,
    second_pay: PostScheduledTransactionPay,
    accounts: Seq<Account>,
    categories: Seq<Category>,
)
    requires
        store_contents_inv(s, next_id),
        spec_pay_error(s, id, user_id, pay, accounts, categories) is None,
        spec_schedule_at(s, id, user_id).repeat == false,
    ensures
        spec_pay_outcome(s, id, user_id, pay).schedule == ScheduleAdvance::Retired(
            spec_schedule_at(s, id, user_id),
        ),
        !spec_contains_schedule(spec_pay_new_contents(s, id, user_id), id, user_id),
        spec_pay_error(
            spec_pay_new_contents(s, id, user_id),
            id,
            user_id,
            second_pay,
            accounts,
            categories,
        ) == Some(ObligationError::NotFound),
{
    crate::store::lemma_removed_schedule_not_found(s, next_id, id, user_id, user_id);
}

/// The schedule as it stands after `j` paid occurrences: the counter
/// reads `j` and, once any occurrence was paid, the next due date is the
/// `j`-th occurrence computed from the anchor.
pub open spec fn spec_schedule_after_pays(ob: ScheduledTransaction, j: int) -> ScheduledTransaction {
    if j == 0 {
        ob
    } else {
        ScheduledTransaction {
            current_repeat_count: Some(j as i32),
            next_date: Some(
                spec_next_date(
                    ob.created_date,
                    true,
                    ob.repeat_freq.unwrap(),
                    ob.repeat_interval.unwrap() as int,
                    j,
                ),
            ),
            ..ob
        }
    }
}

/// The store's contents after `j` successive successful pays of one id.
pub open spec fn spec_pays_applied(
    s: Seq<ScheduledTransaction>,
    id: i32,
    user_id: i32,
    j: nat,
) -> Seq<ScheduledTransaction>
    decreases j,
{
    if j == 0 {
        s
    } else {
        spec_pay_new_contents(spec_pays_applied(s, id, user_id, (j - 1) as nat), id, user_id)
    }
}

/// A finite repetition with cap `N`, starting unpaid, is retired by
/// exactly its `N`-th pay: after `j < N` pays it is still stored with
/// counter `j` and the next pay succeeds; the `N`-th pay both
/// materializes (it succeeds like the others) and deletes the schedule
/// in the same transition, so after `N` pays the id is gone.
pub proof fn lemma_finite_schedule_retires_at_cap(
    s: Seq<ScheduledTransaction>,
    next_id: int,
    id: i32,
    user_id: i32,
    pay: PostScheduledTransactionPay,
    accounts: Seq<Account>,
    categories: Seq<Category>,
    j: int,
)
    requires
        store_contents_inv(s, next_id),
        spec_contains_schedule(s, id, user_id),
        spec_schedule_at(s, id, user_id).repeat,
        spec_schedule_at(s, id, user_id).infinite_repeat == Some(false),
        spec_schedule_at(s, id, user_id).current_repeat_count == Some(0i32),
        spec_pay_refs_error(
            spec_schedule_at(s, id, user_id).kind,
            pay,
            accounts,
            categories,
            user_id,
        ) is None,
        next_date_in_range(
            spec_schedule_at(s, id, user_id).created_date,
            true,
            spec_schedule_at(s, id, user_id).repeat_freq.unwrap(),
            spec_schedule_at(s, id, user_id).repeat_interval.unwrap() as int,
            spec_schedule_at(s, id, user_id).end_after_repeats.unwrap() as int,
        ),
        0 <= j <= spec_schedule_at(s, id, user_id).end_after_repeats.unwrap(),
    ensures
        j < spec_schedule_at(s, id, user_id).end_after_repeats.unwrap() ==> {
            let t = spec_pays_applied(s, id, user_id, j as nat);
            &&& spec_contains_schedule(t, id, user_id)
            &&& spec_schedule_at(t, id, user_id) == spec_schedule_after_pays(
                spec_schedule_at(s, id, user_id),
                j,
            )
            &&& store_contents_inv(t, next_id)
            &&& spec_pay_error(t, id, user_id, pay, accounts, categories) is None
        },
        j == spec_schedule_at(s, id, user_id).end_after_repeats.unwrap() ==> {
            &&& spec_pay_outcome(
                spec_pays_applied(s, id, user_id, (j - 1) as nat),
                id,
                user_id,
                pay,
            ).schedule is Retired
            &&& !spec_contains_schedule(spec_pays_applied(s, id, user_id, j as nat), id, user_id)
            &&& spec_pay_error(
                spec_pays_applied(s, id, user_id, j as nat),
                id,
                user_id,
                pay,
                accounts,
                categories,
            ) == Some(ObligationError::NotFound)
        },
    decreases j,
{
    let ob = spec_schedule_at(s, id, user_id);
    let cap = ob.end_after_repeats.unwrap() as int;
    let idx0 = spec_index_of_schedule(s, id, user_id);
    assert(valid_schedule(s[idx0]));
    let interval = ob.repeat_interval.unwrap() as int;
    if j == 0 {
        assert(spec_pays_applied(s, id, user_id, 0) == s);
        if j < cap {
            if 1 < cap {
                lemma_next_date_in_range_mono(
                    ob.created_date,
                    ob.repeat_freq.unwrap(),
                    interval,
                    1,
                    cap,
                );
            }
            assert(spec_pay_error(s, id, user_id, pay, accounts, categories) is None);
        }
    } else {
        lemma_finite_schedule_retires_at_cap(
            s,
            next_id,
            id,
            user_id,
            pay,
            accounts,
            categories,
            j - 1,
        );
        let t = spec_pays_applied(s, id, user_id, (j - 1) as nat);
        let prev = spec_schedule_after_pays(ob, j - 1);
        assert(spec_pays_applied(s, id, user_id, j as nat) == spec_pay_new_contents(
            t,
            id,
            user_id,
        ));
        assert(spec_schedule_at(t, id, user_id) == prev);
        let idx = spec_index_of_schedule(t, id, user_id);
        assert(0 <= idx < t.len() && t[idx].id == id && t[idx].user_id == user_id);
        assert(t[idx] == prev);
        if j == cap {
            // the j-th pay retires: the counter reaches the cap
            assert(spec_pay_retires(prev));
            crate::store::lemma_removed_schedule_not_found(t, next_id, id, user_id, user_id);
        } else {
            // the j-th pay advances the counter to j
            assert(!spec_pay_retires(prev));
            let adv = spec_advanced_schedule(prev);
            assert(adv == spec_schedule_after_pays(ob, j));
            crate::store::lemma_schedule_at_update(t, next_id, id, user_id, adv);
            // the advanced schedule is still well-formed
            lemma_next_date_in_range_mono(
                ob.created_date,
                ob.repeat_freq.unwrap(),
                interval,
                j,
                cap,
            );
            crate::recurrence::lemma_next_date_valid(
                ob.created_date,
                ob.repeat_freq.unwrap(),
                interval,
                j,
            );
            assert(valid_schedule(adv));
            let u = t.update(idx, adv);
            assert forall|a: int, b: int|
                0 <= a < b < u.len() implies #[trigger] u[a].id != #[trigger] u[b].id by {
                assert(t[a].id != t[b].id);
            }
            assert(store_contents_inv(u, next_id));
            // and the next pay of it succeeds
            if j + 1 < cap {
                lemma_next_date_in_range_mono(
                    ob.created_date,
                    ob.repeat_freq.unwrap(),
                    interval,
                    j + 1,
                    cap,
                );
            }
            assert(spec_pay_error(u, id, user_id, pay, accounts, categories) is None);
        }
    }
}

/// Creates a scheduled obligation from a caller's payload: validates the
/// payload and its references (scoped to the caller), normalizes the
/// repeat fields, and stores the draft under a fresh id. Fails with
/// `InvalidSchedule` exactly when the payload is not creatable, and with
/// `DependencyFailure` when the store's id space is exhausted; the store
/// is untouched on every error.
pub fn create_scheduled_transaction(
    store: &mut DatabaseScheduledTransactions,
    p: &PostScheduledTransaction,
    accounts: &Vec<Account>,
    categories: &Vec<Category>,
    user_id: i32,
) -> (r: Result<ScheduledTransaction, ObligationError>)
    requires
        old(store).inv(),
    ensures
        final(store).inv(),
        if !spec_creatable(*p, accounts@, categories@, user_id) {
            &&& r == Err::<ScheduledTransaction, ObligationError>(ObligationError::InvalidSchedule)
            &&& *final(store) == *old(store)
        } else if old(store).spec_next_id() < i32::MAX {
            &&& r == Ok::<ScheduledTransaction, ObligationError>(
                spec_built_schedule(*p, user_id).spec_with_id(old(store).spec_next_id() as i32),
            )
            &&& final(store).contents() == old(store).contents().push(
                spec_built_schedule(*p, user_id).spec_with_id(old(store).spec_next_id() as i32),
            )
            &&& final(store).spec_next_id() == old(store).spec_next_id() + 1
            &&& valid_schedule(r.unwrap())
        } else {
            &&& r == Err::<ScheduledTransaction, ObligationError>(
                ObligationError::DependencyFailure,
            )
            &&& *final(store) == *old(store)
        },
{
    match build_scheduled_transaction(p, accounts, categories, user_id) {
        None => Err(ObligationError::InvalidSchedule),
        Some(draft) => {
            proof {
                lemma_built_schedule_valid(*p, accounts@, categories@, user_id, 1);
                if old(store).spec_next_id() < i32::MAX {
                    lemma_built_schedule_valid(
                        *p,
                        accounts@,
                        categories@,
                        user_id,
                        old(store).spec_next_id() as i32,
                    );
                }
            }
            store.new_scheduled_transaction(&draft)
        },
    }
}

/// The count an edit keeps: an already repeating schedule keeps its paid
/// count across the edit; one turned repeating starts at zero; one turned
/// one-shot drops the counter.
pub open spec fn spec_preserved_count(
    p: PostScheduledTransaction,
    existing: ScheduledTransaction,
) -> Option<i32> {
    if p.repeat {
        if existing.repeat {
            existing.current_repeat_count
        } else {
            Some(0)
        }
    } else {
        None
    }
}

/// The schedule an accepted edit stores: the draft built from the
/// payload, with the paid count preserved from the existing schedule.
pub open spec fn spec_edited_schedule(
    p: PostScheduledTransaction,
    existing: ScheduledTransaction,
    user_id: i32,
) -> NewScheduledTransaction {
    NewScheduledTransaction {
        current_repeat_count: spec_preserved_count(p, existing),
        ..spec_built_schedule(p, user_id)
    }
}

/// An edit is accepted when the payload is creatable and, for a finite
/// repetition, its cap still lies strictly above the preserved count.
pub open spec fn spec_editable(
    p: PostScheduledTransaction,
    existing: ScheduledTransaction,
    accounts: Seq<Account>,
    categories: Seq<Category>,
    user_id: i32,
) -> bool {
    &&& spec_creatable(p, accounts, categories, user_id)
    &&& (p.repeat && p.infinite_repeat == Some(false)) ==> p.end_after_repeats.unwrap()
        > spec_preserved_count(p, existing).unwrap()
}

/// Replaces the schedule with this id by one built from the payload,
/// validating as `create` does but preserving the already-paid count.
/// `NotFound` when the caller has no schedule with the id;
/// `InvalidSchedule` when the payload is not acceptable; the store is
/// untouched on every error.
pub fn edit_scheduled_transaction(
    store: &mut DatabaseScheduledTransactions,
    id: i32,
    p: &PostScheduledTransaction,
    accounts: &Vec<Account>,
    categories: &Vec<Category>,
    user_id: i32,
) -> (r: Result<ScheduledTransaction, ObligationError>)
    requires
        old(store).inv(),
    ensures
        final(store).inv(),
        final(store).spec_next_id() == old(store).spec_next_id(),
        if !spec_contains_schedule(old(store).contents(), id, user_id) {
            &&& r == Err::<ScheduledTransaction, ObligationError>(ObligationError::NotFound)
            &&& *final(store) == *old(store)
        } else if !spec_editable(
            *p,
            spec_schedule_at(old(store).contents(), id, user_id),
            accounts@,
            categories@,
            user_id,
        ) {
            &&& r == Err::<ScheduledTransaction, ObligationError>(ObligationError::InvalidSchedule)
            &&& *final(store) == *old(store)
        } else {
            &&& r == Ok::<ScheduledTransaction, ObligationError>(
                spec_edited_schedule(
                    *p,
                    spec_schedule_at(old(store).contents(), id, user_id),
                    user_id,
                ).spec_with_id(id),
            )
            &&& final(store).contents() == old(store).contents().update(
                spec_index_of_schedule(old(store).contents(), id, user_id),
                spec_edited_schedule(
                    *p,
                    spec_schedule_at(old(store).contents(), id, user_id),
                    user_id,
                ).spec_with_id(id),
            )
            &&& valid_schedule(r.unwrap())
        },
{
    let existing = match store.get_scheduled_transaction(id, user_id) {
        Ok(ob) => ob,
        Err(e) => {
            return Err(e);
        },
    };
    proof {
        let idx = spec_index_of_schedule(store.contents(), id, user_id);
        assert(valid_schedule(store.contents()[idx]));
    }
    let draft0 = match build_scheduled_transaction(p, accounts, categories, user_id) {
        None => {
            return Err(ObligationError::InvalidSchedule);
        },
        Some(d) => d,
    };
    let preserved: Option<i32> = if p.repeat {
        if existing.repeat {
            existing.current_repeat_count
        } else {
            Some(0)
        }
    } else {
        None
    };
    let draft = NewScheduledTransaction { current_repeat_count: preserved, ..draft0 };
    if p.repeat && !p.infinite_repeat.unwrap() && draft.end_after_repeats.unwrap()
        <= draft.current_repeat_count.unwrap() {
        return Err(ObligationError::InvalidSchedule);
    }
    proof {
        lemma_built_schedule_valid(*p, accounts@, categories@, user_id, 1);
        assert(valid_schedule(draft.spec_with_id(1)));
    }
    let updated = store.update_scheduled_transaction(id, &draft, user_id).unwrap();
    Ok(updated)
}

} // verus!
