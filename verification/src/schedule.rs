//! The scheduled obligation model: the invariants a stored schedule obeys,
//! the validator that enforces them, and the builder that turns a caller's
//! payload into a well-formed schedule draft.

use vstd::prelude::*;
use crate::dates::{Date, date_valid, get_days_from_month};
use crate::models::{
    Account, Category, NewScheduledTransaction, RepeatFrequencies, ScheduledTransaction,
    ScheduledTransactionKinds, spec_account_exists, spec_category_exists,
};
use crate::models::{account_exists, category_exists};

verus! {

/// The error kinds the library surfaces.
#[derive(Debug, Copy, Clone, PartialEq, Eq, Structural)]
pub enum ObligationError {
    /// The referenced obligation, account or category does not exist or
    /// does not belong to the caller.
    NotFound,
    /// The payload violates the schedule invariants.
    InvalidSchedule,
    /// The store cannot take the write (its id space is exhausted).
    DependencyFailure,
}

/// A caller's payload for creating or replacing a scheduled obligation.
/// `current_repeat_count` and `next_date` are accepted for wire
/// compatibility but ignored: the library derives both.
#[derive(Debug, Clone)]
pub struct PostScheduledTransaction {
    pub kind: ScheduledTransactionKinds,
    pub value: i32,
    pub description: Option<String>,
    pub created_date: Date,
    pub account_id: Option<i32>,
    pub category_id: Option<i32>,
    pub origin_account_id: Option<i32>,
    pub destination_account_id: Option<i32>,
    pub repeat: bool,
    pub repeat_freq: Option<RepeatFrequencies>,
    pub repeat_interval: Option<i32>,
    pub infinite_repeat: Option<bool>,
    pub end_after_repeats: Option<i32>,
    pub current_repeat_count: Option<i32>,
    pub next_date: Option<Date>,
}

pub type PatchScheduledTransaction = PostScheduledTransaction;

/// The invariants of a stored scheduled obligation:
/// - a non-repeating schedule carries no repeat fields and is due at its
///   anchor date;
/// - a repeating one carries frequency, a positive interval, the infinite
///   flag and a non-negative counter, and a finite one keeps its cap
///   strictly above the counter;
/// - exactly the payload fields of its kind are present, and a transfer
///   never moves money from an account to itself.
pub open spec fn valid_schedule(s: ScheduledTransaction) -> bool {
    &&& date_valid(s.created_date)
    &&& match s.kind {
        ScheduledTransactionKinds::Transaction => {
            &&& s.account_id is Some
            &&& s.category_id is Some
            &&& s.origin_account_id is None
            &&& s.destination_account_id is None
        },
        ScheduledTransactionKinds::Transfer => {
            &&& s.origin_account_id is Some
            &&& s.destination_account_id is Some
            &&& s.origin_account_id != s.destination_account_id
            &&& s.account_id is None
            &&& s.category_id is None
        },
    }
    &&& if s.repeat {
        &&& s.repeat_freq is Some
        &&& s.repeat_interval is Some
        &&& s.repeat_interval.unwrap() >= 1
        &&& s.infinite_repeat is Some
        &&& s.current_repeat_count is Some
        &&& s.current_repeat_count.unwrap() >= 0
        &&& if s.infinite_repeat.unwrap() {
            s.end_after_repeats is None
        } else {
            &&& s.end_after_repeats is Some
            &&& s.end_after_repeats.unwrap() > s.current_repeat_count.unwrap()
        }
        &&& s.next_date is Some
        &&& date_valid(s.next_date.unwrap())
    } else {
        &&& s.repeat_freq is None
        &&& s.repeat_interval is None
        &&& s.infinite_repeat is None
        &&& s.end_after_repeats is None
        &&& s.current_repeat_count is None
        &&& s.next_date == Some(s.created_date)
    }
}

/// Executable check that a date lies in the supported range.
pub fn check_date_valid(d: &Date) -> (r: bool)
    ensures
        r == date_valid(*d),
{
    if d.year >= 0 && 1 <= d.month && d.month <= 12 {
        let dim = get_days_from_month(d.year, d.month as u32);
        1 <= d.day && (d.day as i64) <= dim
    } else {
        false
    }
}

/// What validating a schedule reports: acceptance exactly of the
/// well-formed ones, `InvalidSchedule` for every other.
pub open spec fn spec_validate(s: ScheduledTransaction) -> Result<(), ObligationError> {
    if valid_schedule(s) {
        Ok(())
    } else {
        Err(ObligationError::InvalidSchedule)
    }
}

/// Validates a scheduled obligation against the invariants; accepts
/// exactly the well-formed ones. A schedule this function accepts is
/// never rejected when validated again.
pub fn validate_scheduled_transaction(s: &ScheduledTransaction) -> (r: Result<
    (),
    ObligationError,
>)
    ensures
        r == spec_validate(*s),
        r is Ok <==> valid_schedule(*s),
{
    if !check_date_valid(&s.created_date) {
        return Err(ObligationError::InvalidSchedule);
    }
    let kind_ok: bool = match s.kind {
        ScheduledTransactionKinds::Transaction => {
            s.account_id.is_some() && s.category_id.is_some() && s.origin_account_id.is_none()
                && s.destination_account_id.is_none()
        },
        ScheduledTransactionKinds::Transfer => {
            s.origin_account_id.is_some() && s.destination_account_id.is_some()
                && s.origin_account_id != s.destination_account_id && s.account_id.is_none()
                && s.category_id.is_none()
        },
    };
    if !kind_ok {
        return Err(ObligationError::InvalidSchedule);
    }
    if s.repeat {
        if s.repeat_freq.is_none() {
            return Err(ObligationError::InvalidSchedule);
        }
        if s.repeat_interval.is_none() {
            return Err(ObligationError::InvalidSchedule);
        }
        if s.repeat_interval.unwrap() < 1 {
            return Err(ObligationError::InvalidSchedule);
        }
        if s.infinite_repeat.is_none() {
            return Err(ObligationError::InvalidSchedule);
        }
        if s.current_repeat_count.is_none() {
            return Err(ObligationError::InvalidSchedule);
        }
        if s.current_repeat_count.unwrap() < 0 {
            return Err(ObligationError::InvalidSchedule);
        }
        if s.infinite_repeat.unwrap() {
            if s.end_after_repeats.is_some() {
                return Err(ObligationError::InvalidSchedule);
            }
        } else {
            if s.end_after_repeats.is_none() {
                return Err(ObligationError::InvalidSchedule);
            }
            if s.end_after_repeats.unwrap() <= s.current_repeat_count.unwrap() {
                return Err(ObligationError::InvalidSchedule);
            }
        }
        match s.next_date {
            Some(next) => {
                if !check_date_valid(&next) {
                    return Err(ObligationError::InvalidSchedule);
                }
            },
            None => {
                return Err(ObligationError::InvalidSchedule);
            },
        }
    } else {
        if s.repeat_freq.is_some() || s.repeat_interval.is_some() || s.infinite_repeat.is_some()
            || s.end_after_repeats.is_some() || s.current_repeat_count.is_some() {
            return Err(ObligationError::InvalidSchedule);
        }
        match s.next_date {
            Some(next) => {
                if !(next == s.created_date) {
                    return Err(ObligationError::InvalidSchedule);
                }
            },
            None => {
                return Err(ObligationError::InvalidSchedule);
            },
        }
    }
    Ok(())
}

/// Validating an already-valid schedule never reports `InvalidSchedule`:
/// the validator accepts every schedule that satisfies the invariants.
pub proof fn lemma_validation_idempotent(s: ScheduledTransaction)
    requires
        valid_schedule(s),
    ensures
        spec_validate(s) is Ok,
{
}

/// The payload fields a creation or edit must bring, and the references
/// it must be able to resolve among the caller's own accounts and
/// categories. This is exactly the condition under which `create` and
/// `edit` accept.
pub open spec fn spec_creatable(
    p: PostScheduledTransaction,
    accounts: Seq<Account>,
    categories: Seq<Category>,
    user_id: i32,
) -> bool {
    &&& date_valid(p.created_date)
    &&& p.repeat ==> {
        &&& p.repeat_freq is Some
        &&& p.repeat_interval is Some
        &&& p.repeat_interval.unwrap() >= 1
        &&& p.infinite_repeat is Some
        &&& !p.infinite_repeat.unwrap() ==> {
            &&& p.end_after_repeats is Some
            &&& p.end_after_repeats.unwrap() > 0
        }
    }
    &&& match p.kind {
        ScheduledTransactionKinds::Transaction => {
            &&& p.account_id is Some
            &&& spec_account_exists(accounts, p.account_id.unwrap(), user_id)
            &&& p.category_id is Some
            &&& spec_category_exists(categories, p.category_id.unwrap(), user_id)
        },
        ScheduledTransactionKinds::Transfer => {
            &&& p.origin_account_id is Some
            &&& spec_account_exists(accounts, p.origin_account_id.unwrap(), user_id)
            &&& p.destination_account_id is Some
            &&& spec_account_exists(accounts, p.destination_account_id.unwrap(), user_id)
            &&& p.origin_account_id != p.destination_account_id
        },
    }
}

/// The schedule draft a creatable payload becomes: repeat fields are
/// dropped for one-shot schedules, the cap is cleared when the repetition
/// is infinite, the counter starts at zero, and the first due date is the
/// anchor itself.
pub open spec fn spec_built_schedule(
    p: PostScheduledTransaction,
    user_id: i32,
) -> NewScheduledTransaction {
    NewScheduledTransaction {
        kind: p.kind,
        value: p.value,
        description: p.description,
        created_date: p.created_date,
        account_id: if p.kind is Transaction {
            p.account_id
        } else {
            None
        },
        category_id: if p.kind is Transaction {
            p.category_id
        } else {
            None
        },
        origin_account_id: if p.kind is Transfer {
            p.origin_account_id
        } else {
            None
        },
        destination_account_id: if p.kind is Transfer {
            p.destination_account_id
        } else {
            None
        },
        repeat: p.repeat,
        repeat_freq: if p.repeat {
            p.repeat_freq
        } else {
            None
        },
        repeat_interval: if p.repeat {
            p.repeat_interval
        } else {
            None
        },
        infinite_repeat: if p.repeat {
            p.infinite_repeat
        } else {
            None
        },
        end_after_repeats: if p.repeat && p.infinite_repeat == Some(false) {
            p.end_after_repeats
        } else {
            None
        },
        current_repeat_count: if p.repeat {
            Some(0)
        } else {
            None
        },
        next_date: Some(p.created_date),
        user_id,
    }
}

/// A draft built from a creatable payload satisfies the schedule
/// invariants, whatever id the store later assigns it.
pub proof fn lemma_built_schedule_valid(
    p: PostScheduledTransaction,
    accounts: Seq<Account>,
    categories: Seq<Category>,
    user_id: i32,
    id: i32,
)
    requires
        spec_creatable(p, accounts, categories, user_id),
    ensures
        valid_schedule(spec_built_schedule(p, user_id).spec_with_id(id)),
{
}

/// A schedule built from a creatable payload passes validation under
/// whatever id the store assigns: creation never stores a schedule that
/// a later validation would reject.
pub proof fn lemma_created_schedule_validates(
    p: PostScheduledTransaction,
    accounts: Seq<Account>,
    categories: Seq<Category>,
    user_id: i32,
    id: i32,
)
    requires
        spec_creatable(p, accounts, categories, user_id),
    ensures
        spec_validate(spec_built_schedule(p, user_id).spec_with_id(id)) is Ok,
{
    lemma_built_schedule_valid(p, accounts, categories, user_id, id);
}

/// Builds the schedule draft for a creation or edit: checks the payload
/// fields and the referenced accounts and categories (scoped to the
/// caller), and normalizes the repeat fields. Returns the draft exactly
/// when the payload is creatable, mirroring `spec_built_schedule`.
pub fn build_scheduled_transaction(
    p: &PostScheduledTransaction,
    accounts: &Vec<Account>,
    categories: &Vec<Category>,
    user_id: i32,
) -> (r: Option<NewScheduledTransaction>)
    ensures
        r is Some <==> spec_creatable(*p, accounts@, categories@, user_id),
        r is Some ==> r.unwrap() == spec_built_schedule(*p, user_id),
{
    if !check_date_valid(&p.created_date) {
        return None;
    }
    let mut repeat_freq: Option<RepeatFrequencies> = None;
    let mut repeat_interval: Option<i32> = None;
    let mut infinite_repeat: Option<bool> = None;
    let mut end_after_repeats: Option<i32> = None;
    let mut current_repeat_count: Option<i32> = None;
    if p.repeat {
        if p.repeat_freq.is_none() {
            return None;
        }
        repeat_freq = p.repeat_freq;
        if p.repeat_interval.is_none() {
            return None;
        }
        if p.repeat_interval.unwrap() < 1 {
            return None;
        }
        repeat_interval = p.repeat_interval;
        if p.infinite_repeat.is_none() {
            return None;
        }
        infinite_repeat = p.infinite_repeat;
        if p.infinite_repeat.unwrap() {
            end_after_repeats = None;
        } else {
            if p.end_after_repeats.is_none() {
                return None;
            }
            if p.end_after_repeats.unwrap() <= 0 {
                return None;
            }
            end_after_repeats = p.end_after_repeats;
        }
        current_repeat_count = Some(0);
    }
    let mut account_id: Option<i32> = None;
    let mut category_id: Option<i32> = None;
    let mut origin_account_id: Option<i32> = None;
    let mut destination_account_id: Option<i32> = None;
    match p.kind {
        ScheduledTransactionKinds::Transaction => {
            if p.account_id.is_none() {
                return None;
            }
            if !account_exists(accounts, p.account_id.unwrap(), user_id) {
                return None;
            }
            if p.category_id.is_none() {
                return None;
            }
            if !category_exists(categories, p.category_id.unwrap(), user_id) {
                return None;
            }
            account_id = p.account_id;
            category_id = p.category_id;
        },
        ScheduledTransactionKinds::Transfer => {
            if p.origin_account_id.is_none() {
                return None;
            }
            if !account_exists(accounts, p.origin_account_id.unwrap(), user_id) {
                return None;
            }
            if p.destination_account_id.is_none() {
                return None;
            }
            if !account_exists(accounts, p.destination_account_id.unwrap(), user_id) {
                return None;
            }
            if p.destination_account_id.unwrap() == p.origin_account_id.unwrap() {
                return None;
            }
            origin_account_id = p.origin_account_id;
            destination_account_id = p.destination_account_id;
        },
    }
    Some(
        NewScheduledTransaction {
            kind: p.kind,
            value: p.value,
            description: p.description.clone(),
            created_date: p.created_date,
            account_id,
            category_id,
            origin_account_id,
            destination_account_id,
            repeat: p.repeat,
            repeat_freq,
            repeat_interval,
            infinite_repeat,
            end_after_repeats,
            current_repeat_count,
            next_date: Some(p.created_date),
            user_id,
        },
    )
}

} // verus!
