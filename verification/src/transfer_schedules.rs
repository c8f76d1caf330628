//! The split-table view of schedules: scheduled transfers kept apart
//! from scheduled transactions, and the unified display row both kinds
//! share.

use vstd::prelude::*;
use crate::dates::Date;
use crate::models::{Account, AppUser, CategoryTypes, RepeatFrequencies};
use crate::models::{find_account, spec_find_account};
use crate::schedule::ObligationError;

verus! {

/// A scheduled transfer kept in its own table.
#[derive(Debug, Clone)]
pub struct ScheduledTransfer {
    pub id: i32,
    pub origin_account_id: i32,
    pub destination_account_id: i32,
    pub value: i32,
    pub description: String,
    pub created_date: Date,
    pub repeat: bool,
    pub repeat_freq: Option<RepeatFrequencies>,
    pub repeat_interval: Option<i32>,
    pub infinite_repeat: Option<bool>,
    pub end_after_repeats: Option<i32>,
    pub current_repeat_count: Option<i32>,
    pub next_date: Option<Date>,
    pub user_id: i32,
}

/// A scheduled transfer as callers read it, its account names resolved.
#[derive(Debug, Clone)]
pub struct GetScheduledTransfer {
    pub id: i32,
    pub origin_account_id: i32,
    pub origin_account_name: String,
    pub destination_account_id: i32,
    pub destination_account_name: String,
    pub value: i32,
    pub description: String,
    pub created_date: Date,
    pub repeat: bool,
    pub repeat_freq: Option<RepeatFrequencies>,
    pub repeat_interval: Option<i32>,
    pub infinite_repeat: Option<bool>,
    pub end_after_repeats: Option<i32>,
    pub current_repeat_count: Option<i32>,
    pub next_date: Option<Date>,
    pub user_id: i32,
}

/// A scheduled transaction as callers read it in the split-table model.
#[derive(Debug, Clone)]
pub struct GetScheduledTransaction {
    pub id: i32,
    pub account_id: i32,
    pub account_name: String,
    pub value: i32,
    pub description: String,
    pub category_id: i32,
    pub category_type: CategoryTypes,
    pub category_name: String,
    pub created_date: Date,
    pub repeat: bool,
    pub repeat_freq: Option<RepeatFrequencies>,
    pub repeat_interval: Option<i32>,
    pub infinite_repeat: Option<bool>,
    pub end_after_repeats: Option<i32>,
    pub current_repeat_count: Option<i32>,
    pub next_date: Option<Date>,
    pub user_id: i32,
}

/// Which table a unified display row came from.
#[derive(Debug, Copy, Clone, PartialEq, Eq, Structural)]
pub enum ScheduledTransactionType {
    Transaction,
    Transfer,
}

/// The unified display row of a scheduled transaction or transfer.
#[derive(Debug, Clone)]
pub struct ScheduledTransactionTransferJoined {
    pub id: i32,
    pub scheduled_type: ScheduledTransactionType,
    pub value: i32,
    pub description: String,
    pub created_date: Date,
    pub account_id: Option<i32>,
    pub account_name: Option<String>,
    pub origin_account_id: Option<i32>,
    pub origin_account_name: Option<String>,
    pub destination_account_id: Option<i32>,
    pub destination_account_name: Option<String>,
    pub category_id: Option<i32>,
    pub category_type: Option<CategoryTypes>,
    pub category_name: Option<String>,
    pub repeat: bool,
    pub repeat_freq: Option<RepeatFrequencies>,
    pub repeat_interval: Option<i32>,
    pub infinite_repeat: Option<bool>,
    pub end_after_repeats: Option<i32>,
    pub current_repeat_count: Option<i32>,
    pub next_date: Option<Date>,
    pub user_id: i32,
}

/// The view of a scheduled transfer once both account names resolve.
pub open spec fn spec_scheduled_transfer_view(
    scheduled_transfer: ScheduledTransfer,
    user: AppUser,
    accounts: Seq<Account>,
) -> GetScheduledTransfer {
    let origin = spec_find_account(
        accounts,
        scheduled_transfer.origin_account_id,
        user.id,
    ).unwrap();
    let destination = spec_find_account(
        accounts,
        scheduled_transfer.destination_account_id,
        user.id,
    ).unwrap();
    GetScheduledTransfer {
        id: scheduled_transfer.id,
        origin_account_id: origin.id,
        origin_account_name: origin.name,
        destination_account_id: destination.id,
        destination_account_name: destination.name,
        value: scheduled_transfer.value,
        description: scheduled_transfer.description,
        created_date: scheduled_transfer.created_date,
        repeat: scheduled_transfer.repeat,
        repeat_freq: scheduled_transfer.repeat_freq,
        repeat_interval: scheduled_transfer.repeat_interval,
        infinite_repeat: scheduled_transfer.infinite_repeat,
        end_after_repeats: scheduled_transfer.end_after_repeats,
        current_repeat_count: scheduled_transfer.current_repeat_count,
        next_date: scheduled_transfer.next_date,
        user_id: user.id,
    }
}

/// Resolves a scheduled transfer's account names for its owner;
/// `NotFound` exactly when either account is no longer the owner's.
pub fn create_scheduled_transfer_join(
    tuple: &(ScheduledTransfer, AppUser),
    accounts: &Vec<Account>,
) -> (r: Result<GetScheduledTransfer, ObligationError>)
    ensures
        r is Ok <==> spec_find_account(accounts@, tuple.0.origin_account_id, tuple.1.id) is Some
            && spec_find_account(accounts@, tuple.0.destination_account_id, tuple.1.id) is Some,
        r is Ok ==> r.unwrap() == spec_scheduled_transfer_view(tuple.0, tuple.1, accounts@),
        r is Err ==> r == Err::<GetScheduledTransfer, ObligationError>(ObligationError::NotFound),
{
    let scheduled_transfer = &tuple.0;
    let app_user = &tuple.1;
    let origin = match find_account(accounts, scheduled_transfer.origin_account_id, app_user.id) {
        Some(a) => a,
        None => {
            return Err(ObligationError::NotFound);
        },
    };
    let destination = match find_account(
        accounts,
        scheduled_transfer.destination_account_id,
        app_user.id,
    ) {
        Some(a) => a,
        None => {
            return Err(ObligationError::NotFound);
        },
    };
    Ok(
        GetScheduledTransfer {
            id: scheduled_transfer.id,
            origin_account_id: origin.id,
            origin_account_name: origin.name,
            destination_account_id: destination.id,
            destination_account_name: destination.name,
            value: scheduled_transfer.value,
            description: scheduled_transfer.description.clone(),
            created_date: scheduled_transfer.created_date,
            repeat: scheduled_transfer.repeat,
            repeat_freq: scheduled_transfer.repeat_freq,
            repeat_interval: scheduled_transfer.repeat_interval,
            infinite_repeat: scheduled_transfer.infinite_repeat,
            end_after_repeats: scheduled_transfer.end_after_repeats,
            current_repeat_count: scheduled_transfer.current_repeat_count,
            next_date: scheduled_transfer.next_date,
            user_id: app_user.id,
        },
    )
}

/// The unified display row of a scheduled transaction.
pub open spec fn spec_transaction_to_joined(
    g: GetScheduledTransaction,
) -> ScheduledTransactionTransferJoined {
    ScheduledTransactionTransferJoined {
        id: g.id,
        scheduled_type: ScheduledTransactionType::Transaction,
        value: g.value,
        description: g.description,
        created_date: g.created_date,
        account_id: Some(g.account_id),
        account_name: Some(g.account_name),
        origin_account_id: None,
        origin_account_name: None,
        destination_account_id: None,
        destination_account_name: None,
        category_id: Some(g.category_id),
        category_type: Some(g.category_type),
        category_name: Some(g.category_name),
        repeat: g.repeat,
        repeat_freq: g.repeat_freq,
        repeat_interval: g.repeat_interval,
        infinite_repeat: g.infinite_repeat,
        end_after_repeats: g.end_after_repeats,
        current_repeat_count: g.current_repeat_count,
        next_date: g.next_date,
        user_id: g.user_id,
    }
}

pub fn get_scheduled_transaction_to_join(
    get_scheduled_transaction: &GetScheduledTransaction,
) -> (r: ScheduledTransactionTransferJoined)
    ensures
        r == spec_transaction_to_joined(*get_scheduled_transaction),
{
    let g = get_scheduled_transaction;
    ScheduledTransactionTransferJoined {
        id: g.id,
        scheduled_type: ScheduledTransactionType::Transaction,
        value: g.value,
        description: g.description.clone(),
        created_date: g.created_date,
        account_id: Some(g.account_id),
        account_name: Some(g.account_name.clone()),
        origin_account_id: None,
        origin_account_name: None,
        destination_account_id: None,
        destination_account_name: None,
        category_id: Some(g.category_id),
        category_type: Some(g.category_type),
        category_name: Some(g.category_name.clone()),
        repeat: g.repeat,
        repeat_freq: g.repeat_freq,
        repeat_interval: g.repeat_interval,
        infinite_repeat: g.infinite_repeat,
        end_after_repeats: g.end_after_repeats,
        current_repeat_count: g.current_repeat_count,
        next_date: g.next_date,
        user_id: g.user_id,
    }
}

/// The unified display row of a scheduled transfer.
pub open spec fn spec_transfer_to_joined(
    g: GetScheduledTransfer,
) -> ScheduledTransactionTransferJoined {
    ScheduledTransactionTransferJoined {
        id: g.id,
        scheduled_type: ScheduledTransactionType::Transfer,
        value: g.value,
        description: g.description,
        created_date: g.created_date,
        account_id: None,
        account_name: None,
        origin_account_id: Some(g.origin_account_id),
        origin_account_name: Some(g.origin_account_name),
        destination_account_id: Some(g.destination_account_id),
        destination_account_name: Some(g.destination_account_name),
        category_id: None,
        category_type: None,
        category_name: None,
        repeat: g.repeat,
        repeat_freq: g.repeat_freq,
        repeat_interval: g.repeat_interval,
        infinite_repeat: g.infinite_repeat,
        end_after_repeats: g.end_after_repeats,
        current_repeat_count: g.current_repeat_count,
        next_date: g.next_date,
        user_id: g.user_id,
    }
}

pub fn get_scheduled_transfer_to_join(
    get_scheduled_transfer: &GetScheduledTransfer,
) -> (r: ScheduledTransactionTransferJoined)
    ensures
        r == spec_transfer_to_joined(*get_scheduled_transfer),
{
    let g = get_scheduled_transfer;
    ScheduledTransactionTransferJoined {
        id: g.id,
        scheduled_type: ScheduledTransactionType::Transfer,
        value: g.value,
        description: g.description.clone(),
        created_date: g.created_date,
        account_id: None,
        account_name: None,
        origin_account_id: Some(g.origin_account_id),
        origin_account_name: Some(g.origin_account_name.clone()),
        destination_account_id: Some(g.destination_account_id),
        destination_account_name: Some(g.destination_account_name.clone()),
        category_id: None,
        category_type: None,
        category_name: None,
        repeat: g.repeat,
        repeat_freq: g.repeat_freq,
        repeat_interval: g.repeat_interval,
        infinite_repeat: g.infinite_repeat,
        end_after_repeats: g.end_after_repeats,
        current_repeat_count: g.current_repeat_count,
        next_date: g.next_date,
        user_id: g.user_id,
    }
}

} // verus!
