//! A single in-memory ledger entry against a named category.

use vstd::prelude::*;
use crate::category::Category;
use crate::dates::Date;

verus! {

#[derive(Debug, Clone)]
pub struct Transaction {
    pub category: Category,
    pub value: i64,
    pub timestamp: Date,
}

impl Transaction {
    pub fn new(category: Category, value: i64, timestamp: Date) -> (r: Transaction)
        ensures
            r.category == category,
            r.value == value,
            r.timestamp == timestamp,
    {
        Transaction { category, value, timestamp }
    }
}

} // verus!
