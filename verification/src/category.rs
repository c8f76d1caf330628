//! A plain expense/income category with a textual id, and its two-way
//! mapping to the names used on the wire.

use vstd::prelude::*;
use vstd::string::StringExecFns;

verus! {

#[derive(Debug, Copy, Clone, PartialEq, Eq, Structural)]
pub enum CategoryType {
    Expense,
    Income,
}

impl CategoryType {
    /// The wire name of this category type.
    pub open spec fn spec_str(self) -> Seq<char> {
        match self {
            CategoryType::Expense => "Expense"@,
            CategoryType::Income => "Income"@,
        }
    }

    /// The wire name this type is parsed from, if it is one.
    pub open spec fn spec_from_str(s: Seq<char>) -> Option<CategoryType> {
        if s == "Expense"@ {
            Some(CategoryType::Expense)
        } else if s == "Income"@ {
            Some(CategoryType::Income)
        } else {
            None
        }
    }

    pub fn as_str(&self) -> (r: &'static str)
        ensures
            r@ == self.spec_str(),
    {
        match self {
            CategoryType::Expense => "Expense",
            CategoryType::Income => "Income",
        }
    }

    /// Parses a wire name; accepts exactly the two names `as_str`
    /// produces, so the two functions invert each other.
    pub fn from_str(s: &str) -> (r: Option<CategoryType>)
        ensures
            r == Self::spec_from_str(s@),
    {
        let owned = s.to_owned();
        if owned == String::from_str("Expense") {
            Some(CategoryType::Expense)
        } else if owned == String::from_str("Income") {
            Some(CategoryType::Income)
        } else {
            None
        }
    }
}

/// Parsing a type's own wire name gives the type back.
pub proof fn lemma_category_type_round_trip(t: CategoryType)
    ensures
        CategoryType::spec_from_str(t.spec_str()) == Some(t),
{
    reveal_strlit("Expense");
    reveal_strlit("Income");
    assert("Expense"@.len() == 7);
    assert("Income"@.len() == 6);
}

#[derive(Debug, Clone)]
pub struct Category {
    pub category_type: CategoryType,
    pub name: String,
    pub id: String,
}

impl Category {
    /// A category not yet given an id.
    pub fn new(category_type: CategoryType, name: &str) -> (r: Category)
        ensures
            r.category_type == category_type,
            r.name@ == name@,
            r.id@ == Seq::<char>::empty(),
    {
        Category { category_type, name: name.to_owned(), id: String::new() }
    }

    pub fn new_with_id(category_type: CategoryType, name: &str, id: &str) -> (r: Category)
        ensures
            r.category_type == category_type,
            r.name@ == name@,
            r.id@ == id@,
    {
        Category { category_type, name: name.to_owned(), id: id.to_owned() }
    }
}

} // verus!
