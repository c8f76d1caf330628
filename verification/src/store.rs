//! The scheduled-obligation store: a keyed collection of well-formed
//! schedules, scoped by owner on every access. It assigns ids serially,
//! so every stored schedule keeps a unique id.

use vstd::prelude::*;
use vstd::pervasive::VecAdditionalExecFns;
use crate::models::{NewScheduledTransaction, ScheduledTransaction};
use crate::schedule::{ObligationError, valid_schedule};

verus! {

/// A schedule with this id, owned by this user, is in the sequence.
pub open spec fn spec_contains_schedule(
    s: Seq<ScheduledTransaction>,
    id: i32,
    user_id: i32,
) -> bool {
    exists|i: int| 0 <= i < s.len() && s[i].id == id && s[i].user_id == user_id
}

/// The position of the schedule with this id and owner.
pub open spec fn spec_index_of_schedule(
    s: Seq<ScheduledTransaction>,
    id: i32,
    user_id: i32,
) -> int {
    choose|i: int| 0 <= i < s.len() && s[i].id == id && s[i].user_id == user_id
}

/// The stored schedule with this id and owner.
pub open spec fn spec_schedule_at(
    s: Seq<ScheduledTransaction>,
    id: i32,
    user_id: i32,
) -> ScheduledTransaction {
    s[spec_index_of_schedule(s, id, user_id)]
}

/// The schedules of this user, in their stored order.
pub open spec fn spec_user_schedules(
    s: Seq<ScheduledTransaction>,
    user_id: i32,
) -> Seq<ScheduledTransaction>
    decreases s.len(),
{
    if s.len() == 0 {
        Seq::empty()
    } else {
        spec_user_schedules(s.drop_last(), user_id) + if s.last().user_id == user_id {
            seq![s.last()]
        } else {
            Seq::empty()
        }
    }
}

/// The store's invariant over its contents: every entry is a well-formed
/// schedule, and every id is unique and below the next id to be handed
/// out.
pub open spec fn store_contents_inv(s: Seq<ScheduledTransaction>, next_id: int) -> bool {
    &&& forall|i: int| 0 <= i < s.len() ==> valid_schedule(#[trigger] s[i])
    &&& forall|i: int| 0 <= i < s.len() ==> 1 <= #[trigger] s[i].id < next_id
    &&& forall|i: int, j: int|
        0 <= i < j < s.len() ==> #[trigger] s[i].id != #[trigger] s[j].id
}

/// The collection of scheduled obligations, keyed by id and scoped by
/// owner.
pub struct DatabaseScheduledTransactions {
    items: Vec<ScheduledTransaction>,
    next_id: i32,
}

impl DatabaseScheduledTransactions {
    /// The stored schedules, in insertion order.
    pub closed spec fn contents(&self) -> Seq<ScheduledTransaction> {
        self.items@
    }

    /// The id the next insertion will receive.
    pub closed spec fn spec_next_id(&self) -> int {
        self.next_id as int
    }

    pub open spec fn inv(&self) -> bool {
        &&& store_contents_inv(self.contents(), self.spec_next_id())
        &&& 1 <= self.spec_next_id() <= i32::MAX
    }

    /// An empty store whose first insertion receives id 1.
    pub fn new() -> (r: Self)
        ensures
            r.inv(),
            r.contents() == Seq::<ScheduledTransaction>::empty(),
            r.spec_next_id() == 1,
    {
        DatabaseScheduledTransactions { items: Vec::new(), next_id: 1 }
    }

    /// An empty store whose first insertion receives the given id; useful
    /// when mirroring an id sequence that has already advanced.
    pub fn with_first_id(first_id: i32) -> (r: Self)
        requires
            1 <= first_id,
        ensures
            r.inv(),
            r.contents() == Seq::<ScheduledTransaction>::empty(),
            r.spec_next_id() == first_id,
    {
        DatabaseScheduledTransactions { items: Vec::new(), next_id: first_id }
    }

    /// Whether an insertion can still receive a fresh id.
    pub fn has_capacity(&self) -> (r: bool)
        ensures
            r == (self.spec_next_id() < i32::MAX),
    {
        self.next_id < i32::MAX
    }

    /// The position of the schedule with this id and owner, if any.
    fn find_index(&self, id: i32, user_id: i32) -> (r: Option<usize>)
        requires
            self.inv(),
        ensures
            match r {
                Some(i) => {
                    &&& spec_contains_schedule(self.contents(), id, user_id)
                    &&& i == spec_index_of_schedule(self.contents(), id, user_id)
                    &&& i < self.contents().len()
                },
                None => !spec_contains_schedule(self.contents(), id, user_id),
            },
    {
        let mut i: usize = 0;
        while i < self.items.len()
            invariant
                self.inv(),
                0 <= i <= self.items.len(),
                forall|j: int|
                    0 <= j < i ==> !(self.contents()[j].id == id && self.contents()[j].user_id
                        == user_id),
            decreases self.items.len() - i,
        {
            if self.items[i].id == id && self.items[i].user_id == user_id {
                proof {
                    let w = spec_index_of_schedule(self.contents(), id, user_id);
                    assert(self.contents()[i as int].id == id);
                    assert(0 <= w < self.contents().len() && self.contents()[w].id == id
                        && self.contents()[w].user_id == user_id);
                    assert(w == i as int);
                }
                return Some(i);
            }
            i = i + 1;
        }
        None
    }

    /// Loads the schedule with this id, scoped to the caller; `NotFound`
    /// when no schedule of the caller's has the id.
    pub fn get_scheduled_transaction(&self, id: i32, user_id: i32) -> (r: Result<
        ScheduledTransaction,
        ObligationError,
    >)
        requires
            self.inv(),
        ensures
            match r {
                Ok(ob) => {
                    &&& spec_contains_schedule(self.contents(), id, user_id)
                    &&& ob == spec_schedule_at(self.contents(), id, user_id)
                },
                Err(e) => {
                    &&& !spec_contains_schedule(self.contents(), id, user_id)
                    &&& e == ObligationError::NotFound
                },
            },
    {
        match self.find_index(id, user_id) {
            Some(i) => Ok(self.items[i].clone()),
            None => Err(ObligationError::NotFound),
        }
    }

    /// All schedules of this user, in insertion order.
    pub fn get_all_scheduled_transactions(&self, user_id: i32) -> (r: Vec<ScheduledTransaction>)
        requires
            self.inv(),
        ensures
            r@ == spec_user_schedules(self.contents(), user_id),
    {
        let mut out: Vec<ScheduledTransaction> = Vec::new();
        let mut i: usize = 0;
        proof {
            assert(self.contents().take(0) =~= Seq::<ScheduledTransaction>::empty());
        }
        while i < self.items.len()
            invariant
                0 <= i <= self.items.len(),
                out@ == spec_user_schedules(self.contents().take(i as int), user_id),
            decreases self.items.len() - i,
        {
            proof {
                assert(self.contents().take(i + 1).drop_last() =~= self.contents().take(i as int));
                assert(self.contents().take(i + 1).last() == self.contents()[i as int]);
            }
            if self.items[i].user_id == user_id {
                out.push(self.items[i].clone());
                proof {
                    assert(out@ =~= spec_user_schedules(self.contents().take(i + 1), user_id));
                }
            } else {
                proof {
                    assert(out@ =~= spec_user_schedules(self.contents().take(i + 1), user_id));
                }
            }
            i = i + 1;
        }
        proof {
            assert(self.contents().take(self.contents().len() as int) =~= self.contents());
        }
        out
    }

    /// Stores a draft under a fresh id and returns the stored record;
    /// `DependencyFailure` when the id space is exhausted.
    pub fn new_scheduled_transaction(&mut self, new: &NewScheduledTransaction) -> (r: Result<
        ScheduledTransaction,
        ObligationError,
    >)
        requires
            old(self).inv(),
            valid_schedule(new.spec_with_id(1)),
        ensures
            final(self).inv(),
            if old(self).spec_next_id() < i32::MAX {
                &&& r == Ok::<ScheduledTransaction, ObligationError>(
                    new.spec_with_id(old(self).spec_next_id() as i32),
                )
                &&& final(self).contents() == old(self).contents().push(
                    new.spec_with_id(old(self).spec_next_id() as i32),
                )
                &&& final(self).spec_next_id() == old(self).spec_next_id() + 1
            } else {
                &&& r == Err::<ScheduledTransaction, ObligationError>(
                    ObligationError::DependencyFailure,
                )
                &&& *final(self) == *old(self)
            },
    {
        if self.next_id == i32::MAX {
            return Err(ObligationError::DependencyFailure);
        }
        let stored = new.with_id(self.next_id);
        let result = stored.clone();
        self.items.push(stored);
        self.next_id = self.next_id + 1;
        proof {
            let s = final(self).contents();
            let n = new.spec_with_id(old(self).spec_next_id() as i32);
            assert(valid_schedule(n));
            assert forall|i: int| 0 <= i < s.len() implies valid_schedule(#[trigger] s[i]) by {
                if i < s.len() - 1 {
                    assert(s[i] == old(self).contents()[i]);
                }
            }
        }
        Ok(result)
    }

    /// Replaces the schedule with this id (scoped to the caller) by the
    /// draft, keeping the id; `NotFound` when no schedule of the caller's
    /// has the id.
    pub fn update_scheduled_transaction(
        &mut self,
        id: i32,
        new: &NewScheduledTransaction,
        user_id: i32,
    ) -> (r: Result<ScheduledTransaction, ObligationError>)
        requires
            old(self).inv(),
            valid_schedule(new.spec_with_id(1)),
        ensures
            final(self).inv(),
            final(self).spec_next_id() == old(self).spec_next_id(),
            if spec_contains_schedule(old(self).contents(), id, user_id) {
                &&& r == Ok::<ScheduledTransaction, ObligationError>(new.spec_with_id(id))
                &&& final(self).contents() == old(self).contents().update(
                    spec_index_of_schedule(old(self).contents(), id, user_id),
                    new.spec_with_id(id),
                )
            } else {
                &&& r == Err::<ScheduledTransaction, ObligationError>(ObligationError::NotFound)
                &&& *final(self) == *old(self)
            },
    {
        match self.find_index(id, user_id) {
            Some(i) => {
                let stored = new.with_id(id);
                let result = stored.clone();
                proof {
                    let idx = spec_index_of_schedule(old(self).contents(), id, user_id);
                    let olds = old(self).contents();
                    let n = new.spec_with_id(id);
                    assert(valid_schedule(n));
                    assert(olds[idx].id == id);
                    let s = olds.update(idx, n);
                    assert forall|a: int, b: int|
                        0 <= a < b < s.len() implies #[trigger] s[a].id != #[trigger] s[b].id by {
                        assert(olds[a].id != olds[b].id);
                    }
                }
                self.items.set(i, stored);
                Ok(result)
            },
            None => Err(ObligationError::NotFound),
        }
    }

    /// Removes and returns the schedule with this id, scoped to the
    /// caller; `NotFound` when no schedule of the caller's has the id.
    pub fn delete_scheduled_transaction(&mut self, id: i32, user_id: i32) -> (r: Result<
        ScheduledTransaction,
        ObligationError,
    >)
        requires
            old(self).inv(),
        ensures
            final(self).inv(),
            final(self).spec_next_id() == old(self).spec_next_id(),
            if spec_contains_schedule(old(self).contents(), id, user_id) {
                &&& r == Ok::<ScheduledTransaction, ObligationError>(
                    spec_schedule_at(old(self).contents(), id, user_id),
                )
                &&& final(self).contents() == old(self).contents().remove(
                    spec_index_of_schedule(old(self).contents(), id, user_id),
                )
            } else {
                &&& r == Err::<ScheduledTransaction, ObligationError>(ObligationError::NotFound)
                &&& *final(self) == *old(self)
            },
    {
        match self.find_index(id, user_id) {
            Some(i) => {
                let removed = self.items.remove(i);
                proof {
                    let olds = old(self).contents();
                    let idx = spec_index_of_schedule(olds, id, user_id);
                    let s = final(self).contents();
                    assert forall|a: int, b: int|
                        0 <= a < b < s.len() implies #[trigger] s[a].id != #[trigger] s[b].id by {
                        let a0 = if a < idx { a } else { a + 1 };
                        let b0 = if b < idx { b } else { b + 1 };
                        assert(s[a] == olds[a0] && s[b] == olds[b0]);
                        assert(olds[a0].id != olds[b0].id);
                    }
                }
                Ok(removed)
            },
            None => Err(ObligationError::NotFound),
        }
    }
}

/// Removing the schedule with a given id leaves a sequence in which that
/// id is no longer found, whoever asks for it.
pub proof fn lemma_removed_schedule_not_found(
    s: Seq<ScheduledTransaction>,
    next_id: int,
    id: i32,
    user_id: i32,
    other_user: i32,
)
    requires
        store_contents_inv(s, next_id),
        spec_contains_schedule(s, id, user_id),
    ensures
        !spec_contains_schedule(
            s.remove(spec_index_of_schedule(s, id, user_id)),
            id,
            other_user,
        ),
{
    let idx = spec_index_of_schedule(s, id, user_id);
    let t = s.remove(idx);
    assert forall|i: int| 0 <= i < t.len() implies !(#[trigger] t[i].id == id) by {
        let i0 = if i < idx { i } else { i + 1 };
        assert(t[i] == s[i0]);
        if i0 < idx {
            assert(s[i0].id != s[idx].id);
        } else if i0 > idx {
            assert(s[idx].id != s[i0].id);
        }
    }
}

/// Replacing the schedule at an id by another record with the same id
/// and owner keeps it findable, at the same position, and lookups then
/// yield the replacement.
pub proof fn lemma_schedule_at_update(
    s: Seq<ScheduledTransaction>,
    next_id: int,
    id: i32,
    user_id: i32,
    x: ScheduledTransaction,
)
    requires
        store_contents_inv(s, next_id),
        spec_contains_schedule(s, id, user_id),
        x.id == id,
        x.user_id == user_id,
    ensures
        spec_contains_schedule(s.update(spec_index_of_schedule(s, id, user_id), x), id, user_id),
        spec_schedule_at(s.update(spec_index_of_schedule(s, id, user_id), x), id, user_id) == x,
{
    let idx = spec_index_of_schedule(s, id, user_id);
    let t = s.update(idx, x);
    assert(t[idx] == x);
    let w = spec_index_of_schedule(t, id, user_id);
    assert(0 <= w < t.len() && t[w].id == id && t[w].user_id == user_id);
    if w != idx {
        assert(t[w] == s[w]);
        assert(s[w].id == s[idx].id);
        if w < idx {
            assert(s[w].id != s[idx].id);
        } else {
            assert(s[idx].id != s[w].id);
        }
    }
}

} // verus!
