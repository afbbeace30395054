//! An in-memory table of rows keyed by identifier. It assigns the identifier
//! of each new row and keeps at most one row per identifier.

use vstd::prelude::*;
use crate::contract::{ActiveModelTrait, ModelTrait};

verus! {

/// Why the table refused a write.
#[derive(Clone, Copy, Debug, PartialEq, Eq)]
pub enum StoreError {
    /// A new row came with an identifier, which only the table assigns.
    IdentifierGiven,
    /// The write names no row.
    IdentifierMissing,
    /// The write leaves a business column without a value.
    Incomplete,
    /// Every identifier has been assigned.
    Exhausted,
    /// No row has the identifier that the write names.
    RecordNotFound,
}

/// Whether no two rows share an identifier.
pub open spec fn distinct_keys<E: ModelTrait>(rows: Seq<E>) -> bool {
    forall|i: int, j: int|
        0 <= i < j < rows.len() ==> (#[trigger] rows[i]).key() != (#[trigger] rows[j]).key()
}

/// Whether some row has the identifier `id`.
pub open spec fn has_key<E: ModelTrait>(rows: Seq<E>, id: i32) -> bool {
    exists|i: int| 0 <= i < rows.len() && (#[trigger] rows[i]).key() == id
}

/// The rows as a mapping from identifier to row.
pub open spec fn keyed<E: ModelTrait>(rows: Seq<E>) -> Map<i32, E> {
    Map::new(
        |id: i32| has_key(rows, id),
        |id: i32| rows[choose|i: int| 0 <= i < rows.len() && (#[trigger] rows[i]).key() == id],
    )
}

/// Each row is found under its own identifier.
pub proof fn lemma_keyed_index<E: ModelTrait>(rows: Seq<E>, i: int)
    requires
        distinct_keys(rows),
        0 <= i < rows.len(),
    ensures
        keyed(rows).dom().contains(rows[i].key()),
        keyed(rows)[rows[i].key()] == rows[i],
{
    let id = rows[i].key();
    assert(has_key(rows, id));
    let j = choose|j: int| 0 <= j < rows.len() && (#[trigger] rows[j]).key() == id;
    assert(i == j) by {
        if i < j {
            assert(rows[i].key() != rows[j].key());
        } else if j < i {
            assert(rows[j].key() != rows[i].key());
        }
    }
}

proof fn lemma_keyed_push<E: ModelTrait>(rows: Seq<E>, row: E)
    requires
        distinct_keys(rows),
        !has_key(rows, row.key()),
    ensures
        distinct_keys(rows.push(row)),
        keyed(rows.push(row)) == keyed(rows).insert(row.key(), row),
{
    let after = rows.push(row);
    assert forall|i: int, j: int| 0 <= i < j < after.len() implies (#[trigger] after[i]).key() != (
    #[trigger] after[j]).key() by {
        if j < rows.len() {
            assert(rows[i].key() != rows[j].key());
        } else {
            assert(rows[i].key() != row.key());
        }
    }
    assert forall|id: i32| #[trigger]
        keyed(after).dom().contains(id) <==> keyed(rows).insert(row.key(), row).dom().contains(
            id,
        ) by {
        if has_key(after, id) {
            let i = choose|i: int| 0 <= i < after.len() && (#[trigger] after[i]).key() == id;
            if i < rows.len() {
                assert(rows[i].key() == id);
            }
        }
        if has_key(rows, id) {
            let i = choose|i: int| 0 <= i < rows.len() && (#[trigger] rows[i]).key() == id;
            assert(after[i].key() == id);
        }
        if id == row.key() {
            assert(after[rows.len() as int].key() == id);
        }
    }
    assert forall|id: i32| #[trigger] keyed(after).dom().contains(id) implies keyed(after)[id]
        == keyed(rows).insert(row.key(), row)[id] by {
        let i = choose|i: int| 0 <= i < after.len() && (#[trigger] after[i]).key() == id;
        lemma_keyed_index(after, i);
        if i < rows.len() {
            assert(rows[i].key() == id);
            lemma_keyed_index(rows, i);
        }
    }
    assert(keyed(after) =~= keyed(rows).insert(row.key(), row));
}

proof fn lemma_keyed_update<E: ModelTrait>(rows: Seq<E>, at: int, row: E)
    requires
        distinct_keys(rows),
        0 <= at < rows.len(),
        rows[at].key() == row.key(),
    ensures
        distinct_keys(rows.update(at, row)),
        keyed(rows.update(at, row)) == keyed(rows).insert(row.key(), row),
{
    let after = rows.update(at, row);
    assert forall|i: int, j: int| 0 <= i < j < after.len() implies (#[trigger] after[i]).key() != (
    #[trigger] after[j]).key() by {
        assert(rows[i].key() != rows[j].key());
    }
    assert forall|id: i32| #[trigger]
        keyed(after).dom().contains(id) <==> keyed(rows).insert(row.key(), row).dom().contains(
            id,
        ) by {
        if has_key(after, id) {
            let i = choose|i: int| 0 <= i < after.len() && (#[trigger] after[i]).key() == id;
            assert(rows[i].key() == id);
        }
        if has_key(rows, id) {
            let i = choose|i: int| 0 <= i < rows.len() && (#[trigger] rows[i]).key() == id;
            assert(after[i].key() == id);
        }
        if id == row.key() {
            assert(after[at].key() == id);
        }
    }
    assert forall|id: i32| #[trigger] keyed(after).dom().contains(id) implies keyed(after)[id]
        == keyed(rows).insert(row.key(), row)[id] by {
        let i = choose|i: int| 0 <= i < after.len() && (#[trigger] after[i]).key() == id;
        lemma_keyed_index(after, i);
        assert(rows[i].key() == id);
        lemma_keyed_index(rows, i);
    }
    assert(keyed(after) =~= keyed(rows).insert(row.key(), row));
}

proof fn lemma_keyed_remove<E: ModelTrait>(rows: Seq<E>, at: int)
    requires
        distinct_keys(rows),
        0 <= at < rows.len(),
    ensures
        distinct_keys(rows.remove(at)),
        keyed(rows.remove(at)) == keyed(rows).remove(rows[at].key()),
{
    let after = rows.remove(at);
    let gone = rows[at].key();
    assert forall|i: int| 0 <= i < after.len() implies #[trigger] after[i] == rows[if i < at {
        i
    } else {
        i + 1
    }] by {}
    assert forall|i: int, j: int| 0 <= i < j < after.len() implies (#[trigger] after[i]).key() != (
    #[trigger] after[j]).key() by {
        let si = if i < at { i } else { i + 1 };
        let sj = if j < at { j } else { j + 1 };
        assert(after[i] == rows[si]);
        assert(after[j] == rows[sj]);
        assert(rows[si].key() != rows[sj].key());
    }
    assert forall|id: i32| #[trigger]
        keyed(after).dom().contains(id) <==> keyed(rows).remove(gone).dom().contains(id) by {
        if has_key(after, id) {
            let i = choose|i: int| 0 <= i < after.len() && (#[trigger] after[i]).key() == id;
            let si = if i < at { i } else { i + 1 };
            assert(after[i] == rows[si]);
            assert(rows[si].key() == id);
            if si < at {
                assert(rows[si].key() != rows[at].key());
            } else {
                assert(rows[at].key() != rows[si].key());
            }
        }
        if has_key(rows, id) && id != gone {
            let i = choose|i: int| 0 <= i < rows.len() && (#[trigger] rows[i]).key() == id;
            let ti = if i < at { i } else { i - 1 };
            assert(after[ti] == rows[i]);
            assert(after[ti].key() == id);
        }
    }
    assert forall|id: i32| #[trigger] keyed(after).dom().contains(id) implies keyed(after)[id]
        == keyed(rows).remove(gone)[id] by {
        let i = choose|i: int| 0 <= i < after.len() && (#[trigger] after[i]).key() == id;
        lemma_keyed_index(after, i);
        let si = if i < at { i } else { i + 1 };
        assert(after[i] == rows[si]);
        lemma_keyed_index(rows, si);
    }
    assert(keyed(after) =~= keyed(rows).remove(gone));
}

/// Whether `after` is `before` with the row known as `id` replaced, in its
/// place, by `row`.
pub open spec fn rewrites<E: ModelTrait>(before: Seq<E>, after: Seq<E>, id: i32, row: E) -> bool {
    exists|at: int|
        0 <= at < before.len() && (#[trigger] before[at]).key() == id && after == before.update(
            at,
            row,
        )
}

/// Whether `after` is `before` without the row known as `id`, the others in
/// their order.
pub open spec fn removes<E: ModelTrait>(before: Seq<E>, after: Seq<E>, id: i32) -> bool {
    exists|at: int|
        0 <= at < before.len() && (#[trigger] before[at]).key() == id && after == before.remove(at)
}

/// The rows of one resource, each under the identifier the table gave it.
pub struct Table<E> {
    rows: Vec<E>,
    next_id: i32,
}

impl<E: ModelTrait> Table<E> {
    /// No two rows share an identifier, and every identifier in use was
    /// assigned before the next one.
    pub closed spec fn wf(&self) -> bool {
        &&& distinct_keys(self.rows@)
        &&& forall|i: int| 0 <= i < self.rows@.len() ==> (#[trigger] self.rows@[i]).key() < self.next_id
    }

    /// The rows in the order in which the table lists them.
    pub closed spec fn listing(&self) -> Seq<E> {
        self.rows@
    }

    /// The rows by identifier.
    pub open spec fn view(&self) -> Map<i32, E> {
        keyed(self.listing())
    }

    /// The identifier that the next new row gets.
    pub closed spec fn next_key(&self) -> i32 {
        self.next_id
    }

    /// Whether an identifier is left for a new row.
    pub open spec fn has_room(&self) -> bool {
        self.next_key() < i32::MAX
    }

    /// The listing holds each row once, every row is known by its own
    /// identifier, and no identifier from the next one on is in use.
    pub proof fn lemma_listing(&self)
        requires
            self.wf(),
        ensures
            distinct_keys(self.listing()),
            forall|id: i32| #[trigger] self@.dom().contains(id) ==> self@[id].key() == id,
            forall|id: i32| id >= self.next_key() ==> !(#[trigger] self@.dom().contains(id)),
    {
        assert forall|id: i32| id >= self.next_key() implies !(#[trigger] self@.dom().contains(
            id,
        )) by {
            if has_key(self.rows@, id) {
                let i = choose|i: int|
                    0 <= i < self.rows@.len() && (#[trigger] self.rows@[i]).key() == id;
                assert(self.rows@[i].key() < self.next_id);
            }
        }
    }

    /// Whether every identifier has been assigned.
    pub fn is_full(&self) -> (full: bool)
        ensures
            full == !self.has_room(),
    {
        self.next_id == i32::MAX
    }

    /// An empty table whose first row gets the identifier 1.
    pub fn new() -> (table: Self)
        ensures
            table.wf(),
            table.listing() == Seq::<E>::empty(),
            table@ == Map::<i32, E>::empty(),
            table.next_key() == 1,
    {
        Self::starting_at(1)
    }

    /// An empty table whose first row gets the identifier `first`.
    pub fn starting_at(first: i32) -> (table: Self)
        ensures
            table.wf(),
            table.listing() == Seq::<E>::empty(),
            table@ == Map::<i32, E>::empty(),
            table.next_key() == first,
    {
        let table = Table { rows: Vec::new(), next_id: first };
        assert(keyed(table.rows@) =~= Map::<i32, E>::empty());
        table
    }

    fn position(&self, id: i32) -> (at: Option<usize>)
        ensures
            match at {
                Some(i) => i < self.rows@.len() && self.rows@[i as int].key() == id,
                None => !has_key(self.rows@, id),
            },
    {
        let mut i: usize = 0;
        while i < self.rows.len()
            invariant
                i <= self.rows@.len(),
                forall|j: int| 0 <= j < i ==> (#[trigger] self.rows@[j]).key() != id,
            decreases self.rows@.len() - i,
        {
            if self.rows[i].id() == id {
                return Some(i);
            }
            i += 1;
        }
        None
    }

    /// A copy of every row, in the table's order.
    pub fn all(&self) -> (rows: Vec<E>)
        ensures
            rows@ == self.listing(),
    {
        let mut rows: Vec<E> = Vec::new();
        let mut i: usize = 0;
        while i < self.rows.len()
            invariant
                i <= self.rows@.len(),
                rows@ == self.rows@.take(i as int),
            decreases self.rows@.len() - i,
        {
            rows.push(self.rows[i].duplicate());
            assert(self.rows@.take(i as int).push(self.rows@[i as int]) =~= self.rows@.take(
                i + 1,
            ));
            i += 1;
        }
        assert(self.rows@.take(i as int) =~= self.rows@);
        rows
    }

    /// A copy of the row stored under `id`, if there is one.
    pub fn find_by_id(&self, id: i32) -> (found: Option<E>)
        requires
            self.wf(),
        ensures
            found == (if self@.dom().contains(id) {
                Some(self@[id])
            } else {
                None
            }),
    {
        match self.position(id) {
            Some(i) => {
                proof {
                    lemma_keyed_index(self.rows@, i as int);
                }
                Some(self.rows[i].duplicate())
            },
            None => None,
        }
    }

    /// Why `insert` would refuse `form`, if it would.
    pub open spec fn insert_refusal<A: ActiveModelTrait<E>>(&self, form: A) -> Option<StoreError> {
        if form.target().is_some() {
            Some(StoreError::IdentifierGiven)
        } else if !form.complete() {
            Some(StoreError::Incomplete)
        } else if !self.has_room() {
            Some(StoreError::Exhausted)
        } else {
            None
        }
    }

    /// Stores the row that `form` describes under the next identifier and
    /// returns a copy of it. A refused write leaves the table unchanged.
    pub fn insert<A: ActiveModelTrait<E>>(&mut self, form: A) -> (stored: Result<E, StoreError>)
        requires
            old(self).wf(),
        ensures
            final(self).wf(),
            match stored {
                Ok(row) => {
                    &&& old(self).insert_refusal(form).is_none()
                    &&& row == form.row(old(self).next_key())
                    &&& final(self).listing() == old(self).listing().push(row)
                    &&& final(self)@ == old(self)@.insert(old(self).next_key(), row)
                    &&& final(self).next_key() == old(self).next_key() + 1
                },
                Err(e) => {
                    &&& old(self).insert_refusal(form) == Some(e)
                    &&& *final(self) == *old(self)
                },
            },
    {
        if form.primary_key().is_some() {
            return Err(StoreError::IdentifierGiven);
        }
        if !form.is_complete() {
            return Err(StoreError::Incomplete);
        }
        if self.next_id == i32::MAX {
            return Err(StoreError::Exhausted);
        }
        let id = self.next_id;
        let row = form.into_row(id);
        let copy = row.duplicate();
        proof {
            form.row_key(id);
            self.lemma_listing();
            lemma_keyed_push(self.rows@, row);
        }
        self.rows.push(row);
        self.next_id = id + 1;
        Ok(copy)
    }

    /// Why `update` would refuse `form`, if it would.
    pub open spec fn update_refusal<A: ActiveModelTrait<E>>(&self, form: A) -> Option<StoreError> {
        if form.target().is_none() {
            Some(StoreError::IdentifierMissing)
        } else if !form.complete() {
            Some(StoreError::Incomplete)
        } else if !self@.dom().contains(form.target().unwrap()) {
            Some(StoreError::RecordNotFound)
        } else {
            None
        }
    }

    /// Replaces the row that `form` names by the row that it describes and
    /// returns a copy of the new row. A refused write leaves the table unchanged.
    pub fn update<A: ActiveModelTrait<E>>(&mut self, form: A) -> (stored: Result<E, StoreError>)
        requires
            old(self).wf(),
        ensures
            final(self).wf(),
            match stored {
                Ok(row) => {
                    &&& old(self).update_refusal(form).is_none()
                    &&& row == form.row(form.target().unwrap())
                    &&& final(self)@ == old(self)@.insert(form.target().unwrap(), row)
                    &&& rewrites(
                        old(self).listing(),
                        final(self).listing(),
                        form.target().unwrap(),
                        row,
                    )
                    &&& final(self).next_key() == old(self).next_key()
                },
                Err(e) => {
                    &&& old(self).update_refusal(form) == Some(e)
                    &&& *final(self) == *old(self)
                },
            },
    {
        let id = match form.primary_key() {
            Some(id) => id,
            None => {
                return Err(StoreError::IdentifierMissing);
            },
        };
        if !form.is_complete() {
            return Err(StoreError::Incomplete);
        }
        let at = match self.position(id) {
            Some(at) => at,
            None => {
                return Err(StoreError::RecordNotFound);
            },
        };
        let row = form.into_row(id);
        let copy = row.duplicate();
        proof {
            form.row_key(id);
            lemma_keyed_index(self.rows@, at as int);
            lemma_keyed_update(self.rows@, at as int, row);
        }
        self.rows.set(at, row);
        assert(old(self).rows@[at as int].key() == id);
        Ok(copy)
    }

    /// Why `delete` would refuse `form`, if it would.
    pub open spec fn delete_refusal<A: ActiveModelTrait<E>>(&self, form: A) -> Option<StoreError> {
        if form.target().is_none() {
            Some(StoreError::IdentifierMissing)
        } else if !self@.dom().contains(form.target().unwrap()) {
            Some(StoreError::RecordNotFound)
        } else {
            None
        }
    }

    /// Removes the row that `form` names. A refused write leaves the table
    /// unchanged.
    pub fn delete<A: ActiveModelTrait<E>>(&mut self, form: A) -> (done: Result<(), StoreError>)
        requires
            old(self).wf(),
        ensures
            final(self).wf(),
            match done {
                Ok(_) => {
                    &&& old(self).delete_refusal(form).is_none()
                    &&& final(self)@ == old(self)@.remove(form.target().unwrap())
                    &&& removes(
                        old(self).listing(),
                        final(self).listing(),
                        form.target().unwrap(),
                    )
                    &&& final(self).next_key() == old(self).next_key()
                },
                Err(e) => {
                    &&& old(self).delete_refusal(form) == Some(e)
                    &&& *final(self) == *old(self)
                },
            },
    {
        let id = match form.primary_key() {
            Some(id) => id,
            None => {
                return Err(StoreError::IdentifierMissing);
            },
        };
        let at = match self.position(id) {
            Some(at) => at,
            None => {
                return Err(StoreError::RecordNotFound);
            },
        };
        proof {
            lemma_keyed_index(self.rows@, at as int);
            lemma_keyed_remove(self.rows@, at as int);
        }
        let _gone = self.rows.remove(at);
        assert(old(self).rows@[at as int].key() == id);
        Ok(())
    }
}

} // verus!
