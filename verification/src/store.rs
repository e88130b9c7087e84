//! The feedback table: records in the order of their identifiers, no
//! identifier twice, none ever handed out again.

use crate::clock::Timestamp;
use crate::model::{
    count_result_view, row_result_view, rows_result_view, views_of, FeedbackModel,
    FeedbackModelView, StoreError, StoreErrorKind, StoreErrorView,
};
use vstd::prelude::*;

verus! {

/// The failure of asking for one record where there is none.
pub open spec fn row_not_found() -> StoreErrorView {
    StoreErrorView {
        kind: StoreErrorKind::RowNotFound,
        message: "no rows returned by a query that expected to return at least one row"@,
    }
}

/// The failure of asking for a window that starts before the first record.
pub open spec fn negative_offset() -> StoreErrorView {
    StoreErrorView { kind: StoreErrorKind::Other, message: "OFFSET must not be negative"@ }
}

/// The failure of asking for a window of negative size.
pub open spec fn negative_limit() -> StoreErrorView {
    StoreErrorView { kind: StoreErrorKind::Other, message: "LIMIT must not be negative"@ }
}

/// The failure of inserting when every identifier has been handed out.
pub open spec fn identifiers_exhausted() -> StoreErrorView {
    StoreErrorView {
        kind: StoreErrorKind::Other,
        message: "no identifier is left for a new record"@,
    }
}

/// The table as a value: its records in order, and the identifier that the
/// next new record gets.
#[verifier::ext_equal]
pub struct TableView {
    pub rows: Seq<FeedbackModelView>,
    pub next_id: u128,
}

impl TableView {
    /// The table before anything was stored.
    pub open spec fn empty() -> TableView {
        TableView { rows: Seq::empty(), next_id: 1 }
    }

    /// Identifiers rise strictly along the rows, and all lie below the next
    /// one to be handed out.
    pub open spec fn wf(self) -> bool {
        &&& forall|i: int, j: int|
            0 <= i < j < self.rows.len() ==> self.rows[i].id < self.rows[j].id
        &&& forall|i: int| 0 <= i < self.rows.len() ==> self.rows[i].id < self.next_id
    }

    /// Every record was last updated no earlier than it was created.
    pub open spec fn timestamps_ordered(self) -> bool {
        forall|i: int|
            0 <= i < self.rows.len() ==> (#[trigger] self.rows[i]).created_at.not_after(
                self.rows[i].updated_at,
            )
    }

    /// The record at position `at` has identifier `id`.
    pub open spec fn holds_at(self, id: u128, at: int) -> bool {
        0 <= at < self.rows.len() && self.rows[at].id == id
    }

    /// Some record has identifier `id`.
    pub open spec fn contains(self, id: u128) -> bool {
        exists|at: int| self.holds_at(id, at)
    }

    /// Where the record with identifier `id` stands, if there is one.
    pub open spec fn position(self, id: u128) -> int {
        choose|at: int| self.holds_at(id, at)
    }

    /// The record with identifier `id`, or the failure of finding none.
    pub open spec fn select_by_id(self, id: u128) -> Result<FeedbackModelView, StoreErrorView> {
        if self.contains(id) {
            Ok(self.rows[self.position(id)])
        } else {
            Err(row_not_found())
        }
    }

    /// The `limit` records that follow the first `offset`, fewer where the
    /// table ends; a failure where either number is negative.
    pub open spec fn select_page(self, limit: i64, offset: i64) -> Result<
        Seq<FeedbackModelView>,
        StoreErrorView,
    > {
        if offset < 0 {
            Err(negative_offset())
        } else if limit < 0 {
            Err(negative_limit())
        } else {
            let len = self.rows.len() as int;
            let start = if offset < len {
                offset as int
            } else {
                len
            };
            let end = if offset + limit < len {
                offset + limit
            } else {
                len
            };
            Ok(self.rows.subrange(start, end))
        }
    }

    /// Stores a new record under the next identifier, created and updated at
    /// `now`, and hands it back.
    pub open spec fn insert(self, text: Seq<char>, rating: i32, now: Timestamp) -> (
        TableView,
        Result<FeedbackModelView, StoreErrorView>,
    ) {
        if self.next_id == u128::MAX {
            (self, Err(identifiers_exhausted()))
        } else {
            let row = FeedbackModelView {
                id: self.next_id,
                text,
                rating,
                created_at: now,
                updated_at: now,
            };
            (TableView { rows: self.rows.push(row), next_id: (self.next_id + 1) as u128 }, Ok(row))
        }
    }

    /// Overwrites text, rating and time of update of the record with
    /// identifier `id`, and hands the new record back.
    pub open spec fn update(
        self,
        text: Seq<char>,
        rating: i32,
        updated_at: Timestamp,
        id: u128,
    ) -> (TableView, Result<FeedbackModelView, StoreErrorView>) {
        if self.contains(id) {
            let at = self.position(id);
            let row = FeedbackModelView {
                id,
                text,
                rating,
                created_at: self.rows[at].created_at,
                updated_at,
            };
            (TableView { rows: self.rows.update(at, row), next_id: self.next_id }, Ok(row))
        } else {
            (self, Err(row_not_found()))
        }
    }

    /// Removes the record with identifier `id` and counts the rows removed.
    pub open spec fn delete(self, id: u128) -> (TableView, Result<u64, StoreErrorView>) {
        if self.contains(id) {
            (
                TableView { rows: self.rows.remove(self.position(id)), next_id: self.next_id },
                Ok(1u64),
            )
        } else {
            (self, Ok(0u64))
        }
    }

    /// In a well-formed table an identifier stands at one position only.
    pub proof fn lemma_position(self, id: u128, at: int)
        requires
            self.wf(),
            self.holds_at(id, at),
        ensures
            self.contains(id),
            self.position(id) == at,
    {
        let chosen = self.position(id);
        assert(self.holds_at(id, chosen));
        if chosen < at {
            assert(self.rows[chosen].id < self.rows[at].id);
        } else if at < chosen {
            assert(self.rows[at].id < self.rows[chosen].id);
        }
    }

    /// Inserting keeps the table well-formed.
    pub proof fn lemma_insert_keeps_wf(self, text: Seq<char>, rating: i32, now: Timestamp)
        requires
            self.wf(),
        ensures
            self.insert(text, rating, now).0.wf(),
    {
    }

    /// Updating keeps the table well-formed.
    pub proof fn lemma_update_keeps_wf(
        self,
        text: Seq<char>,
        rating: i32,
        updated_at: Timestamp,
        id: u128,
    )
        requires
            self.wf(),
        ensures
            self.update(text, rating, updated_at, id).0.wf(),
    {
        if self.contains(id) {
            assert(self.holds_at(id, self.position(id)));
        }
    }

    /// Deleting keeps the table well-formed.
    pub proof fn lemma_delete_keeps_wf(self, id: u128)
        requires
            self.wf(),
        ensures
            self.delete(id).0.wf(),
    {
        if self.contains(id) {
            let at = self.position(id);
            assert(self.holds_at(id, at));
            let rest = self.rows.remove(at);
            assert forall|i: int| 0 <= i < rest.len() implies rest[i] == self.rows[if i < at {
                i
            } else {
                i + 1
            }] by {}
        }
    }
}

/// A feedback table held in memory.
pub struct FeedbackTable {
    rows: Vec<FeedbackModel>,
    next_id: u128,
}

impl View for FeedbackTable {
    type V = TableView;

    closed spec fn view(&self) -> TableView {
        TableView { rows: views_of(self.rows@), next_id: self.next_id }
    }
}

fn store_error(kind: StoreErrorKind, message: &str) -> (error: StoreError)
    ensures
        error@ == (StoreErrorView { kind, message: message@ }),
{
    StoreError { kind, message: String::from_str(message) }
}

impl FeedbackTable {
    /// Holds of every table at every moment. A method that changes the rows
    /// takes them out of the table first and puts them back when they are in
    /// order again, so that the table itself is never seen half-changed.
    #[verifier::type_invariant]
    spec fn well_formed(&self) -> bool {
        self@.wf()
    }

    /// An empty table.
    pub fn new() -> (table: FeedbackTable)
        ensures
            table@ == TableView::empty(),
            table@.wf(),
    {
        let table = FeedbackTable { rows: Vec::new(), next_id: 1 };
        assert(table@ =~= TableView::empty());
        table
    }

    /// How many records the table holds.
    pub fn len(&self) -> (len: usize)
        ensures
            len == self@.rows.len(),
            self@.wf(),
    {
        proof {
            use_type_invariant(self);
        }
        self.rows.len()
    }

    /// Where the record with identifier `id` stands.
    fn find(&self, id: u128) -> (found: Option<usize>)
        ensures
            match found {
                Some(at) => self@.holds_at(id, at as int) && self@.contains(id) && self@.position(
                    id,
                ) == at,
                None => !self@.contains(id),
            },
    {
        proof {
            use_type_invariant(self);
        }
        let mut at: usize = 0;
        while at < self.rows.len()
            invariant
                self@.wf(),
                at <= self.rows.len(),
                forall|j: int| 0 <= j < at ==> !self@.holds_at(id, j),
            decreases self.rows.len() - at,
        {
            if self.rows[at].id == id {
                proof {
                    self@.lemma_position(id, at as int);
                }
                return Some(at);
            }
            at += 1;
        }
        None
    }

    /// The record with identifier `id`.
    pub fn select_by_id(&self, id: u128) -> (result: Result<FeedbackModel, StoreError>)
        ensures
            row_result_view(result) == self@.select_by_id(id),
            self@.wf(),
    {
        proof {
            use_type_invariant(self);
        }
        match self.find(id) {
            Some(at) => Ok(self.rows[at].clone()),
            None => Err(
                store_error(
                    StoreErrorKind::RowNotFound,
                    "no rows returned by a query that expected to return at least one row",
                ),
            ),
        }
    }

    /// A page of records in the order of their identifiers.
    pub fn select_page(&self, limit: i64, offset: i64) -> (result: Result<
        Vec<FeedbackModel>,
        StoreError,
    >)
        ensures
            rows_result_view(result) == self@.select_page(limit, offset),
            self@.wf(),
    {
        proof {
            use_type_invariant(self);
        }
        if offset < 0 {
            return Err(store_error(StoreErrorKind::Other, "OFFSET must not be negative"));
        }
        if limit < 0 {
            return Err(store_error(StoreErrorKind::Other, "LIMIT must not be negative"));
        }
        let len: usize = self.rows.len();
        let start: usize = if (offset as u64) < (len as u64) {
            offset as usize
        } else {
            len
        };
        let room: usize = len - start;
        let end: usize = if (limit as u64) < (room as u64) {
            start + limit as usize
        } else {
            len
        };
        let mut page: Vec<FeedbackModel> = Vec::new();
        let mut at: usize = start;
        while at < end
            invariant
                start <= at <= end <= self.rows.len(),
                page@.len() == at - start,
                views_of(page@) == views_of(self.rows@).subrange(start as int, at as int),
            decreases end - at,
        {
            let ghost earlier = page@;
            let row = self.rows[at].clone();
            page.push(row);
            assert forall|k: int| 0 <= k < page@.len() implies views_of(page@)[k] == views_of(
                self.rows@,
            ).subrange(start as int, at + 1)[k] by {
                if k < earlier.len() {
                    assert(views_of(earlier)[k] == views_of(self.rows@).subrange(
                        start as int,
                        at as int,
                    )[k]);
                }
            }
            assert(views_of(page@) =~= views_of(self.rows@).subrange(start as int, at + 1));
            at += 1;
        }
        Ok(page)
    }

    /// Stores a new record, created and updated at `now`.
    pub fn insert(&mut self, text: String, rating: i32, now: Timestamp) -> (result: Result<
        FeedbackModel,
        StoreError,
    >)
        ensures
            final(self)@ == old(self)@.insert(text@, rating, now).0,
            row_result_view(result) == old(self)@.insert(text@, rating, now).1,
            old(self)@.wf(),
            final(self)@.wf(),
    {
        proof {
            use_type_invariant(&*self);
        }
        if self.next_id == u128::MAX {
            return Err(
                store_error(StoreErrorKind::Other, "no identifier is left for a new record"),
            );
        }
        let row = FeedbackModel {
            id: self.next_id,
            text,
            rating,
            created_at: now,
            updated_at: now,
        };
        let copy = row.clone();
        let mut rows: Vec<FeedbackModel> = Vec::new();
        core::mem::swap(&mut self.rows, &mut rows);
        rows.push(row);
        self.next_id = self.next_id + 1;
        proof {
            let after = TableView { rows: views_of(rows@), next_id: self.next_id };
            assert(after =~= old(self)@.insert(text@, rating, now).0);
            old(self)@.lemma_insert_keeps_wf(text@, rating, now);
        }
        core::mem::swap(&mut self.rows, &mut rows);
        Ok(copy)
    }

    /// Overwrites text, rating and time of update of one record.
    pub fn update(
        &mut self,
        text: String,
        rating: i32,
        updated_at: Timestamp,
        id: u128,
    ) -> (result: Result<FeedbackModel, StoreError>)
        ensures
            final(self)@ == old(self)@.update(text@, rating, updated_at, id).0,
            row_result_view(result) == old(self)@.update(text@, rating, updated_at, id).1,
            old(self)@.wf(),
            final(self)@.wf(),
    {
        proof {
            use_type_invariant(&*self);
        }
        match self.find(id) {
            Some(at) => {
                let row = FeedbackModel {
                    id,
                    text,
                    rating,
                    created_at: self.rows[at].created_at,
                    updated_at,
                };
                let copy = row.clone();
                let mut rows: Vec<FeedbackModel> = Vec::new();
                core::mem::swap(&mut self.rows, &mut rows);
                rows.set(at, row);
                proof {
                    let after = TableView { rows: views_of(rows@), next_id: self.next_id };
                    assert(after =~= old(self)@.update(text@, rating, updated_at, id).0);
                    old(self)@.lemma_update_keeps_wf(text@, rating, updated_at, id);
                }
                core::mem::swap(&mut self.rows, &mut rows);
                Ok(copy)
            },
            None => Err(
                store_error(
                    StoreErrorKind::RowNotFound,
                    "no rows returned by a query that expected to return at least one row",
                ),
            ),
        }
    }

    /// Removes one record and counts the rows removed.
    pub fn delete(&mut self, id: u128) -> (result: Result<u64, StoreError>)
        ensures
            final(self)@ == old(self)@.delete(id).0,
            count_result_view(result) == old(self)@.delete(id).1,
            old(self)@.wf(),
            final(self)@.wf(),
    {
        proof {
            use_type_invariant(&*self);
        }
        match self.find(id) {
            Some(at) => {
                let mut rows: Vec<FeedbackModel> = Vec::new();
                core::mem::swap(&mut self.rows, &mut rows);
                rows.remove(at);
                proof {
                    let after = TableView { rows: views_of(rows@), next_id: self.next_id };
                    assert(after =~= old(self)@.delete(id).0);
                    old(self)@.lemma_delete_keeps_wf(id);
                }
                core::mem::swap(&mut self.rows, &mut rows);
                Ok(1)
            },
            None => Ok(0),
        }
    }
}

} // verus!
