//! The stored entity and the failure a store reports.

use crate::clock::Timestamp;
use vstd::prelude::*;

verus! {

/// A feedback record as the store holds it.
#[derive(Debug, PartialEq, Eq)]
pub struct FeedbackModel {
    pub id: u128,
    pub text: String,
    pub rating: i32,
    pub created_at: Timestamp,
    pub updated_at: Timestamp,
}

/// What a `FeedbackModel` is, with the text as a sequence of characters.
pub struct FeedbackModelView {
    pub id: u128,
    pub text: Seq<char>,
    pub rating: i32,
    pub created_at: Timestamp,
    pub updated_at: Timestamp,
}

impl View for FeedbackModel {
    type V = FeedbackModelView;

    open spec fn view(&self) -> FeedbackModelView {
        FeedbackModelView {
            id: self.id,
            text: self.text@,
            rating: self.rating,
            created_at: self.created_at,
            updated_at: self.updated_at,
        }
    }
}

impl Clone for FeedbackModel {
    fn clone(&self) -> (copy: Self)
        ensures
            copy@ == self@,
    {
        FeedbackModel {
            id: self.id,
            text: self.text.clone(),
            rating: self.rating,
            created_at: self.created_at,
            updated_at: self.updated_at,
        }
    }
}

/// The records of a sequence of stored entities, in the same order.
pub open spec fn views_of(rows: Seq<FeedbackModel>) -> Seq<FeedbackModelView> {
    rows.map_values(|row: FeedbackModel| row@)
}

/// What went wrong in the store, as far as a handler tells failures apart.
#[derive(Clone, Copy, Debug, PartialEq, Eq, Structural)]
pub enum StoreErrorKind {
    /// A unique key was written twice.
    UniqueViolation,
    /// One record was asked for and none was there.
    RowNotFound,
    /// Anything else.
    Other,
}

/// A failure reported by the store: its kind, and the text that describes it
/// to whoever runs the service. No handler reads the text.
#[derive(Debug, PartialEq, Eq)]
pub struct StoreError {
    pub kind: StoreErrorKind,
    pub message: String,
}

pub struct StoreErrorView {
    pub kind: StoreErrorKind,
    pub message: Seq<char>,
}

impl View for StoreError {
    type V = StoreErrorView;

    open spec fn view(&self) -> StoreErrorView {
        StoreErrorView { kind: self.kind, message: self.message@ }
    }
}

impl StoreErrorView {
    /// The failure reports that a unique key was written twice.
    pub open spec fn is_unique_violation(self) -> bool {
        self.kind == StoreErrorKind::UniqueViolation
    }
}

impl StoreError {
    /// Whether the store reports that a unique key was written twice.
    pub fn is_unique_violation(&self) -> (found: bool)
        ensures
            found == self@.is_unique_violation(),
    {
        self.kind == StoreErrorKind::UniqueViolation
    }
}

/// What a store hands back for one record, seen through the views.
pub open spec fn row_result_view(result: Result<FeedbackModel, StoreError>) -> Result<
    FeedbackModelView,
    StoreErrorView,
> {
    match result {
        Ok(row) => Ok(row@),
        Err(error) => Err(error@),
    }
}

/// What a store hands back for several records, seen through the views.
pub open spec fn rows_result_view(result: Result<Vec<FeedbackModel>, StoreError>) -> Result<
    Seq<FeedbackModelView>,
    StoreErrorView,
> {
    match result {
        Ok(rows) => Ok(views_of(rows@)),
        Err(error) => Err(error@),
    }
}

/// What a store hands back for a statement that returns no record, seen
/// through the views.
pub open spec fn count_result_view(result: Result<u64, StoreError>) -> Result<u64, StoreErrorView> {
    match result {
        Ok(count) => Ok(count),
        Err(error) => Err(error@),
    }
}

} // verus!
