//! The shapes that the service and its clients share.

use crate::model::{FeedbackModel, FeedbackModelView};
use vstd::prelude::*;

verus! {

/// The minimal feedback entity: a record without its timestamps, its rating
/// a small unsigned number.
#[derive(Debug, PartialEq)]
pub struct Feedback {
    pub id: u128,
    pub text: String,
    pub rating: u8,
}

pub struct FeedbackView {
    pub id: u128,
    pub text: Seq<char>,
    pub rating: u8,
}

impl View for Feedback {
    type V = FeedbackView;

    open spec fn view(&self) -> FeedbackView {
        FeedbackView { id: self.id, text: self.text@, rating: self.rating }
    }
}

impl Clone for Feedback {
    fn clone(&self) -> (copy: Self)
        ensures
            copy@ == self@,
    {
        Feedback { id: self.id, text: self.text.clone(), rating: self.rating }
    }
}

impl FeedbackView {
    /// The minimal entity of a stored record. There is one exactly when the
    /// stored rating fits the narrower type; no rating is ever cut to fit.
    pub open spec fn of_model(model: FeedbackModelView) -> Option<FeedbackView> {
        if 0 <= model.rating <= u8::MAX {
            Some(FeedbackView { id: model.id, text: model.text, rating: model.rating as u8 })
        } else {
            None
        }
    }
}

impl Feedback {
    /// The minimal entity of a stored record, where its rating fits.
    pub fn from_model(model: &FeedbackModel) -> (feedback: Option<Feedback>)
        ensures
            match feedback {
                Some(feedback) => FeedbackView::of_model(model@) == Some(feedback@),
                None => FeedbackView::of_model(model@) is None,
            },
    {
        if 0 <= model.rating && model.rating <= 255 {
            Some(Feedback { id: model.id, text: model.text.clone(), rating: model.rating as u8 })
        } else {
            None
        }
    }
}

/// The payload of a response that carries one entity.
#[derive(Debug)]
pub struct FeedbackData {
    pub feedback: Feedback,
}

/// The envelope around one entity.
#[derive(Debug)]
pub struct FeedbackResponse {
    pub status: String,
    pub data: FeedbackData,
}

/// The envelope around a page of entities.
#[derive(Debug)]
pub struct FeedbackListResponse {
    pub status: String,
    pub results: i32,
    pub feedbacks: Vec<Feedback>,
}

/// The envelope of a failure: `status` is `"fail"` for a condition the client
/// can correct and `"error"` for a fault of the service.
#[derive(Debug)]
pub struct ErrorResponse {
    pub status: String,
    pub message: String,
}

pub struct ErrorResponseView {
    pub status: Seq<char>,
    pub message: Seq<char>,
}

impl View for ErrorResponse {
    type V = ErrorResponseView;

    open spec fn view(&self) -> ErrorResponseView {
        ErrorResponseView { status: self.status@, message: self.message@ }
    }
}

} // verus!
