//! Responses: an HTTP status code and the body that goes with it.

use crate::clock::Timestamp;
use crate::common::{ErrorResponse, ErrorResponseView};
use crate::model::{views_of, FeedbackModel, FeedbackModelView};
use vstd::prelude::*;

verus! {

/// The body of a response, one variant for each shape on the wire.
#[derive(Debug)]
pub enum ResponseBody {
    /// `{message, timestamp}`
    Health { message: String, timestamp: Timestamp },
    /// `{status, results, feedbacks: [...]}`
    FeedbackList { status: String, results: usize, feedbacks: Vec<FeedbackModel> },
    /// `{status, data: {feedback}}`
    Created { status: String, feedback: FeedbackModel },
    /// `{status, feedback}`
    Feedback { status: String, feedback: FeedbackModel },
    /// `{status, message}`
    Error(ErrorResponse),
    /// No body at all.
    Empty,
}

pub enum ResponseBodyView {
    Health { message: Seq<char>, timestamp: Timestamp },
    FeedbackList { status: Seq<char>, results: nat, feedbacks: Seq<FeedbackModelView> },
    Created { status: Seq<char>, feedback: FeedbackModelView },
    Feedback { status: Seq<char>, feedback: FeedbackModelView },
    Error(ErrorResponseView),
    Empty,
}

impl View for ResponseBody {
    type V = ResponseBodyView;

    open spec fn view(&self) -> ResponseBodyView {
        match *self {
            ResponseBody::Health { message, timestamp } => ResponseBodyView::Health {
                message: message@,
                timestamp,
            },
            ResponseBody::FeedbackList { status, results, feedbacks } => {
                ResponseBodyView::FeedbackList {
                    status: status@,
                    results: results as nat,
                    feedbacks: views_of(feedbacks@),
                }
            },
            ResponseBody::Created { status, feedback } => ResponseBodyView::Created {
                status: status@,
                feedback: feedback@,
            },
            ResponseBody::Feedback { status, feedback } => ResponseBodyView::Feedback {
                status: status@,
                feedback: feedback@,
            },
            ResponseBody::Error(error) => ResponseBodyView::Error(error@),
            ResponseBody::Empty => ResponseBodyView::Empty,
        }
    }
}

/// What a handler answers.
#[derive(Debug)]
pub struct Response {
    pub code: u16,
    pub body: ResponseBody,
}

pub struct ResponseView {
    pub code: u16,
    pub body: ResponseBodyView,
}

impl View for Response {
    type V = ResponseView;

    open spec fn view(&self) -> ResponseView {
        ResponseView { code: self.code, body: self.body@ }
    }
}

impl ResponseView {
    /// The failure response with the given code, status and message.
    pub open spec fn failure(code: u16, status: Seq<char>, message: Seq<char>) -> ResponseView {
        ResponseView {
            code,
            body: ResponseBodyView::Error(ErrorResponseView { status, message }),
        }
    }

    /// The response that carries one record under `"success"`.
    pub open spec fn feedback(feedback: FeedbackModelView) -> ResponseView {
        ResponseView {
            code: 200,
            body: ResponseBodyView::Feedback { status: "success"@, feedback },
        }
    }
}

impl Response {
    /// Builds a failure response.
    pub fn failure(code: u16, status: &str, message: String) -> (response: Response)
        ensures
            response@ == ResponseView::failure(code, status@, message@),
    {
        Response {
            code,
            body: ResponseBody::Error(
                ErrorResponse { status: String::from_str(status), message },
            ),
        }
    }

    /// Builds the response that carries one record under `"success"`.
    pub fn feedback(feedback: FeedbackModel) -> (response: Response)
        ensures
            response@ == ResponseView::feedback(feedback@),
    {
        Response {
            code: 200,
            body: ResponseBody::Feedback { status: String::from_str("success"), feedback },
        }
    }
}

} // verus!
