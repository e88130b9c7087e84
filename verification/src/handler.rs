//! The handlers: what each operation asks of the store, and the response it
//! owes for every outcome.
//!
//! Each operation is given twice. The functions that end in `_plan` and
//! `_response` decide; whoever holds the store runs the statement between
//! them. The functions that end in `_handler` do both against a
//! `FeedbackTable`.

use crate::clock::{current_time, Timestamp};
use crate::ident::{hyphenated, hyphenated_text};
use crate::model::{
    count_result_view, row_result_view, rows_result_view, FeedbackModel, FeedbackModelView,
    StoreError, StoreErrorView,
};
use crate::response::{Response, ResponseBody, ResponseBodyView, ResponseView};
use crate::routes::{api_scope, Handler, Method, Route, Scope, ServiceConfig};
use crate::schema::{CreateFeedbackSchema, FilterOptions, PageQuery, UpdateFeedbackSchema};
use crate::store::{FeedbackTable, TableView};
use vstd::prelude::*;

verus! {

/// The message that names a record that is not there:
/// `prefix`, the identifier in its hyphenated form, and `" not found"`.
pub open spec fn not_found_message(prefix: Seq<char>, id: u128) -> Seq<char> {
    prefix + hyphenated(id) + " not found"@
}

/// The 404 response that names `id` after `prefix`.
pub open spec fn not_found_reply(prefix: Seq<char>, id: u128) -> ResponseView {
    ResponseView::failure(404, "fail"@, not_found_message(prefix, id))
}

fn not_found(prefix: &str, id: u128) -> (response: Response)
    ensures
        response@ == not_found_reply(prefix@, id),
{
    let mut message = String::from_str(prefix);
    let id_text = hyphenated_text(id);
    message.append(id_text.as_str());
    message.append(" not found");
    Response::failure(404, "fail", message)
}

/// The statement that writes one record anew.
#[derive(Debug)]
pub struct UpdateCommand {
    pub text: String,
    pub rating: i32,
    pub updated_at: Timestamp,
    pub id: u128,
}

pub struct UpdateCommandView {
    pub text: Seq<char>,
    pub rating: i32,
    pub updated_at: Timestamp,
    pub id: u128,
}

impl View for UpdateCommand {
    type V = UpdateCommandView;

    open spec fn view(&self) -> UpdateCommandView {
        UpdateCommandView {
            text: self.text@,
            rating: self.rating,
            updated_at: self.updated_at,
            id: self.id,
        }
    }
}

/// What an update does once the record has been looked up: answer at once,
/// or write the record anew.
#[derive(Debug)]
pub enum EditStep {
    Respond(Response),
    Update(UpdateCommand),
}

pub enum EditStepView {
    Respond(ResponseView),
    Update(UpdateCommandView),
}

impl View for EditStep {
    type V = EditStepView;

    open spec fn view(&self) -> EditStepView {
        match *self {
            EditStep::Respond(response) => EditStepView::Respond(response@),
            EditStep::Update(command) => EditStepView::Update(command@),
        }
    }
}

/// The step after the lookup. Where the lookup failed, for whatever reason,
/// the answer is 404. Otherwise each field takes the body's value if it has
/// one and keeps the stored value if not, and the time of update becomes
/// `now` whether or not anything changes.
pub open spec fn edit_step(
    id: u128,
    text: Option<Seq<char>>,
    rating: Option<i32>,
    fetched: Result<FeedbackModelView, StoreErrorView>,
    now: Timestamp,
) -> EditStepView {
    match fetched {
        Err(_) => EditStepView::Respond(not_found_reply("Feedback with ID: "@, id)),
        Ok(stored) => EditStepView::Update(
            UpdateCommandView {
                text: match text {
                    Some(text) => text,
                    None => stored.text,
                },
                rating: match rating {
                    Some(rating) => rating,
                    None => stored.rating,
                },
                updated_at: now,
                id,
            },
        ),
    }
}

/// Decides the step after the lookup, for an update made at `now`.
pub fn edit_plan_at(
    id: u128,
    body: &UpdateFeedbackSchema,
    fetched: Result<FeedbackModel, StoreError>,
    now: Timestamp,
) -> (step: EditStep)
    ensures
        step@ == edit_step(id, body.text_view(), body.rating, row_result_view(fetched), now),
{
    match fetched {
        Err(_) => EditStep::Respond(not_found("Feedback with ID: ", id)),
        Ok(stored) => {
            let text = match &body.text {
                Some(text) => text.clone(),
                None => stored.text,
            };
            let rating = match body.rating {
                Some(rating) => rating,
                None => stored.rating,
            };
            EditStep::Update(UpdateCommand { text, rating, updated_at: now, id })
        },
    }
}

/// Decides the step after the lookup, for an update made now: it is the step
/// of `edit_step` for whatever instant the clock gave.
pub fn edit_plan(
    id: u128,
    body: &UpdateFeedbackSchema,
    fetched: Result<FeedbackModel, StoreError>,
) -> (step: EditStep)
    ensures
        exists|now: Timestamp|
            step@ == edit_step(id, body.text_view(), body.rating, row_result_view(fetched), now),
{
    let now = current_time();
    edit_plan_at(id, body, fetched, now)
}

/// The answer to an update that the store could not run.
pub open spec fn edit_failure() -> ResponseView {
    ResponseView::failure(
        500,
        "error"@,
        "Something bad happened while updating the feedback item"@,
    )
}

/// The answer to an update once the store has run it: the new record with
/// 200, or 500 with a message that tells nothing of the failure.
pub open spec fn edit_reply(result: Result<FeedbackModelView, StoreErrorView>) -> ResponseView {
    match result {
        Ok(feedback) => ResponseView::feedback(feedback),
        Err(_) => edit_failure(),
    }
}

/// Answers an update once the store has run it.
pub fn edit_response(result: Result<FeedbackModel, StoreError>) -> (response: Response)
    ensures
        response@ == edit_reply(row_result_view(result)),
{
    match result {
        Ok(feedback) => Response::feedback(feedback),
        Err(_) => Response::failure(
            500,
            "error",
            String::from_str("Something bad happened while updating the feedback item"),
        ),
    }
}

/// A partial update against a table: the table it leaves and the answer.
pub open spec fn edit_feedback(
    table: TableView,
    id: u128,
    text: Option<Seq<char>>,
    rating: Option<i32>,
    now: Timestamp,
) -> (TableView, ResponseView) {
    match edit_step(id, text, rating, table.select_by_id(id), now) {
        EditStepView::Respond(response) => (table, response),
        EditStepView::Update(command) => {
            let (after, result) = table.update(
                command.text,
                command.rating,
                command.updated_at,
                command.id,
            );
            (after, edit_reply(result))
        },
    }
}

/// Updates the record `id` of `data` at the instant `now`.
pub fn edit_feedback_at(
    id: u128,
    body: &UpdateFeedbackSchema,
    data: &mut FeedbackTable,
    now: Timestamp,
) -> (response: Response)
    ensures
        final(data)@ == edit_feedback(old(data)@, id, body.text_view(), body.rating, now).0,
        response@ == edit_feedback(old(data)@, id, body.text_view(), body.rating, now).1,
{
    let fetched = data.select_by_id(id);
    match edit_plan_at(id, body, fetched, now) {
        EditStep::Respond(response) => response,
        EditStep::Update(command) => {
            let result = data.update(
                command.text,
                command.rating,
                command.updated_at,
                command.id,
            );
            edit_response(result)
        },
    }
}

/// Updates the record `id` of `data` now: the outcome is that of
/// `edit_feedback` for whatever instant the clock gave.
pub fn edit_feedback_handler(
    id: u128,
    body: &UpdateFeedbackSchema,
    data: &mut FeedbackTable,
) -> (response: Response)
    ensures
        exists|now: Timestamp|
            final(data)@ == edit_feedback(old(data)@, id, body.text_view(), body.rating, now).0
                && response@ == edit_feedback(
                old(data)@,
                id,
                body.text_view(),
                body.rating,
                now,
            ).1,
{
    let now = current_time();
    edit_feedback_at(id, body, data, now)
}

/// The answer to a creation that the store could not run.
pub open spec fn create_failure() -> ResponseView {
    ResponseView::failure(
        500,
        "error"@,
        "Something bad happened while creating the feedback item"@,
    )
}

/// The answer to a creation once the store has run it: the new record with
/// 200; 400 where the store reports a uniqueness violation; for any other
/// failure 500 with a message that tells nothing of it.
pub open spec fn create_reply(result: Result<FeedbackModelView, StoreErrorView>) -> ResponseView {
    match result {
        Ok(feedback) => ResponseView {
            code: 200,
            body: ResponseBodyView::Created { status: "success"@, feedback },
        },
        Err(error) => if error.is_unique_violation() {
            ResponseView::failure(400, "fail"@, "Feedback with that title already exists"@)
        } else {
            create_failure()
        },
    }
}

/// Answers a creation once the store has run it.
pub fn create_response(result: Result<FeedbackModel, StoreError>) -> (response: Response)
    ensures
        response@ == create_reply(row_result_view(result)),
{
    match result {
        Ok(feedback) => Response {
            code: 200,
            body: ResponseBody::Created { status: String::from_str("success"), feedback },
        },
        Err(error) => {
            if error.is_unique_violation() {
                Response::failure(
                    400,
                    "fail",
                    String::from_str("Feedback with that title already exists"),
                )
            } else {
                Response::failure(
                    500,
                    "error",
                    String::from_str("Something bad happened while creating the feedback item"),
                )
            }
        },
    }
}

/// A creation against a table: the table it leaves and the answer.
pub open spec fn create_feedback(table: TableView, text: Seq<char>, rating: i32, now: Timestamp) -> (
    TableView,
    ResponseView,
) {
    let (after, result) = table.insert(text, rating, now);
    (after, create_reply(result))
}

/// Stores a new record in `data`, stamped with the instant `now`.
pub fn create_feedback_at(
    body: &CreateFeedbackSchema,
    data: &mut FeedbackTable,
    now: Timestamp,
) -> (response: Response)
    ensures
        final(data)@ == create_feedback(old(data)@, body.text@, body.rating, now).0,
        response@ == create_feedback(old(data)@, body.text@, body.rating, now).1,
{
    let result = data.insert(body.text.clone(), body.rating, now);
    create_response(result)
}

/// Stores a new record in `data`, stamped with the time of the call: the
/// outcome is that of `create_feedback` for whatever instant the clock gave.
pub fn create_feedback_handler(
    body: &CreateFeedbackSchema,
    data: &mut FeedbackTable,
) -> (response: Response)
    ensures
        exists|now: Timestamp|
            final(data)@ == create_feedback(old(data)@, body.text@, body.rating, now).0
                && response@ == create_feedback(old(data)@, body.text@, body.rating, now).1,
{
    let now = current_time();
    create_feedback_at(body, data, now)
}

/// What a listing does first: answer at once, or ask the store for a window.
#[derive(Debug)]
pub enum ListStep {
    Respond(Response),
    Query(PageQuery),
}

pub enum ListStepView {
    Respond(ResponseView),
    Query(PageQuery),
}

impl View for ListStep {
    type V = ListStepView;

    open spec fn view(&self) -> ListStepView {
        match *self {
            ListStep::Respond(response) => ListStepView::Respond(response@),
            ListStep::Query(query) => ListStepView::Query(query),
        }
    }
}

/// The answer to a listing that could not be served.
pub open spec fn list_failure() -> ResponseView {
    ResponseView::failure(
        500,
        "error"@,
        "Something bad happened while fetching all feedback items"@,
    )
}

/// The first step of a listing: the window `limit`, `(page - 1) * limit` is
/// asked of the store; a window that its parameters cannot express is
/// answered as a failure of the store would be.
pub open spec fn list_step(opts: FilterOptions) -> ListStepView {
    match opts.window() {
        Some(query) => ListStepView::Query(query),
        None => ListStepView::Respond(list_failure()),
    }
}

/// Decides the first step of a listing.
pub fn list_plan(opts: &FilterOptions) -> (step: ListStep)
    ensures
        step@ == list_step(*opts),
{
    match opts.page_query() {
        Some(query) => ListStep::Query(query),
        None => ListStep::Respond(
            Response::failure(
                500,
                "error",
                String::from_str("Something bad happened while fetching all feedback items"),
            ),
        ),
    }
}

/// The answer to a listing once the store has run it: the records in the
/// order the store gave them, with their number, under 200; 500 with a
/// message that tells nothing of the failure otherwise.
pub open spec fn list_reply(result: Result<Seq<FeedbackModelView>, StoreErrorView>) -> ResponseView {
    match result {
        Ok(feedbacks) => ResponseView {
            code: 200,
            body: ResponseBodyView::FeedbackList {
                status: "success"@,
                results: feedbacks.len(),
                feedbacks,
            },
        },
        Err(_) => list_failure(),
    }
}

/// Answers a listing once the store has run it.
pub fn list_response(result: Result<Vec<FeedbackModel>, StoreError>) -> (response: Response)
    ensures
        response@ == list_reply(rows_result_view(result)),
{
    match result {
        Ok(feedbacks) => Response {
            code: 200,
            body: ResponseBody::FeedbackList {
                status: String::from_str("success"),
                results: feedbacks.len(),
                feedbacks,
            },
        },
        Err(_) => Response::failure(
            500,
            "error",
            String::from_str("Something bad happened while fetching all feedback items"),
        ),
    }
}

/// A listing against a table.
pub open spec fn list_feedbacks(table: TableView, opts: FilterOptions) -> ResponseView {
    match list_step(opts) {
        ListStepView::Respond(response) => response,
        ListStepView::Query(query) => list_reply(table.select_page(query.limit, query.offset)),
    }
}

/// Lists a page of the records of `data`.
pub fn feedback_list_handler(opts: &FilterOptions, data: &FeedbackTable) -> (response: Response)
    ensures
        response@ == list_feedbacks(data@, *opts),
{
    match list_plan(opts) {
        ListStep::Respond(response) => response,
        ListStep::Query(query) => list_response(data.select_page(query.limit, query.offset)),
    }
}

/// The answer to a lookup once the store has run it: the record with 200, or
/// 404 for any failure, whatever its reason.
pub open spec fn get_reply(id: u128, result: Result<FeedbackModelView, StoreErrorView>) -> ResponseView {
    match result {
        Ok(feedback) => ResponseView::feedback(feedback),
        Err(_) => not_found_reply("feedback with ID: "@, id),
    }
}

/// Answers a lookup once the store has run it.
pub fn get_response(id: u128, result: Result<FeedbackModel, StoreError>) -> (response: Response)
    ensures
        response@ == get_reply(id, row_result_view(result)),
{
    match result {
        Ok(feedback) => Response::feedback(feedback),
        Err(_) => not_found("feedback with ID: ", id),
    }
}

/// A lookup against a table.
pub open spec fn get_feedback(table: TableView, id: u128) -> ResponseView {
    get_reply(id, table.select_by_id(id))
}

/// Looks up the record `id` of `data`.
pub fn get_feedback_handler(id: u128, data: &FeedbackTable) -> (response: Response)
    ensures
        response@ == get_feedback(data@, id),
{
    get_response(id, data.select_by_id(id))
}

/// The answer to a deletion that the store could not run.
pub open spec fn delete_failure() -> ResponseView {
    ResponseView::failure(
        500,
        "error"@,
        "Something bad happened while deleting the feedback item"@,
    )
}

/// The answer to a deletion once the store has run it: 404 where no row was
/// affected, 204 without a body where one was, 500 where the store failed.
pub open spec fn delete_reply(id: u128, result: Result<u64, StoreErrorView>) -> ResponseView {
    match result {
        Ok(rows_affected) => if rows_affected == 0 {
            not_found_reply("Feedback with ID: "@, id)
        } else {
            ResponseView { code: 204, body: ResponseBodyView::Empty }
        },
        Err(_) => delete_failure(),
    }
}

/// Answers a deletion once the store has run it.
pub fn delete_response(id: u128, result: Result<u64, StoreError>) -> (response: Response)
    ensures
        response@ == delete_reply(id, count_result_view(result)),
{
    match result {
        Ok(rows_affected) => {
            if rows_affected == 0 {
                not_found("Feedback with ID: ", id)
            } else {
                Response { code: 204, body: ResponseBody::Empty }
            }
        },
        Err(_) => Response::failure(
            500,
            "error",
            String::from_str("Something bad happened while deleting the feedback item"),
        ),
    }
}

/// A deletion against a table: the table it leaves and the answer.
pub open spec fn delete_feedback(table: TableView, id: u128) -> (TableView, ResponseView) {
    let (after, result) = table.delete(id);
    (after, delete_reply(id, result))
}

/// Deletes the record `id` of `data`.
pub fn delete_feedback_handler(id: u128, data: &mut FeedbackTable) -> (response: Response)
    ensures
        final(data)@ == delete_feedback(old(data)@, id).0,
        response@ == delete_feedback(old(data)@, id).1,
{
    let result = data.delete(id);
    delete_response(id, result)
}

/// The message of the liveness probe.
pub open spec fn health_message() -> Seq<char> {
    "Build API with Rust, SQLX, Postgres,and Actix Web"@
}

/// The answer to the liveness probe at the instant `now`.
pub open spec fn health_reply(now: Timestamp) -> ResponseView {
    ResponseView {
        code: 200,
        body: ResponseBodyView::Health { message: health_message(), timestamp: now },
    }
}

/// Answers the liveness probe at the instant `now`.
pub fn health_response(now: Timestamp) -> (response: Response)
    ensures
        response@ == health_reply(now),
{
    Response {
        code: 200,
        body: ResponseBody::Health {
            message: String::from_str("Build API with Rust, SQLX, Postgres,and Actix Web"),
            timestamp: now,
        },
    }
}

/// Answers the liveness probe: 200, the static message, and whatever instant
/// the clock gave.
pub fn health_checker_handler() -> (response: Response)
    ensures
        exists|now: Timestamp| response@ == health_reply(now),
{
    let now = current_time();
    health_response(now)
}

/// Mounts the service: adds the scope `/api` with its six routes to `conf`,
/// after whatever was mounted before.
pub fn config(conf: &mut ServiceConfig)
    ensures
        final(conf)@ == old(conf)@.push(api_scope()),
{
    let mut routes: Vec<Route> = Vec::new();
    routes.push(
        Route { method: Method::Get, path: "/healthchecker", handler: Handler::HealthChecker },
    );
    routes.push(Route { method: Method::Get, path: "/feedbacks", handler: Handler::FeedbackList });
    routes.push(
        Route { method: Method::Post, path: "/feedbacks/", handler: Handler::CreateFeedback },
    );
    routes.push(
        Route { method: Method::Get, path: "/feedbacks/{id}", handler: Handler::GetFeedback },
    );
    routes.push(
        Route { method: Method::Patch, path: "/feedbacks/{id}", handler: Handler::EditFeedback },
    );
    routes.push(
        Route { method: Method::Delete, path: "/feedbacks/{id}", handler: Handler::DeleteFeedback },
    );
    let scope = Scope { prefix: "/api", routes };
    assert(scope@.routes =~= api_scope().routes);
    conf.scopes.push(scope);
    assert(conf@ =~= old(conf)@.push(api_scope()));
}

} // verus!
