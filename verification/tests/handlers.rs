use feedback_api::clock::Timestamp;
use feedback_api::handler::{
    create_feedback_at, create_feedback_handler, create_response, delete_feedback_handler,
    delete_response, edit_feedback_at, edit_feedback_handler, edit_plan, edit_plan_at,
    edit_response, feedback_list_handler, get_feedback_handler, get_response,
    health_checker_handler, health_response, list_plan, list_response, EditStep, ListStep,
};
use feedback_api::model::{FeedbackModel, StoreError, StoreErrorKind};
use feedback_api::response::{Response, ResponseBody};
use feedback_api::schema::{CreateFeedbackSchema, FilterOptions, PageQuery, UpdateFeedbackSchema};
use feedback_api::store::FeedbackTable;

fn at(secs: i64) -> Timestamp {
    Timestamp { secs, nanos: 0 }
}

fn new_feedback(text: &str, rating: i32) -> CreateFeedbackSchema {
    CreateFeedbackSchema { text: text.to_string(), rating }
}

fn created(response: Response) -> FeedbackModel {
    assert_eq!(response.code, 200);
    match response.body {
        ResponseBody::Created { status, feedback } => {
            assert_eq!(status, "success");
            feedback
        }
        other => panic!("not a creation: {:?}", other),
    }
}

fn single(response: Response) -> FeedbackModel {
    assert_eq!(response.code, 200);
    match response.body {
        ResponseBody::Feedback { status, feedback } => {
            assert_eq!(status, "success");
            feedback
        }
        other => panic!("not a record: {:?}", other),
    }
}

fn listed(response: Response) -> Vec<FeedbackModel> {
    assert_eq!(response.code, 200);
    match response.body {
        ResponseBody::FeedbackList { status, results, feedbacks } => {
            assert_eq!(status, "success");
            assert_eq!(results, feedbacks.len());
            feedbacks
        }
        other => panic!("not a listing: {:?}", other),
    }
}

fn failure(response: Response) -> (u16, String, String) {
    match response.body {
        ResponseBody::Error(error) => (response.code, error.status, error.message),
        other => panic!("not a failure: {:?}", other),
    }
}

fn store_error(kind: StoreErrorKind, message: &str) -> StoreError {
    StoreError { kind, message: message.to_string() }
}

fn table_of(count: i32) -> FeedbackTable {
    let mut table = FeedbackTable::new();
    for n in 0..count {
        let body = new_feedback(&format!("feedback {}", n), n);
        created(create_feedback_at(&body, &mut table, at(100 + n as i64)));
    }
    table
}

fn page(page: usize, limit: usize) -> FilterOptions {
    FilterOptions { page: Some(page), limit: Some(limit) }
}

#[test]
fn created_record_is_fetched_with_same_text_and_rating() {
    let mut table = FeedbackTable::new();
    let feedback = created(create_feedback_handler(&new_feedback("hello", 5), &mut table));
    assert_eq!(feedback.text, "hello");
    assert_eq!(feedback.rating, 5);
    let fetched = single(get_feedback_handler(feedback.id, &table));
    assert_eq!(fetched.text, "hello");
    assert_eq!(fetched.rating, 5);
    assert_eq!(fetched, feedback);
}

#[test]
fn created_record_is_stamped_once() {
    let mut table = FeedbackTable::new();
    let now = Timestamp { secs: 1_700_000_000, nanos: 123_456_789 };
    let feedback = created(create_feedback_at(&new_feedback("stamp", 3), &mut table, now));
    assert_eq!(feedback.created_at, now);
    assert_eq!(feedback.updated_at, now);
    assert_eq!(feedback.id, 1);
}

#[test]
fn pages_of_two_over_five_records() {
    let table = table_of(5);
    let all = listed(feedback_list_handler(&page(1, 10), &table));
    assert_eq!(all.len(), 5);
    for pair in all.windows(2) {
        assert!(pair[0].id < pair[1].id);
    }

    let first = listed(feedback_list_handler(&page(1, 2), &table));
    assert_eq!(first.len(), 2);
    assert_eq!(first[0], all[0]);
    assert_eq!(first[1], all[1]);

    let second = listed(feedback_list_handler(&page(2, 2), &table));
    assert_eq!(second.len(), 2);
    assert_eq!(second[0], all[2]);
    assert_eq!(second[1], all[3]);

    let third = listed(feedback_list_handler(&page(3, 2), &table));
    assert_eq!(third.len(), 1);
    assert_eq!(third[0], all[4]);

    let fourth = listed(feedback_list_handler(&page(4, 2), &table));
    assert!(fourth.is_empty());
}

#[test]
fn listing_defaults_to_first_ten() {
    let table = table_of(12);
    let opts = FilterOptions { page: None, limit: None };
    let first = listed(feedback_list_handler(&opts, &table));
    assert_eq!(first.len(), 10);
    assert_eq!(first[0].text, "feedback 0");
    assert_eq!(first[9].text, "feedback 9");
    let opts = FilterOptions { page: Some(2), limit: None };
    let second = listed(feedback_list_handler(&opts, &table));
    assert_eq!(second.len(), 2);
    assert_eq!(second[0].text, "feedback 10");
}

#[test]
fn listing_an_empty_table() {
    let table = FeedbackTable::new();
    let opts = FilterOptions { page: None, limit: None };
    assert!(listed(feedback_list_handler(&opts, &table)).is_empty());
}

#[test]
fn limit_of_zero_lists_nothing() {
    let table = table_of(3);
    assert!(listed(feedback_list_handler(&page(1, 0), &table)).is_empty());
    assert!(listed(feedback_list_handler(&page(0, 0), &table)).is_empty());
}

#[test]
fn page_zero_is_answered_as_a_store_failure() {
    let table = table_of(3);
    let (code, status, message) = failure(feedback_list_handler(&page(0, 2), &table));
    assert_eq!(code, 500);
    assert_eq!(status, "error");
    assert_eq!(message, "Something bad happened while fetching all feedback items");
}

#[test]
fn window_of_a_listing() {
    let opts = FilterOptions { page: None, limit: None };
    assert_eq!(opts.page_query(), Some(PageQuery { limit: 10, offset: 0 }));
    assert_eq!(page(3, 7).page_query(), Some(PageQuery { limit: 7, offset: 14 }));
    assert_eq!(page(1, 25).page_query(), Some(PageQuery { limit: 25, offset: 0 }));
    assert_eq!(page(0, 4).page_query(), Some(PageQuery { limit: 4, offset: -4 }));
    let opts = FilterOptions { page: Some(5), limit: None };
    assert_eq!(opts.page_query(), Some(PageQuery { limit: 10, offset: 40 }));
    let opts = FilterOptions { page: None, limit: Some(3) };
    assert_eq!(opts.page_query(), Some(PageQuery { limit: 3, offset: 0 }));
}

#[test]
fn window_beyond_the_store_parameters() {
    assert_eq!(page(usize::MAX, usize::MAX).page_query(), None);
    assert_eq!(page(usize::MAX, 2).page_query(), None);
    let largest = i64::MAX as usize;
    assert_eq!(page(1, largest).page_query(), Some(PageQuery { limit: i64::MAX, offset: 0 }));
    assert_eq!(
        page(2, largest).page_query(),
        Some(PageQuery { limit: i64::MAX, offset: i64::MAX })
    );
    assert_eq!(page(3, largest).page_query(), None);
    assert_eq!(
        page(0, largest).page_query(),
        Some(PageQuery { limit: i64::MAX, offset: -i64::MAX })
    );
    assert_eq!(page(1, largest + 1).page_query(), None);
}

#[test]
fn plan_of_a_listing() {
    match list_plan(&page(2, 5)) {
        ListStep::Query(query) => assert_eq!(query, PageQuery { limit: 5, offset: 5 }),
        other => panic!("no query: {:?}", other),
    }
    match list_plan(&page(usize::MAX, usize::MAX)) {
        ListStep::Respond(response) => {
            let (code, status, message) = failure(response);
            assert_eq!(code, 500);
            assert_eq!(status, "error");
            assert_eq!(message, "Something bad happened while fetching all feedback items");
        }
        other => panic!("no answer: {:?}", other),
    }
}

#[test]
fn listing_answers_for_the_store() {
    let rows = vec![
        FeedbackModel {
            id: 9,
            text: "nine".to_string(),
            rating: 9,
            created_at: at(1),
            updated_at: at(2),
        },
        FeedbackModel {
            id: 4,
            text: "four".to_string(),
            rating: 4,
            created_at: at(3),
            updated_at: at(3),
        },
    ];
    let feedbacks = listed(list_response(Ok(rows)));
    assert_eq!(feedbacks.len(), 2);
    assert_eq!(feedbacks[0].id, 9);
    assert_eq!(feedbacks[1].id, 4);

    let (code, status, message) =
        failure(list_response(Err(store_error(StoreErrorKind::Other, "connection reset"))));
    assert_eq!(code, 500);
    assert_eq!(status, "error");
    assert_eq!(message, "Something bad happened while fetching all feedback items");
}

#[test]
fn updating_only_the_rating_keeps_the_text() {
    let mut table = FeedbackTable::new();
    let before = created(create_feedback_at(&new_feedback("keep me", 2), &mut table, at(10)));
    let body = UpdateFeedbackSchema { text: None, rating: Some(4) };
    let after = single(edit_feedback_at(before.id, &body, &mut table, at(11)));
    assert_eq!(after.text, "keep me");
    assert_eq!(after.rating, 4);
    assert_eq!(after.id, before.id);
    assert_eq!(after.created_at, before.created_at);
    assert!(before.updated_at.is_before(&after.updated_at));
    assert_eq!(after.updated_at, at(11));
    assert_eq!(single(get_feedback_handler(before.id, &table)), after);
}

#[test]
fn updating_only_the_text_keeps_the_rating() {
    let mut table = FeedbackTable::new();
    let before = created(create_feedback_at(&new_feedback("old", 2), &mut table, at(10)));
    let body = UpdateFeedbackSchema { text: Some("new".to_string()), rating: None };
    let after = single(edit_feedback_at(before.id, &body, &mut table, at(12)));
    assert_eq!(after.text, "new");
    assert_eq!(after.rating, 2);
}

#[test]
fn updating_nothing_still_moves_the_time_of_update() {
    let mut table = FeedbackTable::new();
    let before = created(create_feedback_at(&new_feedback("same", 1), &mut table, at(10)));
    let body = UpdateFeedbackSchema { text: None, rating: None };
    let after = single(edit_feedback_at(before.id, &body, &mut table, at(20)));
    assert_eq!(after.text, "same");
    assert_eq!(after.rating, 1);
    assert_eq!(after.created_at, at(10));
    assert_eq!(after.updated_at, at(20));
}

#[test]
fn updating_both_fields() {
    let mut table = table_of(3);
    let body = UpdateFeedbackSchema { text: Some("changed".to_string()), rating: Some(-7) };
    let after = single(edit_feedback_at(2, &body, &mut table, at(500)));
    assert_eq!(after.id, 2);
    assert_eq!(after.text, "changed");
    assert_eq!(after.rating, -7);
    let all = listed(feedback_list_handler(&page(1, 10), &table));
    assert_eq!(all.len(), 3);
    assert_eq!(all[0].text, "feedback 0");
    assert_eq!(all[1], after);
    assert_eq!(all[2].text, "feedback 2");
}

#[test]
fn updating_with_the_clock() {
    let mut table = FeedbackTable::new();
    let before = created(create_feedback_handler(&new_feedback("clock", 1), &mut table));
    let body = UpdateFeedbackSchema { text: None, rating: Some(2) };
    let after = single(edit_feedback_handler(before.id, &body, &mut table));
    assert_eq!(after.text, "clock");
    assert_eq!(after.rating, 2);
    assert_eq!(after.id, before.id);
    assert_eq!(after.created_at, before.created_at);
    assert_eq!(single(get_feedback_handler(before.id, &table)), after);
}

#[test]
fn plan_of_an_update() {
    let stored = FeedbackModel {
        id: 77,
        text: "stored".to_string(),
        rating: 3,
        created_at: at(1),
        updated_at: at(2),
    };
    let body = UpdateFeedbackSchema { text: None, rating: Some(5) };
    match edit_plan_at(77, &body, Ok(stored), at(9)) {
        EditStep::Update(command) => {
            assert_eq!(command.text, "stored");
            assert_eq!(command.rating, 5);
            assert_eq!(command.updated_at, at(9));
            assert_eq!(command.id, 77);
        }
        other => panic!("no update: {:?}", other),
    }
    let missing = store_error(StoreErrorKind::RowNotFound, "no rows returned");
    match edit_plan_at(77, &body, Err(missing), at(9)) {
        EditStep::Respond(response) => {
            let (code, status, message) = failure(response);
            assert_eq!(code, 404);
            assert_eq!(status, "fail");
            assert_eq!(
                message,
                "Feedback with ID: 00000000-0000-0000-0000-00000000004d not found"
            );
        }
        other => panic!("no answer: {:?}", other),
    }
}

#[test]
fn plan_of_an_update_made_now() {
    let stored = FeedbackModel {
        id: 1,
        text: "stored".to_string(),
        rating: 3,
        created_at: at(1),
        updated_at: at(2),
    };
    let body = UpdateFeedbackSchema { text: Some("fresh".to_string()), rating: None };
    match edit_plan(1, &body, Ok(stored)) {
        EditStep::Update(command) => {
            assert_eq!(command.text, "fresh");
            assert_eq!(command.rating, 3);
            assert_eq!(command.id, 1);
        }
        other => panic!("no update: {:?}", other),
    }
}

#[test]
fn update_answers_for_the_store() {
    let row = FeedbackModel {
        id: 3,
        text: "t".to_string(),
        rating: 1,
        created_at: at(1),
        updated_at: at(2),
    };
    assert_eq!(single(edit_response(Ok(row.clone()))), row);
    let kinds = [StoreErrorKind::Other, StoreErrorKind::RowNotFound, StoreErrorKind::UniqueViolation];
    for kind in kinds {
        let failed = store_error(kind, "pool timed out while waiting for an open connection");
        let (code, status, message) = failure(edit_response(Err(failed)));
        assert_eq!(code, 500);
        assert_eq!(status, "error");
        assert_eq!(message, "Something bad happened while updating the feedback item");
    }
}

#[test]
fn deleted_record_is_not_found_again() {
    let mut table = table_of(3);
    let first = delete_feedback_handler(2, &mut table);
    assert_eq!(first.code, 204);
    assert!(matches!(first.body, ResponseBody::Empty));

    let (code, status, message) = failure(get_feedback_handler(2, &table));
    assert_eq!(code, 404);
    assert_eq!(status, "fail");
    assert_eq!(message, "feedback with ID: 00000000-0000-0000-0000-000000000002 not found");

    let (code, status, message) = failure(delete_feedback_handler(2, &mut table));
    assert_eq!(code, 404);
    assert_eq!(status, "fail");
    assert_eq!(message, "Feedback with ID: 00000000-0000-0000-0000-000000000002 not found");

    let rest = listed(feedback_list_handler(&page(1, 10), &table));
    assert_eq!(rest.len(), 2);
    assert_eq!(rest[0].id, 1);
    assert_eq!(rest[1].id, 3);
}

#[test]
fn deletion_answers_for_the_store() {
    let (code, status, message) = failure(delete_response(5, Ok(0)));
    assert_eq!(code, 404);
    assert_eq!(status, "fail");
    assert_eq!(message, "Feedback with ID: 00000000-0000-0000-0000-000000000005 not found");

    let done = delete_response(5, Ok(1));
    assert_eq!(done.code, 204);
    assert!(matches!(done.body, ResponseBody::Empty));
    let done = delete_response(5, Ok(3));
    assert_eq!(done.code, 204);

    let (code, status, message) =
        failure(delete_response(5, Err(store_error(StoreErrorKind::Other, "connection reset"))));
    assert_eq!(code, 500);
    assert_eq!(status, "error");
    assert_eq!(message, "Something bad happened while deleting the feedback item");
}

#[test]
fn missing_identifier_is_not_found() {
    let mut table = table_of(2);
    let id: u128 = 0xa1a2a3a4b1b2c1c2d1d2d3d4d5d6d7d8;
    let (code, status, message) = failure(get_feedback_handler(id, &table));
    assert_eq!(code, 404);
    assert_eq!(status, "fail");
    assert_eq!(message, "feedback with ID: a1a2a3a4-b1b2-c1c2-d1d2-d3d4d5d6d7d8 not found");

    let body = UpdateFeedbackSchema { text: Some("x".to_string()), rating: Some(1) };
    let (code, status, message) = failure(edit_feedback_handler(id, &body, &mut table));
    assert_eq!(code, 404);
    assert_eq!(status, "fail");
    assert_eq!(message, "Feedback with ID: a1a2a3a4-b1b2-c1c2-d1d2-d3d4d5d6d7d8 not found");

    let (code, _, _) = failure(edit_feedback_at(id, &body, &mut table, at(1)));
    assert_eq!(code, 404);
    assert_eq!(table.len(), 2);
}

#[test]
fn lookup_answers_for_the_store() {
    let row = FeedbackModel {
        id: 3,
        text: "t".to_string(),
        rating: 1,
        created_at: at(1),
        updated_at: at(2),
    };
    assert_eq!(single(get_response(3, Ok(row.clone()))), row);
    let (code, status, message) =
        failure(get_response(3, Err(store_error(StoreErrorKind::Other, "pool timed out"))));
    assert_eq!(code, 404);
    assert_eq!(status, "fail");
    assert_eq!(message, "feedback with ID: 00000000-0000-0000-0000-000000000003 not found");
}

#[test]
fn identifier_is_named_as_the_uuid_crate_writes_it() {
    let ids: [u128; 5] = [
        0,
        1,
        u128::MAX,
        0x0123456789abcdef_fedcba9876543210,
        0x936da01f9abd4d9d80c702af85c822a8,
    ];
    for id in ids {
        let (_, _, message) = failure(delete_response(id, Ok(0)));
        let expected = format!("Feedback with ID: {} not found", uuid::Uuid::from_u128(id));
        assert_eq!(message, expected);
    }
    let (_, _, message) = failure(delete_response(0x936da01f9abd4d9d80c702af85c822a8, Ok(0)));
    assert_eq!(message, "Feedback with ID: 936da01f-9abd-4d9d-80c7-02af85c822a8 not found");
    let (_, _, message) = failure(delete_response(u128::MAX, Ok(0)));
    assert_eq!(message, "Feedback with ID: ffffffff-ffff-ffff-ffff-ffffffffffff not found");
}

#[test]
fn creation_round_trip() {
    let cases: [(&str, i32); 7] = [
        ("hello", 5),
        ("", 0),
        ("negative", -1),
        ("largest", i32::MAX),
        ("smallest", i32::MIN),
        ("  spaces kept  ", 300),
        ("grüße, 世界 — \u{1F600}\n\ttabs", 7),
    ];
    let mut table = FeedbackTable::new();
    for (text, rating) in cases {
        let feedback = created(create_feedback_at(&new_feedback(text, rating), &mut table, at(1)));
        assert_eq!(feedback.text, text);
        assert_eq!(feedback.rating, rating);
        let stored = single(get_feedback_handler(feedback.id, &table));
        assert_eq!(stored, feedback);
    }
    let long = "x".repeat(100_000);
    let feedback = created(create_feedback_at(&new_feedback(&long, 1), &mut table, at(1)));
    assert_eq!(feedback.text, long);
    assert_eq!(table.len(), 8);
}

#[test]
fn creation_answers_for_the_store() {
    let row = FeedbackModel {
        id: 3,
        text: "t".to_string(),
        rating: 1,
        created_at: at(1),
        updated_at: at(1),
    };
    assert_eq!(created(create_response(Ok(row.clone()))), row);

    let duplicate = store_error(
        StoreErrorKind::UniqueViolation,
        "error returned from database: duplicate key value violates unique constraint \"feedbacks_text_key\"",
    );
    let (code, status, message) = failure(create_response(Err(duplicate)));
    assert_eq!(code, 400);
    assert_eq!(status, "fail");
    assert_eq!(message, "Feedback with that title already exists");

    let texts = [
        "pool timed out while waiting for an open connection",
        "error returned from database: relation \"feedbacks\" does not exist",
        "duplicate key value violates unique constraint",
        "",
    ];
    for text in texts {
        for kind in [StoreErrorKind::Other, StoreErrorKind::RowNotFound] {
            let (code, status, message) = failure(create_response(Err(store_error(kind, text))));
            assert_eq!(code, 500);
            assert_eq!(status, "error");
            assert_eq!(message, "Something bad happened while creating the feedback item");
        }
    }
}

#[test]
fn identifiers_are_not_reused() {
    let mut table = table_of(3);
    assert_eq!(delete_feedback_handler(3, &mut table).code, 204);
    let feedback = created(create_feedback_at(&new_feedback("again", 1), &mut table, at(1)));
    assert_eq!(feedback.id, 4);
    assert_eq!(delete_feedback_handler(1, &mut table).code, 204);
    let feedback = created(create_feedback_at(&new_feedback("more", 1), &mut table, at(1)));
    assert_eq!(feedback.id, 5);
}

#[test]
fn health_check() {
    let now = Timestamp { secs: 1_700_000_000, nanos: 5 };
    let response = health_response(now);
    assert_eq!(response.code, 200);
    match response.body {
        ResponseBody::Health { message, timestamp } => {
            assert_eq!(message, "Build API with Rust, SQLX, Postgres,and Actix Web");
            assert_eq!(timestamp, now);
        }
        other => panic!("not a health check: {:?}", other),
    }
}

#[test]
fn health_check_with_the_clock() {
    let response = health_checker_handler();
    assert_eq!(response.code, 200);
    match response.body {
        ResponseBody::Health { message, .. } => {
            assert_eq!(message, "Build API with Rust, SQLX, Postgres,and Actix Web");
        }
        other => panic!("not a health check: {:?}", other),
    }
}
