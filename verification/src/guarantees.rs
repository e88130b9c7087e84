//! What holds of the handlers over every table: statements about more than
//! one call, proved from the contracts of the calls.

use crate::clock::Timestamp;
use crate::handler::{
    create_failure, create_feedback, create_reply, delete_failure, delete_feedback, delete_reply,
    edit_failure, edit_feedback, edit_reply, edit_step, get_feedback, get_reply, list_failure,
    list_feedbacks, list_reply, not_found_reply, EditStepView,
};
use crate::model::{FeedbackModelView, StoreErrorKind, StoreErrorView};
use crate::response::{ResponseBodyView, ResponseView};
use crate::schema::FilterOptions;
use crate::store::TableView;
use vstd::prelude::*;

verus! {

/// The value that an absent field leaves in place.
pub open spec fn merged<T>(new: Option<T>, stored: T) -> T {
    match new {
        Some(new) => new,
        None => stored,
    }
}

/// A record that is created can be fetched: while identifiers are left,
/// creating with any text and rating answers 200 with a record that holds
/// exactly that text and rating, the table holds that very record, and a
/// lookup by the identifier returned answers 200 with it.
pub proof fn lemma_create_round_trip(table: TableView, text: Seq<char>, rating: i32, now: Timestamp)
    requires
        table.wf(),
        table.next_id < u128::MAX,
    ensures
        ({
            let (after, response) = create_feedback(table, text, rating, now);
            &&& response.code == 200
            &&& response.body matches ResponseBodyView::Created { status, feedback }
            &&& status == "success"@
            &&& feedback.text == text
            &&& feedback.rating == rating
            &&& feedback.created_at == now
            &&& feedback.updated_at == now
            &&& !table.contains(feedback.id)
            &&& after.select_by_id(feedback.id) == Ok::<FeedbackModelView, StoreErrorView>(
                feedback,
            )
            &&& get_feedback(after, feedback.id) == ResponseView::feedback(feedback)
        }),
{
    let after = table.insert(text, rating, now).0;
    let at = table.rows.len() as int;
    table.lemma_insert_keeps_wf(text, rating, now);
    assert(after.holds_at(table.next_id, at));
    after.lemma_position(table.next_id, at);
    if table.contains(table.next_id) {
        assert(table.holds_at(table.next_id, table.position(table.next_id)));
    }
}

/// A partial update merges: on a record that exists, each field takes the
/// body's value if it has one and keeps the stored value if not, the time of
/// update becomes `now`, identifier and time of creation stay, the answer is
/// 200 with the new record, and the table holds the new record in place of
/// the old with every other record as it was.
pub proof fn lemma_edit_merges(
    table: TableView,
    id: u128,
    text: Option<Seq<char>>,
    rating: Option<i32>,
    now: Timestamp,
)
    requires
        table.wf(),
        table.contains(id),
    ensures
        ({
            let stored = table.rows[table.position(id)];
            let updated = FeedbackModelView {
                id,
                text: merged(text, stored.text),
                rating: merged(rating, stored.rating),
                created_at: stored.created_at,
                updated_at: now,
            };
            let (after, response) = edit_feedback(table, id, text, rating, now);
            &&& response == ResponseView::feedback(updated)
            &&& after.rows == table.rows.update(table.position(id), updated)
            &&& after.next_id == table.next_id
            &&& after.select_by_id(id) == Ok::<FeedbackModelView, StoreErrorView>(updated)
        }),
{
    let at = table.position(id);
    assert(table.holds_at(id, at));
    let after = edit_feedback(table, id, text, rating, now).0;
    table.lemma_update_keeps_wf(
        merged(text, table.rows[at].text),
        merged(rating, table.rows[at].rating),
        now,
        id,
    );
    assert(after.holds_at(id, at));
    after.lemma_position(id, at);
}

/// Updating only the rating of a record that exists, at an instant after its
/// last update, keeps its text, sets the new rating, and moves the time of
/// update strictly forward.
pub proof fn lemma_rating_only_update(table: TableView, id: u128, rating: i32, now: Timestamp)
    requires
        table.wf(),
        table.contains(id),
        table.rows[table.position(id)].updated_at.before(now),
    ensures
        ({
            let stored = table.rows[table.position(id)];
            let (after, response) = edit_feedback(table, id, None, Some(rating), now);
            &&& response.code == 200
            &&& response.body matches ResponseBodyView::Feedback { status, feedback }
            &&& feedback.text == stored.text
            &&& feedback.rating == rating
            &&& stored.updated_at.before(feedback.updated_at)
            &&& after.select_by_id(id) == Ok::<FeedbackModelView, StoreErrorView>(feedback)
        }),
{
    lemma_edit_merges(table, id, None, Some(rating), now);
}

/// A deleted record is gone, and stays gone: after a deletion, whatever it
/// answered, a lookup of the same identifier answers 404, and a second
/// deletion answers 404 and leaves the table as it is.
pub proof fn lemma_delete_then_absent(table: TableView, id: u128)
    requires
        table.wf(),
    ensures
        ({
            let (after, response) = delete_feedback(table, id);
            &&& table.contains(id) ==> response == (ResponseView {
                code: 204,
                body: ResponseBodyView::Empty,
            })
            &&& !table.contains(id) ==> response == not_found_reply("Feedback with ID: "@, id)
            &&& !after.contains(id)
            &&& get_feedback(after, id) == not_found_reply("feedback with ID: "@, id)
            &&& delete_feedback(after, id) == (after, not_found_reply("Feedback with ID: "@, id))
        }),
{
    let after = delete_feedback(table, id).0;
    if table.contains(id) {
        let at = table.position(id);
        assert(table.holds_at(id, at));
        assert forall|j: int| !after.holds_at(id, j) by {
            if 0 <= j < after.rows.len() {
                assert(after.rows[j] == table.rows[if j < at {
                    j
                } else {
                    j + 1
                }]);
            }
        }
    }
}

/// What is not there is not found: looking up or updating an identifier that
/// the table does not hold answers 404 under `"fail"`, and the update leaves
/// the table as it is.
pub proof fn lemma_missing_is_not_found(
    table: TableView,
    id: u128,
    text: Option<Seq<char>>,
    rating: Option<i32>,
    now: Timestamp,
)
    requires
        !table.contains(id),
    ensures
        get_feedback(table, id) == ResponseView::failure(
            404,
            "fail"@,
            "feedback with ID: "@ + crate::ident::hyphenated(id) + " not found"@,
        ),
        edit_feedback(table, id, text, rating, now) == (
            table,
            ResponseView::failure(
                404,
                "fail"@,
                "Feedback with ID: "@ + crate::ident::hyphenated(id) + " not found"@,
            ),
        ),
{
}

/// No failure of a lookup is answered with 500: whatever the store reports,
/// a lookup answers 404, and an update whose lookup failed answers 404
/// without touching the store again.
pub proof fn lemma_failed_lookup_is_not_found(
    id: u128,
    text: Option<Seq<char>>,
    rating: Option<i32>,
    error: StoreErrorView,
    now: Timestamp,
)
    ensures
        get_reply(id, Err(error)) == not_found_reply("feedback with ID: "@, id),
        edit_step(id, text, rating, Err(error), now) == EditStepView::Respond(
            not_found_reply("Feedback with ID: "@, id),
        ),
        not_found_reply("feedback with ID: "@, id).code == 404,
        not_found_reply("Feedback with ID: "@, id).code == 404,
{
}

/// Identifiers are never reused: a record created after a deletion gets an
/// identifier that differs from the deleted one.
pub proof fn lemma_identifier_never_reused(
    table: TableView,
    id: u128,
    text: Seq<char>,
    rating: i32,
    now: Timestamp,
)
    requires
        table.wf(),
        table.contains(id),
    ensures
        ({
            let emptied = delete_feedback(table, id).0;
            let (after, response) = create_feedback(emptied, text, rating, now);
            response.body matches ResponseBodyView::Created { status, feedback } ==> feedback.id
                != id
        }),
{
    assert(table.holds_at(id, table.position(id)));
}

/// Every handler leaves a well-formed table well-formed, and none lets the
/// next identifier fall: what was handed out once lies below every
/// identifier handed out later.
pub proof fn lemma_handlers_keep_wf(
    table: TableView,
    id: u128,
    text: Seq<char>,
    new_text: Option<Seq<char>>,
    rating: i32,
    new_rating: Option<i32>,
    now: Timestamp,
)
    requires
        table.wf(),
    ensures
        create_feedback(table, text, rating, now).0.wf(),
        edit_feedback(table, id, new_text, new_rating, now).0.wf(),
        delete_feedback(table, id).0.wf(),
        create_feedback(table, text, rating, now).0.next_id >= table.next_id,
        edit_feedback(table, id, new_text, new_rating, now).0.next_id == table.next_id,
        delete_feedback(table, id).0.next_id == table.next_id,
{
    table.lemma_insert_keeps_wf(text, rating, now);
    table.lemma_delete_keeps_wf(id);
    if table.contains(id) {
        let stored = table.rows[table.position(id)];
        table.lemma_update_keeps_wf(
            merged(new_text, stored.text),
            merged(new_rating, stored.rating),
            now,
            id,
        );
    }
}

/// No record is updated before it is created, as long as the clock does not
/// run backwards: creating and deleting keep that order in every record, and
/// so does an update made no earlier than the record was created.
pub proof fn lemma_timestamps_stay_ordered(
    table: TableView,
    id: u128,
    text: Seq<char>,
    new_text: Option<Seq<char>>,
    rating: i32,
    new_rating: Option<i32>,
    now: Timestamp,
)
    requires
        table.wf(),
        table.timestamps_ordered(),
    ensures
        create_feedback(table, text, rating, now).0.timestamps_ordered(),
        delete_feedback(table, id).0.timestamps_ordered(),
        table.contains(id) && table.rows[table.position(id)].created_at.not_after(now)
            ==> edit_feedback(table, id, new_text, new_rating, now).0.timestamps_ordered(),
{
    if table.contains(id) {
        let at = table.position(id);
        assert(table.holds_at(id, at));
        let rest = delete_feedback(table, id).0;
        assert forall|j: int| 0 <= j < rest.rows.len() implies (#[trigger] rest.rows[j]).created_at.not_after(
            rest.rows[j].updated_at,
        ) by {
            assert(rest.rows[j] == table.rows[if j < at {
                j
            } else {
                j + 1
            }]);
        }
    }
}

/// Pages tile the table: with a page number of at least 1, a page size and
/// an offset that the store can express, a listing answers 200 with the
/// records that stand at positions `(page - 1) * limit` up to `page * limit`
/// in the order of their identifiers, as far as the table reaches, and counts
/// them.
pub proof fn lemma_list_page(table: TableView, page: usize, limit: usize)
    requires
        page >= 1,
        limit <= i64::MAX,
        (page - 1) * limit <= i64::MAX,
    ensures
        ({
            let opts = FilterOptions { page: Some(page), limit: Some(limit) };
            let len = table.rows.len() as int;
            let start = if (page - 1) * limit < len {
                (page - 1) * limit
            } else {
                len
            };
            let end = if page * limit < len {
                page * limit
            } else {
                len
            };
            &&& start <= end
            &&& list_feedbacks(table, opts) == (ResponseView {
                code: 200,
                body: ResponseBodyView::FeedbackList {
                    status: "success"@,
                    results: (end - start) as nat,
                    feedbacks: table.rows.subrange(start, end),
                },
            })
        }),
{
    let opts = FilterOptions { page: Some(page), limit: Some(limit) };
    assert(0 <= (page - 1) * limit <= page * limit && (page - 1) * limit + limit == page * limit
        && limit <= page * limit) by (nonlinear_arith)
        requires
            page >= 1,
            limit >= 0,
    ;
}

/// A listing is in the order of the identifiers: whatever page is asked for,
/// an answer of 200 carries records whose identifiers rise strictly, each of
/// them a record of the table, and counts them.
pub proof fn lemma_listing_is_ascending(table: TableView, opts: FilterOptions)
    requires
        table.wf(),
    ensures
        list_feedbacks(table, opts).code == 200 || list_feedbacks(table, opts) == list_failure(),
        ({
            let response = list_feedbacks(table, opts);
            response.body matches ResponseBodyView::FeedbackList { status, results, feedbacks }
                ==> {
                &&& results == feedbacks.len()
                &&& forall|i: int, j: int|
                    0 <= i < j < feedbacks.len() ==> feedbacks[i].id < feedbacks[j].id
                &&& forall|i: int|
                    0 <= i < feedbacks.len() ==> table.select_by_id((#[trigger] feedbacks[i]).id)
                        == Ok::<FeedbackModelView, StoreErrorView>(feedbacks[i])
            }
        }),
{
    match opts.window() {
        Some(query) => {
            match table.select_page(query.limit, query.offset) {
                Ok(feedbacks) => {
                    let len = table.rows.len() as int;
                    let start = if query.offset < len {
                        query.offset as int
                    } else {
                        len
                    };
                    assert forall|i: int| 0 <= i < feedbacks.len() implies table.select_by_id(
                        (#[trigger] feedbacks[i]).id,
                    ) == Ok::<FeedbackModelView, StoreErrorView>(feedbacks[i]) by {
                        assert(table.holds_at(feedbacks[i].id, start + i));
                        table.lemma_position(feedbacks[i].id, start + i);
                    }
                },
                Err(_) => {},
            }
        },
        None => {},
    }
}

/// A failure of the store tells the client nothing of itself: a listing, a
/// creation, an update or a deletion that the store could not run is
/// answered with 500 under `"error"` and one fixed message, the same for
/// every failure. The one failure told apart is the uniqueness violation on
/// creation, answered with 400 under `"fail"` and a fixed message too.
pub proof fn lemma_failure_tells_nothing(id: u128, error: StoreErrorView)
    ensures
        list_reply(Err(error)) == list_failure(),
        edit_reply(Err(error)) == edit_failure(),
        delete_reply(id, Err(error)) == delete_failure(),
        error.kind != StoreErrorKind::UniqueViolation ==> create_reply(Err(error))
            == create_failure(),
        error.kind == StoreErrorKind::UniqueViolation ==> create_reply(Err(error))
            == ResponseView::failure(400, "fail"@, "Feedback with that title already exists"@),
        list_failure() == ResponseView::failure(
            500,
            "error"@,
            "Something bad happened while fetching all feedback items"@,
        ),
        create_failure() == ResponseView::failure(
            500,
            "error"@,
            "Something bad happened while creating the feedback item"@,
        ),
        edit_failure() == ResponseView::failure(
            500,
            "error"@,
            "Something bad happened while updating the feedback item"@,
        ),
        delete_failure() == ResponseView::failure(
            500,
            "error"@,
            "Something bad happened while deleting the feedback item"@,
        ),
{
}

/// Nothing is written by halves: a creation that is not answered with 200, an
/// update that is not answered with 200 and a deletion that is not answered
/// with 204 leave the table exactly as it was.
pub proof fn lemma_failed_write_changes_nothing(
    table: TableView,
    id: u128,
    text: Seq<char>,
    new_text: Option<Seq<char>>,
    rating: i32,
    new_rating: Option<i32>,
    now: Timestamp,
)
    ensures
        create_feedback(table, text, rating, now).1.code != 200 ==> create_feedback(
            table,
            text,
            rating,
            now,
        ).0 == table,
        edit_feedback(table, id, new_text, new_rating, now).1.code != 200 ==> edit_feedback(
            table,
            id,
            new_text,
            new_rating,
            now,
        ).0 == table,
        delete_feedback(table, id).1.code != 204 ==> delete_feedback(table, id).0 == table,
{
}

/// The records that page `page` of size `limit` shows; none where the
/// listing is not answered with records.
pub open spec fn page_rows(table: TableView, page: usize, limit: usize) -> Seq<FeedbackModelView> {
    match list_feedbacks(table, FilterOptions { page: Some(page), limit: Some(limit) }).body {
        ResponseBodyView::FeedbackList { status, results, feedbacks } => feedbacks,
        _ => Seq::empty(),
    }
}

/// Pages 1 to `pages` of size `limit`, laid end to end.
pub open spec fn pages_through(table: TableView, pages: usize, limit: usize) -> Seq<
    FeedbackModelView,
>
    decreases pages,
{
    if pages == 0 {
        Seq::empty()
    } else {
        pages_through(table, (pages - 1) as usize, limit) + page_rows(table, pages, limit)
    }
}

/// Pages leave nothing out and show nothing twice: the first `pages` pages
/// laid end to end are the first `pages * limit` records of the table, and
/// all of the table once `pages * limit` reaches its length.
pub proof fn lemma_pages_cover_table(table: TableView, pages: usize, limit: usize)
    requires
        limit <= i64::MAX,
        pages >= 1 ==> (pages - 1) * limit <= i64::MAX,
    ensures
        pages * limit <= table.rows.len() ==> pages_through(table, pages, limit)
            == table.rows.subrange(0, pages * limit),
        pages * limit >= table.rows.len() ==> pages_through(table, pages, limit) == table.rows,
    decreases pages,
{
    let len = table.rows.len() as int;
    if pages == 0 {
        assert(pages * limit == 0) by (nonlinear_arith)
            requires
                pages == 0,
        ;
        assert(table.rows.subrange(0, 0) =~= Seq::<FeedbackModelView>::empty());
        if len == 0 {
            assert(table.rows =~= Seq::<FeedbackModelView>::empty());
        }
    } else {
        let before = (pages - 1) as usize;
        assert(before * limit + limit == pages * limit && (before >= 1 ==> (before - 1) * limit
            <= before * limit)) by (nonlinear_arith)
            requires
                before == pages - 1,
                pages >= 1,
                limit >= 0,
        ;
        lemma_pages_cover_table(table, before, limit);
        lemma_list_page(table, pages, limit);
        let start = if before * limit < len {
            before * limit
        } else {
            len
        };
        let end = if pages * limit < len {
            pages * limit
        } else {
            len
        };
        assert(pages_through(table, before, limit) =~= table.rows.subrange(0, start));
        assert(page_rows(table, pages, limit) == table.rows.subrange(start, end));
        assert(pages_through(table, pages, limit) =~= table.rows.subrange(0, end));
        if pages * limit >= len {
            assert(table.rows.subrange(0, len) =~= table.rows);
        }
    }
}

} // verus!
