//! The routing layer: five operations, each a thin adapter from a
//! storage operation to an HTTP-style response.
//!
//! Path and body parsing stand outside this layer: a non-integer path
//! segment or a malformed body is rejected with 400 by the hosting
//! server's deserialization step before a handler runs, so each
//! handler receives an already-parsed id and payload.

use crate::response::{Body, Response, StoreOutcome, respond_to_outcome};
use crate::store::{
    TodoStore, lemma_views_of, model_create, model_delete, model_get, model_list, model_update,
    seq_contains_id, views_of,
};
use crate::todo::{CreateTodo, UpdateTodo};
use vstd::prelude::*;

verus! {

/// List all items: always 200 with the items in store order; an empty
/// store yields an empty array.
pub fn list_todos(store: &TodoStore) -> (r: Response)
    ensures
        r.status == 200,
        r.body matches Body::Items(v) && views_of(v@) == model_list(store@),
        model_list(store@).len() == 0 ==> (r.body matches Body::Items(v) && v@.len() == 0),
{
    let items = store.list();
    proof {
        lemma_views_of(items@);
    }
    Response { status: 200, body: Body::Items(items) }
}

/// Fetch one item: 200 with the item if the id is present, else 404
/// with body "Not Found".
pub fn get_todo(store: &TodoStore, id: i64) -> (r: Response)
    ensures
        match model_get(store@, id as int) {
            Some(t) => r.status == 200 && (r.body matches Body::Item(u) && u@ == t),
            None => r.status == 404 && (r.body matches Body::Message(m) && m@ == "Not Found"@),
        },
        !seq_contains_id(store@.todos, id as int) ==> r.status == 404 && (r.body matches Body::Message(m) && m@ == "Not Found"@),
{
    let outcome = match store.get(id) {
        Some(t) => StoreOutcome::Found(t),
        None => StoreOutcome::Absent,
    };
    respond_to_outcome(outcome)
}

/// Create an item: 200 with the created item, whose id is the next
/// available one (any client-supplied id is ignored: the payload
/// carries none). When the id space is exhausted the store cannot
/// assign an id: that is a storage failure, surfaced as 500 with the
/// store unchanged.
pub fn create_todo(store: &mut TodoStore, req: CreateTodo) -> (r: Response)
    ensures
        old(store)@.next < i64::MAX ==> ({
            &&& final(store)@ == model_create(old(store)@, req.title@, req.description@).0
            &&& r.status == 200
            &&& (r.body matches Body::Item(t) && t@ == model_create(
                old(store)@,
                req.title@,
                req.description@,
            ).1)
        }),
        old(store)@.next >= i64::MAX ==> ({
            &&& final(store)@ == old(store)@
            &&& r.status == 500
            &&& (r.body matches Body::Message(m) && m@ == "Internal Server Error"@)
        }),
        old(store).wf() ==> final(store).wf(),
{
    if store.next_id() < i64::MAX {
        let created = store.create(req);
        respond_to_outcome(StoreOutcome::Found(created))
    } else {
        respond_to_outcome(StoreOutcome::Failure)
    }
}

/// Update an item: 200 with the item carrying the new field values
/// and the unchanged id, or 404 with body "Not Found" if the id is
/// absent (the store is then unchanged).
pub fn update_todo(store: &mut TodoStore, id: i64, req: UpdateTodo) -> (r: Response)
    ensures
        final(store)@ == model_update(old(store)@, id as int, req.title@, req.description@).0,
        match model_update(old(store)@, id as int, req.title@, req.description@).1 {
            Some(t) => r.status == 200 && (r.body matches Body::Item(u) && u@ == t),
            None => r.status == 404 && (r.body matches Body::Message(m) && m@ == "Not Found"@),
        },
        !seq_contains_id(old(store)@.todos, id as int) ==> r.status == 404 && (r.body matches
            Body::Message(m) && m@ == "Not Found"@) && final(store)@ == old(store)@,
        old(store).wf() ==> final(store).wf(),
{
    let outcome = match store.update(id, req) {
        Some(t) => StoreOutcome::Found(t),
        None => StoreOutcome::Absent,
    };
    respond_to_outcome(outcome)
}

/// Delete an item: 200 with the pre-deletion snapshot, or 404 with
/// body "Not Found" if the id is absent (the store is then
/// unchanged).
pub fn delete_todo(store: &mut TodoStore, id: i64) -> (r: Response)
    ensures
        final(store)@ == model_delete(old(store)@, id as int).0,
        match model_delete(old(store)@, id as int).1 {
            Some(t) => r.status == 200 && (r.body matches Body::Item(u) && u@ == t),
            None => r.status == 404 && (r.body matches Body::Message(m) && m@ == "Not Found"@),
        },
        !seq_contains_id(old(store)@.todos, id as int) ==> r.status == 404 && (r.body matches
            Body::Message(m) && m@ == "Not Found"@) && final(store)@ == old(store)@,
        old(store).wf() ==> final(store).wf(),
{
    let outcome = match store.delete(id) {
        Some(t) => StoreOutcome::Found(t),
        None => StoreOutcome::Absent,
    };
    respond_to_outcome(outcome)
}

} // verus!
