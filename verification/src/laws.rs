//! Laws relating the store operations to one another, proved over the
//! store model.

use crate::store::{
    StoreModel, empty_model, find_index, lemma_find_index, lemma_find_index_at, model_create,
    model_delete, model_get, model_update, model_wf, seq_contains_id,
};
use crate::todo::TodoView;
use vstd::prelude::*;

verus! {

/// In a well-formed store every id occurs at most once.
pub proof fn lemma_wf_unique_ids(m: StoreModel)
    requires
        model_wf(m),
    ensures
        forall|i: int, j: int|
            0 <= i < m.todos.len() && 0 <= j < m.todos.len() && i != j ==> (
            #[trigger] m.todos[i]).id != (#[trigger] m.todos[j]).id,
{
}

/// Law: a get with the id assigned by a create returns exactly the
/// created item.
pub proof fn lemma_create_then_get(m: StoreModel, title: Seq<char>, description: Seq<char>)
    requires
        model_wf(m),
    ensures
        ({
            let (m2, t) = model_create(m, title, description);
            model_get(m2, t.id) == Some(t)
        }),
{
    let (m2, t) = model_create(m, title, description);
    let s = m2.todos;
    let n = m.todos.len() as int;
    assert(forall|j: int| 0 <= j < n ==> #[trigger] s[j] == m.todos[j]);
    assert(s[n] == t);
    lemma_find_index_at(s, m.next, n);
    assert(seq_contains_id(s, m.next));
}

/// Law: update replaces title and description but preserves the id,
/// the item's position, every other item, and the next id.
pub proof fn lemma_update_preserves_id(
    m: StoreModel,
    id: int,
    title: Seq<char>,
    description: Seq<char>,
)
    requires
        model_wf(m),
        seq_contains_id(m.todos, id),
    ensures
        ({
            let (m2, r) = model_update(m, id, title, description);
            let i = find_index(m.todos, id);
            &&& r == Some(TodoView { id, title, description })
            &&& m.todos[i].id == id
            &&& m2.todos.len() == m.todos.len()
            &&& m2.todos[i] == (TodoView { id, title, description })
            &&& forall|j: int|
                0 <= j < m.todos.len() && j != i ==> #[trigger] m2.todos[j] == m.todos[j]
            &&& m2.next == m.next
        }),
{
    lemma_find_index(m.todos, id);
}

/// Law: delete returns the pre-deletion snapshot (exactly what a get
/// would have returned), and a subsequent get of the same id finds
/// nothing.
pub proof fn lemma_delete_then_get(m: StoreModel, id: int)
    requires
        model_wf(m),
    ensures
        ({
            let (m2, r) = model_delete(m, id);
            &&& r == model_get(m, id)
            &&& model_get(m2, id) is None
        }),
{
    if seq_contains_id(m.todos, id) {
        let i = find_index(m.todos, id);
        lemma_find_index(m.todos, id);
        lemma_wf_unique_ids(m);
        m.todos.remove_ensures(i);
        let m2 = model_delete(m, id).0;
        if seq_contains_id(m2.todos, id) {
            let j = choose|j: int| 0 <= j < m2.todos.len() && (#[trigger] m2.todos[j]).id == id;
            if j < i {
                assert(m2.todos[j] == m.todos[j]);
                assert(false);
            } else {
                assert(m2.todos[j] == m.todos[j + 1]);
                assert(false);
            }
        }
    }
}

/// Law: create assigns the next available id — 1 on an empty store —
/// and advances it; the request shape carries no id that could
/// override the assignment.
pub proof fn lemma_create_assigns_next_id(m: StoreModel, title: Seq<char>, description: Seq<char>)
    ensures
        model_create(m, title, description).1.id == m.next,
        model_create(m, title, description).0.next == m.next + 1,
        m == empty_model() ==> model_create(m, title, description).1.id == 1,
{
}

} // verus!
