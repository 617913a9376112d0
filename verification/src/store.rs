//! The in-memory todo store and its mathematical model.
//!
//! A store is a sequence of items with an auto-incrementing id: every
//! stored id is at least 1 and below `next`, ids strictly increase
//! along the sequence (so they are unique and list order is id order),
//! and an id is never reused after deletion because `next` never
//! decreases.

use crate::todo::{CreateTodo, Todo, TodoView, UpdateTodo};
use vstd::prelude::*;

verus! {

/// Mathematical model of the store: the item views in list order and
/// the next id to assign.
pub ghost struct StoreModel {
    pub todos: Seq<TodoView>,
    pub next: int,
}

/// The model of a freshly created store: no items, first id is 1.
pub open spec fn empty_model() -> StoreModel {
    StoreModel { todos: Seq::empty(), next: 1 }
}

/// Store invariant: ids are at least 1, below `next`, and strictly
/// increasing along the sequence.
pub open spec fn model_wf(m: StoreModel) -> bool {
    &&& 1 <= m.next
    &&& forall|i: int| 0 <= i < m.todos.len() ==> 1 <= (#[trigger] m.todos[i]).id < m.next
    &&& forall|i: int, j: int|
        0 <= i < j < m.todos.len() ==> (#[trigger] m.todos[i]).id < (#[trigger] m.todos[j]).id
}

/// Index of the first item of `s` whose id is `id`; `s.len()` if none.
pub open spec fn find_index(s: Seq<TodoView>, id: int) -> int
    decreases s.len(),
{
    if s.len() == 0 {
        0
    } else if s[0].id == id {
        0
    } else {
        1 + find_index(s.drop_first(), id)
    }
}

/// Whether some item of `s` has id `id`.
pub open spec fn seq_contains_id(s: Seq<TodoView>, id: int) -> bool {
    exists|i: int| 0 <= i < s.len() && (#[trigger] s[i]).id == id
}

/// `find_index` is in bounds, lands on the first occurrence of `id`,
/// and equals `s.len()` exactly when no item has that id.
pub proof fn lemma_find_index(s: Seq<TodoView>, id: int)
    ensures
        0 <= find_index(s, id) <= s.len(),
        find_index(s, id) < s.len() ==> s[find_index(s, id)].id == id,
        forall|j: int| 0 <= j < find_index(s, id) ==> (#[trigger] s[j]).id != id,
        find_index(s, id) < s.len() <==> seq_contains_id(s, id),
    decreases s.len(),
{
    if s.len() == 0 {
    } else if s[0].id == id {
    } else {
        let rest = s.drop_first();
        lemma_find_index(rest, id);
        assert(forall|j: int| 0 <= j < rest.len() ==> #[trigger] rest[j] == s[j + 1]);
        assert forall|j: int| 0 <= j < find_index(s, id) implies (#[trigger] s[j]).id != id by {
            if j > 0 {
                assert(rest[j - 1] == s[j]);
            }
        }
        if seq_contains_id(s, id) {
            let i = choose|i: int| 0 <= i < s.len() && (#[trigger] s[i]).id == id;
            assert(rest[i - 1] == s[i]);
            assert(seq_contains_id(rest, id));
        }
        if seq_contains_id(rest, id) {
            let i = choose|i: int| 0 <= i < rest.len() && (#[trigger] rest[i]).id == id;
            assert(s[i + 1].id == id);
            assert(seq_contains_id(s, id));
        }
    }
}

/// If `i` is an occurrence of `id` with no earlier occurrence, then
/// `find_index` picks exactly `i`.
pub proof fn lemma_find_index_at(s: Seq<TodoView>, id: int, i: int)
    requires
        0 <= i < s.len(),
        s[i].id == id,
        forall|j: int| 0 <= j < i ==> (#[trigger] s[j]).id != id,
    ensures
        find_index(s, id) == i,
    decreases s.len(),
{
    if s[0].id == id {
    } else {
        let rest = s.drop_first();
        assert(forall|j: int| 0 <= j < rest.len() ==> #[trigger] rest[j] == s[j + 1]);
        lemma_find_index_at(rest, id, i - 1);
    }
}

/// List: the items in store order.
pub open spec fn model_list(m: StoreModel) -> Seq<TodoView> {
    m.todos
}

/// Get: the item with id `id`, if present.
pub open spec fn model_get(m: StoreModel, id: int) -> Option<TodoView> {
    if seq_contains_id(m.todos, id) {
        Some(m.todos[find_index(m.todos, id)])
    } else {
        None
    }
}

/// Create: assign the next id (any client-supplied id is ignored, the
/// request carries none), append the item, and advance `next`.
pub open spec fn model_create(m: StoreModel, title: Seq<char>, description: Seq<char>) -> (
    StoreModel,
    TodoView,
) {
    let t = TodoView { id: m.next, title, description };
    (StoreModel { todos: m.todos.push(t), next: m.next + 1 }, t)
}

/// Update: replace title and description of the item with id `id`,
/// keeping its id and position; `None` if the id is absent.
pub open spec fn model_update(
    m: StoreModel,
    id: int,
    title: Seq<char>,
    description: Seq<char>,
) -> (StoreModel, Option<TodoView>) {
    if seq_contains_id(m.todos, id) {
        let t = TodoView { id, title, description };
        (StoreModel { todos: m.todos.update(find_index(m.todos, id), t), next: m.next }, Some(t))
    } else {
        (m, None)
    }
}

/// Delete: remove the item with id `id` and return its pre-deletion
/// snapshot; `None` if the id is absent. `next` is unchanged, so the
/// id is never reassigned.
pub open spec fn model_delete(m: StoreModel, id: int) -> (StoreModel, Option<TodoView>) {
    if seq_contains_id(m.todos, id) {
        let i = find_index(m.todos, id);
        (StoreModel { todos: m.todos.remove(i), next: m.next }, Some(m.todos[i]))
    } else {
        (m, None)
    }
}

/// Create preserves the invariant.
pub proof fn lemma_create_wf(m: StoreModel, title: Seq<char>, description: Seq<char>)
    requires
        model_wf(m),
    ensures
        model_wf(model_create(m, title, description).0),
{
}

/// Update preserves the invariant.
pub proof fn lemma_update_wf(m: StoreModel, id: int, title: Seq<char>, description: Seq<char>)
    requires
        model_wf(m),
    ensures
        model_wf(model_update(m, id, title, description).0),
{
    if seq_contains_id(m.todos, id) {
        lemma_find_index(m.todos, id);
    }
}

/// Delete preserves the invariant.
pub proof fn lemma_delete_wf(m: StoreModel, id: int)
    requires
        model_wf(m),
    ensures
        model_wf(model_delete(m, id).0),
{
    if seq_contains_id(m.todos, id) {
        let i = find_index(m.todos, id);
        lemma_find_index(m.todos, id);
        m.todos.remove_ensures(i);
    }
}

/// The views of a sequence of items, in order.
pub open spec fn views_of(s: Seq<Todo>) -> Seq<TodoView> {
    s.map_values(|t: Todo| t@)
}

/// Pointwise description of `views_of`.
pub proof fn lemma_views_of(s: Seq<Todo>)
    ensures
        views_of(s).len() == s.len(),
        forall|i: int| 0 <= i < s.len() ==> views_of(s)[i] == (#[trigger] s[i])@,
{
}

/// The view of an optional item.
pub open spec fn option_view(r: Option<Todo>) -> Option<TodoView> {
    match r {
        Some(t) => Some(t@),
        None => None,
    }
}

/// The store: items in id order plus the next id to assign.
pub struct TodoStore {
    todos: Vec<Todo>,
    next_id: i64,
}

impl View for TodoStore {
    type V = StoreModel;

    closed spec fn view(&self) -> StoreModel {
        StoreModel { todos: views_of(self.todos@), next: self.next_id as int }
    }
}

impl TodoStore {
    /// The store satisfies the id invariant.
    pub open spec fn wf(&self) -> bool {
        model_wf(self@)
    }

    /// A fresh, empty store whose first assigned id will be 1.
    pub fn new() -> (s: TodoStore)
        ensures
            s.wf(),
            s@ == empty_model(),
    {
        let s = TodoStore { todos: Vec::new(), next_id: 1 };
        proof {
            assert(s@.todos =~= Seq::<TodoView>::empty());
        }
        s
    }

    /// The id the next created item will receive.
    pub fn next_id(&self) -> (r: i64)
        ensures
            r == self@.next,
    {
        self.next_id
    }

    /// Index of the first stored item with id `id`, if any.
    fn position_of(&self, id: i64) -> (r: Option<usize>)
        ensures
            match r {
                Some(i) => i < self@.todos.len() && i as int == find_index(self@.todos, id as int)
                    && seq_contains_id(self@.todos, id as int),
                None => !seq_contains_id(self@.todos, id as int),
            },
    {
        let ghost s = self@.todos;
        proof {
            lemma_views_of(self.todos@);
        }
        let n = self.todos.len();
        let mut i: usize = 0;
        while i < n
            invariant
                n == self.todos.len(),
                s == self@.todos,
                s.len() == n,
                0 <= i <= n,
                forall|j: int| 0 <= j < i ==> (#[trigger] s[j]).id != id as int,
            decreases n - i,
        {
            if self.todos[i].id == id {
                proof {
                    lemma_views_of(self.todos@);
                    assert(s[i as int] == self.todos@[i as int]@);
                    lemma_find_index_at(s, id as int, i as int);
                }
                return Some(i);
            }
            proof {
                lemma_views_of(self.todos@);
                assert(s[i as int] == self.todos@[i as int]@);
            }
            i += 1;
        }
        proof {
            lemma_find_index(s, id as int);
        }
        None
    }

    /// List all items in store order.
    pub fn list(&self) -> (r: Vec<Todo>)
        ensures
            views_of(r@) == model_list(self@),
    {
        proof {
            lemma_views_of(self.todos@);
        }
        let n = self.todos.len();
        let mut out: Vec<Todo> = Vec::new();
        let mut i: usize = 0;
        while i < n
            invariant
                n == self.todos.len(),
                self@.todos.len() == n,
                0 <= i <= n,
                views_of(out@) == self@.todos.take(i as int),
            decreases n - i,
        {
            let t = self.todos[i].clone();
            let ghost out0 = out@;
            out.push(t);
            proof {
                lemma_views_of(self.todos@);
                lemma_views_of(out0);
                lemma_views_of(out@);
                assert(views_of(out@) =~= self@.todos.take(i + 1));
            }
            i += 1;
        }
        proof {
            assert(views_of(out@) =~= model_list(self@));
        }
        out
    }

    /// Fetch the item with id `id`, if present.
    pub fn get(&self, id: i64) -> (r: Option<Todo>)
        ensures
            option_view(r) == model_get(self@, id as int),
    {
        match self.position_of(id) {
            Some(i) => {
                let t = self.todos[i].clone();
                Some(t)
            },
            None => None,
        }
    }

    /// Insert a new item with the next available id; the request
    /// carries no id, so none can be client-supplied.
    pub fn create(&mut self, req: CreateTodo) -> (t: Todo)
        requires
            old(self)@.next < i64::MAX,
        ensures
            final(self)@ == model_create(old(self)@, req.title@, req.description@).0,
            t@ == model_create(old(self)@, req.title@, req.description@).1,
            old(self).wf() ==> final(self).wf(),
    {
        proof {
            if old(self).wf() {
                lemma_create_wf(old(self)@, req.title@, req.description@);
            }
        }
        let t = Todo { id: self.next_id, title: req.title, description: req.description };
        let result = t.clone();
        self.todos.push(t);
        self.next_id = self.next_id + 1;
        proof {
            lemma_views_of(old(self).todos@);
            lemma_views_of(self.todos@);
            assert(self@.todos =~= old(self)@.todos.push(result@));
        }
        result
    }

    /// Replace title and description of the item with id `id`; its id
    /// and position are kept. Returns the updated item, or `None` if
    /// the id is absent.
    pub fn update(&mut self, id: i64, req: UpdateTodo) -> (r: Option<Todo>)
        ensures
            final(self)@ == model_update(old(self)@, id as int, req.title@, req.description@).0,
            option_view(r) == model_update(old(self)@, id as int, req.title@, req.description@).1,
            old(self).wf() ==> final(self).wf(),
    {
        proof {
            if old(self).wf() {
                lemma_update_wf(old(self)@, id as int, req.title@, req.description@);
            }
        }
        match self.position_of(id) {
            Some(i) => {
                let t = Todo { id, title: req.title, description: req.description };
                let result = t.clone();
                self.todos[i] = t;
                proof {
                    lemma_views_of(old(self).todos@);
                    lemma_views_of(self.todos@);
                    assert(self@.todos =~= old(self)@.todos.update(
                        find_index(old(self)@.todos, id as int),
                        result@,
                    ));
                }
                Some(result)
            },
            None => None,
        }
    }

    /// Remove the item with id `id` and return its pre-deletion
    /// snapshot, or `None` if the id is absent. `next` is unchanged,
    /// so a deleted id is never reassigned.
    pub fn delete(&mut self, id: i64) -> (r: Option<Todo>)
        ensures
            final(self)@ == model_delete(old(self)@, id as int).0,
            option_view(r) == model_delete(old(self)@, id as int).1,
            old(self).wf() ==> final(self).wf(),
    {
        proof {
            if old(self).wf() {
                lemma_delete_wf(old(self)@, id as int);
            }
        }
        match self.position_of(id) {
            Some(i) => {
                let ghost gi = i as int;
                let t = self.todos.remove(i);
                proof {
                    lemma_views_of(old(self).todos@);
                    lemma_views_of(self.todos@);
                    old(self).todos@.remove_ensures(gi);
                    old(self)@.todos.remove_ensures(gi);
                    assert(self@.todos =~= old(self)@.todos.remove(gi));
                }
                Some(t)
            },
            None => None,
        }
    }
}

} // verus!
