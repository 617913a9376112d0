//! The todo item entity and the two transient request shapes.

use vstd::prelude::*;

verus! {

/// Mathematical view of a stored todo item.
pub ghost struct TodoView {
    pub id: int,
    pub title: Seq<char>,
    pub description: Seq<char>,
}

/// The sole entity: a todo item with a store-assigned id and two
/// required text fields.
#[derive(Debug)]
pub struct Todo {
    pub id: i64,
    pub title: String,
    pub description: String,
}

impl View for Todo {
    type V = TodoView;

    open spec fn view(&self) -> TodoView {
        TodoView { id: self.id as int, title: self.title@, description: self.description@ }
    }
}

impl Clone for Todo {
    fn clone(&self) -> (r: Todo)
        ensures
            r@ == self@,
    {
        Todo { id: self.id, title: self.title.clone(), description: self.description.clone() }
    }
}

impl PartialEq for Todo {
    fn eq(&self, other: &Todo) -> (r: bool) {
        self.id == other.id && self.title == other.title && self.description == other.description
    }
}

impl vstd::std_specs::cmp::PartialEqSpecImpl for Todo {
    open spec fn obeys_eq_spec() -> bool {
        true
    }

    open spec fn eq_spec(&self, other: &Todo) -> bool {
        self@ == other@
    }
}

/// Payload of a create operation: no id, the store assigns one.
pub struct CreateTodo {
    pub title: String,
    pub description: String,
}

/// Payload of an update operation: no id, it comes from the path.
pub struct UpdateTodo {
    pub title: String,
    pub description: String,
}

} // verus!
