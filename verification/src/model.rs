//! The to-do record and the payloads that create and change it.

use vstd::prelude::*;

verus! {

/// What a [`Todo`] is, as plain mathematical values.
pub struct TodoView {
    pub id: i32,
    pub text: Seq<char>,
    pub completed: bool,
}

/// A stored to-do item.
#[derive(Debug)]
pub struct Todo {
    pub id: i32,
    pub text: String,
    pub completed: bool,
}

impl View for Todo {
    type V = TodoView;

    open spec fn view(&self) -> TodoView {
        TodoView { id: self.id, text: self.text@, completed: self.completed }
    }
}

impl Todo {
    /// A record that is not completed yet.
    pub fn new(id: i32, text: String) -> (todo: Todo)
        ensures
            todo@ == (TodoView { id, text: text@, completed: false }),
    {
        Todo { id, text, completed: false }
    }
}

/// The records of a listing, each as plain mathematical values.
pub open spec fn views(todos: Seq<Todo>) -> Seq<TodoView> {
    todos.map_values(|todo: Todo| todo@)
}

impl Clone for Todo {
    fn clone(&self) -> (copy: Todo)
        ensures
            copy@ == self@,
    {
        Todo { id: self.id, text: self.text.clone(), completed: self.completed }
    }
}

impl PartialEq for Todo {
    /// Two records are equal when all three fields are.
    fn eq(&self, other: &Todo) -> (equal: bool) {
        self.id == other.id && self.text == other.text && self.completed == other.completed
    }
}

impl vstd::std_specs::cmp::PartialEqSpecImpl for Todo {
    open spec fn obeys_eq_spec() -> bool {
        true
    }

    open spec fn eq_spec(&self, other: &Todo) -> bool {
        self@ == other@
    }
}

impl Eq for Todo {

}

/// What is needed to create a record: its text. The store assigns the id, and
/// a new record is not completed.
#[derive(Debug)]
pub struct CreateTodo {
    pub text: String,
}

impl PartialEq for CreateTodo {
    fn eq(&self, other: &CreateTodo) -> (equal: bool) {
        self.text == other.text
    }
}

impl vstd::std_specs::cmp::PartialEqSpecImpl for CreateTodo {
    open spec fn obeys_eq_spec() -> bool {
        true
    }

    open spec fn eq_spec(&self, other: &CreateTodo) -> bool {
        self.text@ == other.text@
    }
}

impl Eq for CreateTodo {

}

impl Clone for CreateTodo {
    fn clone(&self) -> (copy: CreateTodo)
        ensures
            copy.text@ == self.text@,
    {
        CreateTodo { text: self.text.clone() }
    }
}

impl CreateTodo {
    pub fn new(text: String) -> (payload: CreateTodo)
        ensures
            payload.text@ == text@,
    {
        CreateTodo { text }
    }
}

/// What an [`UpdateTodo`] is, as plain mathematical values.
pub struct UpdateTodoView {
    pub text: Option<Seq<char>>,
    pub completed: Option<bool>,
}

/// A partial update: a field that is `None` leaves the stored value as it is.
#[derive(Debug)]
pub struct UpdateTodo {
    pub text: Option<String>,
    pub completed: Option<bool>,
}

impl PartialEq for UpdateTodo {
    fn eq(&self, other: &UpdateTodo) -> (equal: bool) {
        let same_text = match (&self.text, &other.text) {
            (Some(mine), Some(theirs)) => *mine == *theirs,
            (None, None) => true,
            _ => false,
        };
        let same_completed = match (self.completed, other.completed) {
            (Some(mine), Some(theirs)) => mine == theirs,
            (None, None) => true,
            _ => false,
        };
        same_text && same_completed
    }
}

impl vstd::std_specs::cmp::PartialEqSpecImpl for UpdateTodo {
    open spec fn obeys_eq_spec() -> bool {
        true
    }

    open spec fn eq_spec(&self, other: &UpdateTodo) -> bool {
        self@ == other@
    }
}

impl Eq for UpdateTodo {

}

impl Clone for UpdateTodo {
    fn clone(&self) -> (copy: UpdateTodo)
        ensures
            copy@ == self@,
    {
        let text = match &self.text {
            Some(text) => Some(text.clone()),
            None => None,
        };
        UpdateTodo { text, completed: self.completed }
    }
}

impl View for UpdateTodo {
    type V = UpdateTodoView;

    open spec fn view(&self) -> UpdateTodoView {
        UpdateTodoView {
            text: match self.text {
                Some(text) => Some(text@),
                None => None,
            },
            completed: self.completed,
        }
    }
}

/// The record that results from laying `change` over `existing`, field by
/// field. The id never changes.
pub open spec fn merged(existing: TodoView, change: UpdateTodoView) -> TodoView {
    TodoView {
        id: existing.id,
        text: match change.text {
            Some(text) => text,
            None => existing.text,
        },
        completed: match change.completed {
            Some(completed) => completed,
            None => existing.completed,
        },
    }
}

impl UpdateTodo {
    /// Lays this update over `existing` and returns the merged record.
    pub fn merge_into(self, existing: &Todo) -> (todo: Todo)
        ensures
            todo@ == merged(existing@, self@),
    {
        let text = match self.text {
            Some(text) => text,
            None => existing.text.clone(),
        };
        let completed = match self.completed {
            Some(completed) => completed,
            None => existing.completed,
        };
        Todo { id: existing.id, text, completed }
    }
}

/// A field that the update leaves out keeps its stored value, whatever the
/// update says of the other field; a field that it names takes the new value.
pub proof fn lemma_merge_is_field_by_field(existing: TodoView, change: UpdateTodoView)
    ensures
        merged(existing, change).id == existing.id,
        change.text is None ==> merged(existing, change).text == existing.text,
        change.completed is None ==> merged(existing, change).completed == existing.completed,
        change.text matches Some(text) ==> merged(existing, change).text == text,
        change.completed matches Some(completed) ==> merged(existing, change).completed
            == completed,
{
}

} // verus!
