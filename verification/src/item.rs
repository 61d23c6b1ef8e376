//! The to-do record and the requests that create and change one.

use vstd::prelude::*;
use crate::clock::Timestamp;

verus! {

/// One entry of the list.
#[derive(Debug, PartialEq, Eq)]
pub struct TodoItem {
    pub id: String,
    pub title: String,
    pub description: Option<String>,
    pub completed: bool,
    pub created_at: Timestamp,
    pub updated_at: Timestamp,
}

/// What a `TodoItem` holds, as mathematical values.
pub ghost struct ItemView {
    pub id: Seq<char>,
    pub title: Seq<char>,
    pub description: Option<Seq<char>>,
    pub completed: bool,
    pub created_at: Timestamp,
    pub updated_at: Timestamp,
}

/// The characters of an optional text.
pub open spec fn text_of(text: Option<String>) -> Option<Seq<char>> {
    match text {
        Some(t) => Some(t@),
        None => None,
    }
}

impl View for TodoItem {
    type V = ItemView;

    open spec fn view(&self) -> ItemView {
        ItemView {
            id: self.id@,
            title: self.title@,
            description: text_of(self.description),
            completed: self.completed,
            created_at: self.created_at,
            updated_at: self.updated_at,
        }
    }
}

/// The values of a run of records, in the same order.
pub open spec fn views_of(items: Seq<TodoItem>) -> Seq<ItemView> {
    Seq::new(items.len(), |i: int| items[i]@)
}

/// Copies an optional text.
pub fn copy_text(text: &Option<String>) -> (r: Option<String>)
    ensures
        text_of(r) == text_of(*text),
{
    match text {
        Some(t) => Some(t.clone()),
        None => None,
    }
}

impl Clone for TodoItem {
    fn clone(&self) -> (r: TodoItem)
        ensures
            r@ == self@,
    {
        TodoItem {
            id: self.id.clone(),
            title: self.title.clone(),
            description: copy_text(&self.description),
            completed: self.completed,
            created_at: self.created_at,
            updated_at: self.updated_at,
        }
    }
}

/// What a client sends to create a record.
#[derive(Debug)]
pub struct CreateTodoRequest {
    pub title: String,
    pub description: Option<String>,
}

/// What a client sends to change a record. A field that is `None` leaves the
/// stored value as it is; there is no way to clear a description.
#[derive(Debug)]
pub struct UpdateTodoRequest {
    pub id: String,
    pub title: Option<String>,
    pub description: Option<String>,
    pub completed: Option<bool>,
}

/// The fields of an `UpdateTodoRequest` that say what to change.
pub ghost struct Patch {
    pub title: Option<Seq<char>>,
    pub description: Option<Seq<char>>,
    pub completed: Option<bool>,
}

impl UpdateTodoRequest {
    /// The changes that this request asks for.
    pub open spec fn patch(&self) -> Patch {
        Patch {
            title: text_of(self.title),
            description: text_of(self.description),
            completed: self.completed,
        }
    }
}

} // verus!
