//! The list itself: the records in order of creation, and the operations on them.

use vstd::prelude::*;
use crate::clock::{current_time, Timestamp};
use crate::ident::{fresh_id, is_generated_id};
use crate::item::{
    copy_text, text_of, views_of, CreateTodoRequest, ItemView, Patch, TodoItem, UpdateTodoRequest,
};
use crate::model::{
    after_create, after_delete, after_update, chronological, completion, distinct_ids, has_id,
    is_first, lemma_create_keeps_invariants, lemma_delete_keeps_invariants, lemma_first_unique,
    lemma_update_keeps_chronology, lemma_update_keeps_ids, lookup, new_item,
    not_before_creation, patched,
};
use crate::reply::{
    deletion_notice, deletion_notice_of, instructions_text, protocol_version_text, ErrorView,
    ReplyView, ServiceInfo, TodoError, ToolReply,
};

verus! {

/// The to-do list. It owns its records: every operation hands out copies.
pub struct TodoList {
    todos: Vec<TodoItem>,
}

impl View for TodoList {
    type V = Seq<ItemView>;

    closed spec fn view(&self) -> Seq<ItemView> {
        views_of(self.todos@)
    }
}

/// The outcome of a creation from `req` on the list `before`: it succeeds,
/// the reply carries the new record, and the list holds it in the last place.
/// The record has the shape of a new one, under a generated identifier and
/// with both timestamps at one reading of the clock.
pub open spec fn created_at_reading(
    before: Seq<ItemView>,
    req: CreateTodoRequest,
    after: Seq<ItemView>,
    r: Result<ToolReply, TodoError>,
) -> bool {
    r matches Ok(ToolReply::Item(item)) && item@ == new_item(
        item@.id,
        req.title@,
        text_of(req.description),
        item@.created_at,
    ) && after == after_create(before, item@) && is_generated_id(item@.id)
        && item@.created_at.is_clock_reading()
}

/// The outcome of a change of the record under `id` by `patch` on the list
/// `before`. Where a record carries `id`, the reply holds the changed record,
/// whose `updated_at` is the reading of the clock at which the list was
/// changed. Where none does, the failure names `id` and the list is as before.
pub open spec fn changed_at_reading(
    before: Seq<ItemView>,
    id: Seq<char>,
    patch: Patch,
    after: Seq<ItemView>,
    r: Result<ToolReply, TodoError>,
) -> bool {
    match r {
        Ok(reply) => reply matches ToolReply::Item(item) && lookup(before, id) matches Some(found)
            && item@ == patched(found, patch, item@.updated_at) && after == after_update(
            before,
            id,
            patch,
            item@.updated_at,
        ) && item@.updated_at.is_clock_reading(),
        Err(e) => lookup(before, id) is None && e@ == (ErrorView::NotFound { id }) && after
            == before,
    }
}

/// The clock reading that a successful change shows is not before the
/// creation of the record changed.
pub open spec fn reading_not_before_creation(
    before: Seq<ItemView>,
    id: Seq<char>,
    r: Result<ToolReply, TodoError>,
) -> bool {
    r matches Ok(ToolReply::Item(item)) ==> not_before_creation(before, id, item@.updated_at)
}

/// The request that marks the record under `id` as done and changes nothing else.
fn completing(id: String) -> (req: UpdateTodoRequest)
    ensures
        req.id@ == id@,
        req.patch() == completion(),
{
    UpdateTodoRequest { id, title: None, description: None, completed: Some(true) }
}

impl TodoList {
    /// An empty list.
    pub fn new() -> (list: TodoList)
        ensures
            list@ == Seq::<ItemView>::empty(),
            distinct_ids(list@),
            chronological(list@),
    {
        let list = TodoList { todos: Vec::new() };
        assert(list@ =~= Seq::<ItemView>::empty());
        list
    }

    /// The number of records.
    pub fn len(&self) -> (n: usize)
        ensures
            n == self@.len(),
    {
        self.todos.len()
    }

    /// The position of the earliest record that carries `id`.
    fn find(&self, id: &String) -> (r: Option<usize>)
        ensures
            match r {
                Some(i) => is_first(self@, id@, i as int) && i < self.todos@.len(),
                None => !has_id(self@, id@),
            },
    {
        let mut i: usize = 0;
        while i < self.todos.len()
            invariant
                i <= self.todos@.len(),
                forall|j: int| 0 <= j < i ==> (#[trigger] self@[j]).id != id@,
            decreases self.todos@.len() - i,
        {
            if self.todos[i].id == *id {
                return Some(i);
            }
            i += 1;
        }
        None
    }

    /// A copy of every record, in the order of creation.
    pub fn list(&self) -> (items: Vec<TodoItem>)
        ensures
            views_of(items@) == self@,
    {
        let mut items: Vec<TodoItem> = Vec::new();
        let mut i: usize = 0;
        while i < self.todos.len()
            invariant
                i <= self.todos@.len(),
                items@.len() == i,
                forall|j: int| 0 <= j < i ==> (#[trigger] items@[j])@ == self.todos@[j]@,
            decreases self.todos@.len() - i,
        {
            items.push(self.todos[i].clone());
            i += 1;
        }
        assert(views_of(items@) =~= self@);
        items
    }

    /// Appends the record that `req` describes, under `id` and with both
    /// timestamps at `now`, and hands back a copy of it.
    pub fn insert(&mut self, id: String, now: Timestamp, req: CreateTodoRequest) -> (item: TodoItem)
        ensures
            item@ == new_item(id@, req.title@, text_of(req.description), now),
            final(self)@ == after_create(old(self)@, item@),
            distinct_ids(old(self)@) && !has_id(old(self)@, id@) ==> distinct_ids(final(self)@),
            chronological(old(self)@) ==> chronological(final(self)@),
    {
        let todo = TodoItem {
            id,
            title: req.title,
            description: req.description,
            completed: false,
            created_at: now,
            updated_at: now,
        };
        let item = todo.clone();
        self.todos.push(todo);
        assert(self@ =~= after_create(old(self)@, item@));
        proof {
            lemma_create_keeps_invariants(old(self)@, item@);
        }
        item
    }

    /// Looks `id` up and hands back a copy of the record found.
    pub fn get(&self, id: &str) -> (r: Result<TodoItem, TodoError>)
        ensures
            match r {
                Ok(item) => lookup(self@, id@) == Some(item@),
                Err(e) => lookup(self@, id@) is None && e@ == (ErrorView::NotFound { id: id@ }),
            },
    {
        let id = id.to_owned();
        match self.find(&id) {
            Some(i) => {
                proof {
                    lemma_first_unique(self@, id@, i as int);
                }
                Ok(self.todos[i].clone())
            },
            None => Err(TodoError::NotFound { id }),
        }
    }

    /// Changes the record at position `i`, the one that `req` names.
    fn change(&mut self, i: usize, req: UpdateTodoRequest, now: Timestamp) -> (item: TodoItem)
        requires
            is_first(old(self)@, req.id@, i as int),
        ensures
            final(self)@ == after_update(old(self)@, req.id@, req.patch(), now),
            lookup(old(self)@, req.id@) matches Some(before) && item@ == patched(
                before,
                req.patch(),
                now,
            ),
            distinct_ids(old(self)@) ==> distinct_ids(final(self)@),
            chronological(old(self)@) && not_before_creation(old(self)@, req.id@, now)
                ==> chronological(final(self)@),
    {
        proof {
            lemma_first_unique(self@, req.id@, i as int);
            lemma_update_keeps_ids(self@, req.id@, req.patch(), now);
            if chronological(self@) && not_before_creation(self@, req.id@, now) {
                lemma_update_keeps_chronology(self@, req.id@, req.patch(), now);
            }
        }
        let stored = &self.todos[i];
        let todo = TodoItem {
            id: stored.id.clone(),
            title: match req.title {
                Some(title) => title,
                None => stored.title.clone(),
            },
            description: match req.description {
                Some(description) => Some(description),
                None => copy_text(&stored.description),
            },
            completed: match req.completed {
                Some(completed) => completed,
                None => stored.completed,
            },
            created_at: stored.created_at,
            updated_at: now,
        };
        let item = todo.clone();
        self.todos.set(i, todo);
        assert(self@ =~= after_update(old(self)@, req.id@, req.patch(), now));
        item
    }

    /// Changes the record that `req` names, at time `now`: each field that the
    /// request carries replaces the stored one, the others stay, and
    /// `updated_at` becomes `now`. Hands back a copy of the changed record.
    pub fn update(&mut self, req: UpdateTodoRequest, now: Timestamp) -> (r: Result<
        TodoItem,
        TodoError,
    >)
        ensures
            final(self)@ == after_update(old(self)@, req.id@, req.patch(), now),
            distinct_ids(old(self)@) ==> distinct_ids(final(self)@),
            chronological(old(self)@) && not_before_creation(old(self)@, req.id@, now)
                ==> chronological(final(self)@),
            match r {
                Ok(item) => lookup(old(self)@, req.id@) matches Some(before) && item@ == patched(
                    before,
                    req.patch(),
                    now,
                ),
                Err(e) => lookup(old(self)@, req.id@) is None && e@ == (ErrorView::NotFound {
                    id: req.id@,
                }),
            },
    {
        match self.find(&req.id) {
            Some(i) => Ok(self.change(i, req, now)),
            None => Err(TodoError::NotFound { id: req.id }),
        }
    }

    /// Marks the record that `id` names as done, at time `now`, and hands back
    /// a copy of it.
    pub fn complete(&mut self, id: &str, now: Timestamp) -> (r: Result<TodoItem, TodoError>)
        ensures
            final(self)@ == after_update(old(self)@, id@, completion(), now),
            distinct_ids(old(self)@) ==> distinct_ids(final(self)@),
            chronological(old(self)@) && not_before_creation(old(self)@, id@, now)
                ==> chronological(final(self)@),
            match r {
                Ok(item) => lookup(old(self)@, id@) matches Some(before) && item@ == patched(
                    before,
                    completion(),
                    now,
                ),
                Err(e) => lookup(old(self)@, id@) is None && e@ == (ErrorView::NotFound { id: id@ }),
            },
    {
        self.update(completing(id.to_owned()), now)
    }

    /// Takes the record that `id` names out of the list; the others keep their
    /// order. Hands back the identifier removed.
    pub fn remove(&mut self, id: &str) -> (r: Result<String, TodoError>)
        ensures
            final(self)@ == after_delete(old(self)@, id@),
            distinct_ids(old(self)@) ==> distinct_ids(final(self)@),
            chronological(old(self)@) ==> chronological(final(self)@),
            match r {
                Ok(removed) => has_id(old(self)@, id@) && removed@ == id@,
                Err(e) => !has_id(old(self)@, id@) && e@ == (ErrorView::NotFound { id: id@ }),
            },
    {
        let id = id.to_owned();
        proof {
            lemma_delete_keeps_invariants(self@, id@);
        }
        match self.find(&id) {
            Some(i) => {
                proof {
                    lemma_first_unique(self@, id@, i as int);
                }
                self.todos.remove(i);
                assert(self@ =~= after_delete(old(self)@, id@));
                Ok(id)
            },
            None => Err(TodoError::NotFound { id }),
        }
    }

    /// Replies with every record, in the order of creation.
    pub fn list_todos(&self) -> (r: Result<ToolReply, TodoError>)
        ensures
            r matches Ok(reply) && reply@ == ReplyView::Items(self@),
    {
        Ok(ToolReply::Items(self.list()))
    }

    /// Creates a record from `req` under an identifier drawn for it, with both
    /// timestamps at the clock's reading, and replies with the record.
    ///
    /// The identifier and the reading are whatever the generator and the clock
    /// gave: the record in the reply shows them. Identifiers stay distinct
    /// unless the generator repeats one that the list still holds.
    pub fn create_todo(&mut self, req: CreateTodoRequest) -> (r: Result<ToolReply, TodoError>)
        ensures
            created_at_reading(old(self)@, req, final(self)@, r),
            distinct_ids(old(self)@) && !has_id(old(self)@, final(self)@.last().id)
                ==> distinct_ids(final(self)@),
            chronological(old(self)@) ==> chronological(final(self)@),
    {
        let now = current_time();
        let id = fresh_id();
        Ok(ToolReply::Item(self.insert(id, now, req)))
    }

    /// Looks up the record that `req` names and, where there is one, reads the
    /// clock and changes the record at that reading.
    fn change_now(&mut self, req: UpdateTodoRequest) -> (r: Result<ToolReply, TodoError>)
        ensures
            changed_at_reading(old(self)@, req.id@, req.patch(), final(self)@, r),
            distinct_ids(old(self)@) ==> distinct_ids(final(self)@),
            chronological(old(self)@) && reading_not_before_creation(old(self)@, req.id@, r)
                ==> chronological(final(self)@),
    {
        match self.find(&req.id) {
            Some(i) => {
                let now = current_time();
                Ok(ToolReply::Item(self.change(i, req, now)))
            },
            None => Err(TodoError::NotFound { id: req.id }),
        }
    }

    /// Applies `req` at the clock's reading and replies with the changed
    /// record, whose `updated_at` shows that reading. Where no record carries
    /// the identifier, nothing changes and the clock is not read.
    pub fn update_todo(&mut self, req: UpdateTodoRequest) -> (r: Result<ToolReply, TodoError>)
        ensures
            changed_at_reading(old(self)@, req.id@, req.patch(), final(self)@, r),
            distinct_ids(old(self)@) ==> distinct_ids(final(self)@),
            chronological(old(self)@) && reading_not_before_creation(old(self)@, req.id@, r)
                ==> chronological(final(self)@),
    {
        self.change_now(req)
    }

    /// Marks the record that `id` names as done at the clock's reading and
    /// replies with it; its `updated_at` shows that reading. Where no record
    /// carries the identifier, nothing changes and the clock is not read.
    pub fn complete_todo(&mut self, id: String) -> (r: Result<ToolReply, TodoError>)
        ensures
            changed_at_reading(old(self)@, id@, completion(), final(self)@, r),
            distinct_ids(old(self)@) ==> distinct_ids(final(self)@),
            chronological(old(self)@) && reading_not_before_creation(old(self)@, id@, r)
                ==> chronological(final(self)@),
    {
        self.change_now(completing(id))
    }

    /// Removes the record that `id` names and replies with a sentence that
    /// confirms it.
    pub fn delete_todo(&mut self, id: String) -> (r: Result<ToolReply, TodoError>)
        ensures
            final(self)@ == after_delete(old(self)@, id@),
            distinct_ids(old(self)@) ==> distinct_ids(final(self)@),
            chronological(old(self)@) ==> chronological(final(self)@),
            match r {
                Ok(reply) => has_id(old(self)@, id@) && reply@ == ReplyView::Text(
                    deletion_notice_of(id@),
                ),
                Err(e) => !has_id(old(self)@, id@) && e@ == (ErrorView::NotFound { id: id@ }),
            },
    {
        match self.remove(id.as_str()) {
            Ok(removed) => Ok(ToolReply::Text(deletion_notice(removed.as_str()))),
            Err(e) => Err(e),
        }
    }

    /// Replies with the record that `id` names.
    pub fn get_todo(&self, id: String) -> (r: Result<ToolReply, TodoError>)
        ensures
            match r {
                Ok(reply) => lookup(self@, id@) matches Some(found) && reply@ == ReplyView::Item(
                    found,
                ),
                Err(e) => lookup(self@, id@) is None && e@ == (ErrorView::NotFound { id: id@ }),
            },
    {
        match self.get(id.as_str()) {
            Ok(item) => Ok(ToolReply::Item(item)),
            Err(e) => Err(e),
        }
    }

    /// What the service says of itself: the protocol revision, that it offers
    /// tools, and how to use them.
    pub fn get_info(&self) -> (info: ServiceInfo)
        ensures
            info.protocol_version@ == protocol_version_text(),
            info.tools_enabled,
            info.instructions@ == instructions_text(),
    {
        ServiceInfo {
            protocol_version: "2024-11-05".to_owned(),
            tools_enabled: true,
            instructions: "This is a todo server that helps you manage your todo list. Use list_todos to view all todos, create_todo to create new todos, update_todo to update existing todos, delete_todo to remove todos, get_todo to view todo details, and complete_todo to mark todos as completed.".to_owned(),
        }
    }
}

} // verus!
