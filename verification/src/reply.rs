//! What an operation hands to the tool-call boundary: a payload to encode, or
//! a failure with its category and context.

use vstd::prelude::*;
use vstd::string::StringExecFns;
use crate::item::{ItemView, TodoItem, views_of};

verus! {

/// The category under which the boundary reports a failure.
#[derive(Clone, Copy, Debug, PartialEq, Eq, Structural)]
pub enum ErrorCategory {
    /// The request named something that does not exist.
    InvalidParams,
    /// The service itself failed.
    InternalError,
}

/// Why an operation failed.
#[derive(Debug, PartialEq, Eq)]
pub enum TodoError {
    /// No record carries the identifier that the request named.
    NotFound { id: String },
    /// The result could not be encoded for the reply.
    SerializationFailure { cause: String },
}

/// What a `TodoError` holds, as mathematical values.
pub ghost enum ErrorView {
    NotFound { id: Seq<char> },
    SerializationFailure { cause: Seq<char> },
}

impl View for TodoError {
    type V = ErrorView;

    open spec fn view(&self) -> ErrorView {
        match *self {
            TodoError::NotFound { id } => ErrorView::NotFound { id: id@ },
            TodoError::SerializationFailure { cause } => ErrorView::SerializationFailure {
                cause: cause@,
            },
        }
    }
}

/// The message of a failure of each kind.
pub open spec fn message_of(e: ErrorView) -> Seq<char> {
    match e {
        ErrorView::NotFound { .. } => "Todo item with specified ID not found"@,
        ErrorView::SerializationFailure { .. } => "Serialization failed"@,
    }
}

/// The key under which a failure of each kind carries its context.
pub open spec fn context_key_of(e: ErrorView) -> Seq<char> {
    match e {
        ErrorView::NotFound { .. } => "id"@,
        ErrorView::SerializationFailure { .. } => "error"@,
    }
}

impl TodoError {
    /// A missing record is the caller's mistake, a failed encoding the service's.
    pub fn category(&self) -> (c: ErrorCategory)
        ensures
            c == (match self@ {
                ErrorView::NotFound { .. } => ErrorCategory::InvalidParams,
                ErrorView::SerializationFailure { .. } => ErrorCategory::InternalError,
            }),
    {
        match self {
            TodoError::NotFound { .. } => ErrorCategory::InvalidParams,
            TodoError::SerializationFailure { .. } => ErrorCategory::InternalError,
        }
    }

    pub fn message(&self) -> (m: String)
        ensures
            m@ == message_of(self@),
    {
        match self {
            TodoError::NotFound { .. } => "Todo item with specified ID not found".to_owned(),
            TodoError::SerializationFailure { .. } => "Serialization failed".to_owned(),
        }
    }

    pub fn context_key(&self) -> (k: String)
        ensures
            k@ == context_key_of(self@),
    {
        match self {
            TodoError::NotFound { .. } => "id".to_owned(),
            TodoError::SerializationFailure { .. } => "error".to_owned(),
        }
    }

    /// The identifier that was not found, or the cause of the failed encoding.
    pub fn context_value(&self) -> (v: String)
        ensures
            v@ == (match self@ {
                ErrorView::NotFound { id } => id,
                ErrorView::SerializationFailure { cause } => cause,
            }),
    {
        match self {
            TodoError::NotFound { id } => id.clone(),
            TodoError::SerializationFailure { cause } => cause.clone(),
        }
    }
}

/// What a successful operation hands back, before it is encoded as text.
#[derive(Debug, PartialEq, Eq)]
pub enum ToolReply {
    /// Every record, in the order of creation.
    Items(Vec<TodoItem>),
    /// The one record that the operation made, changed or found.
    Item(TodoItem),
    /// A sentence for the reader.
    Text(String),
}

/// What a `ToolReply` holds, as mathematical values.
pub ghost enum ReplyView {
    Items(Seq<ItemView>),
    Item(ItemView),
    Text(Seq<char>),
}

impl View for ToolReply {
    type V = ReplyView;

    open spec fn view(&self) -> ReplyView {
        match *self {
            ToolReply::Items(items) => ReplyView::Items(views_of(items@)),
            ToolReply::Item(item) => ReplyView::Item(item@),
            ToolReply::Text(text) => ReplyView::Text(text@),
        }
    }
}

/// The sentence that confirms a deletion of `id`.
pub open spec fn deletion_notice_of(id: Seq<char>) -> Seq<char> {
    "Successfully deleted todo item with ID "@ + id
}

pub fn deletion_notice(id: &str) -> (text: String)
    ensures
        text@ == deletion_notice_of(id@),
{
    "Successfully deleted todo item with ID ".to_owned().concat(id)
}

/// Settles a reply once the boundary has tried to encode its payload: the
/// encoded text goes out as it is, and a failed encoding becomes a
/// `SerializationFailure` that carries the encoder's message.
pub fn encoded_reply(encoded: Result<String, String>) -> (r: Result<String, TodoError>)
    ensures
        match encoded {
            Ok(text) => r matches Ok(t) && t@ == text@,
            Err(cause) => r matches Err(e) && e@ == (ErrorView::SerializationFailure {
                cause: cause@,
            }),
        },
{
    match encoded {
        Ok(text) => Ok(text),
        Err(cause) => Err(TodoError::SerializationFailure { cause }),
    }
}

/// What the service says of itself once per session.
#[derive(Debug, PartialEq, Eq)]
pub struct ServiceInfo {
    pub protocol_version: String,
    pub tools_enabled: bool,
    pub instructions: String,
}

/// The protocol revision that the service speaks.
pub open spec fn protocol_version_text() -> Seq<char> {
    "2024-11-05"@
}

/// The usage instructions, which name the six operations.
pub open spec fn instructions_text() -> Seq<char> {
    "This is a todo server that helps you manage your todo list. Use list_todos to view all todos, create_todo to create new todos, update_todo to update existing todos, delete_todo to remove todos, get_todo to view todo details, and complete_todo to mark todos as completed."@
}

} // verus!
