//! An in-memory to-do list: the records, the six operations on them, and the
//! shapes in which their outcomes are handed to a tool-call boundary.

pub mod clock;
pub mod ident;
pub mod item;
pub mod laws;
pub mod model;
pub mod reply;
pub mod store;

pub use clock::Timestamp;
pub use item::{CreateTodoRequest, TodoItem, UpdateTodoRequest};
pub use reply::{ErrorCategory, ServiceInfo, TodoError, ToolReply};
pub use store::TodoList;
