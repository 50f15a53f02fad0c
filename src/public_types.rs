//! The values that the services take from and hand to their callers.

use vstd::prelude::*;

use crate::domain::{date_text, text_or_empty, ToDoModel};

verus! {

/// A ToDo as callers see it: dates as RFC 3339 text, empty when absent.
#[derive(Debug, Clone)]
pub struct ToDoItem {
    pub id: String,
    pub title: String,
    pub is_complete: bool,
    pub completed_on: String,
    pub description: String,
    pub due_date: String,
}

impl ToDoItem {
    /// Whether this item shows the ToDo `m`.
    pub open spec fn shows(self, m: ToDoModel) -> bool {
        &&& self.id@ == m.id
        &&& self.title@ == m.title
        &&& self.is_complete == m.is_complete()
        &&& self.completed_on@ == date_text(m.completed_on)
        &&& self.description@ == text_or_empty(m.description)
        &&& self.due_date@ == date_text(m.due_date)
    }
}

} // verus!

verus! {

/// A request to create a ToDo; the due date is RFC 3339 text.
pub struct CreateToDoCommand {
    pub title: String,
    pub description: Option<String>,
    pub due_date: Option<String>,
}

/// A request to update a ToDo; the due date is RFC 3339 text.
pub struct UpdateToDoCommand {
    pub title: String,
    pub set_as_complete: bool,
    pub description: Option<String>,
    pub due_date: Option<String>,
}

} // verus!
