//! The lifecycle events that the services publish.

use vstd::prelude::*;

verus! {

/// A ToDo was created.
pub struct ToDoCreated {
    to_do_id: String,
    user_id: String,
}

/// A ToDo was completed.
pub struct ToDoCompleted {
    to_do_id: String,
    user_id: String,
}

/// A ToDo was updated.
pub struct ToDoUpdated {
    to_do_id: String,
    user_id: String,
}

impl View for ToDoCreated {
    type V = (Seq<char>, Seq<char>);

    closed spec fn view(&self) -> (Seq<char>, Seq<char>) {
        (self.to_do_id@, self.user_id@)
    }
}

impl View for ToDoCompleted {
    type V = (Seq<char>, Seq<char>);

    closed spec fn view(&self) -> (Seq<char>, Seq<char>) {
        (self.to_do_id@, self.user_id@)
    }
}

impl View for ToDoUpdated {
    type V = (Seq<char>, Seq<char>);

    closed spec fn view(&self) -> (Seq<char>, Seq<char>) {
        (self.to_do_id@, self.user_id@)
    }
}

impl ToDoCreated {
    pub fn new(to_do_id: &str, user_id: &str) -> (r: Self)
        ensures
            r@ == (to_do_id@, user_id@),
    {
        Self { to_do_id: String::from_str(to_do_id), user_id: String::from_str(user_id) }
    }

    pub fn to_do_id(&self) -> (r: &str)
        ensures
            r@ == self@.0,
    {
        self.to_do_id.as_str()
    }

    pub fn user_id(&self) -> (r: &str)
        ensures
            r@ == self@.1,
    {
        self.user_id.as_str()
    }
}

impl ToDoCompleted {
    pub fn new(to_do_id: &str, user_id: &str) -> (r: Self)
        ensures
            r@ == (to_do_id@, user_id@),
    {
        Self { to_do_id: String::from_str(to_do_id), user_id: String::from_str(user_id) }
    }

    pub fn to_do_id(&self) -> (r: &str)
        ensures
            r@ == self@.0,
    {
        self.to_do_id.as_str()
    }

    pub fn user_id(&self) -> (r: &str)
        ensures
            r@ == self@.1,
    {
        self.user_id.as_str()
    }
}

impl ToDoUpdated {
    pub fn new(to_do_id: &str, user_id: &str) -> (r: Self)
        ensures
            r@ == (to_do_id@, user_id@),
    {
        Self { to_do_id: String::from_str(to_do_id), user_id: String::from_str(user_id) }
    }

    pub fn to_do_id(&self) -> (r: &str)
        ensures
            r@ == self@.0,
    {
        self.to_do_id.as_str()
    }

    pub fn user_id(&self) -> (r: &str)
        ensures
            r@ == self@.1,
    {
        self.user_id.as_str()
    }
}

/// One lifecycle event.
pub enum MessageType {
    Created(ToDoCreated),
    Updated(ToDoUpdated),
    Completed(ToDoCompleted),
}

/// The name under which an event of each kind is published.
pub open spec fn event_type_text(m: MessageType) -> Seq<char> {
    match m {
        MessageType::Created(_) => "ToDoCreated"@,
        MessageType::Updated(_) => "ToDoUpdated"@,
        MessageType::Completed(_) => "ToDoCompleted"@,
    }
}

impl MessageType {
    /// The ToDo and the user that the event is about.
    pub open spec fn subject(self) -> (Seq<char>, Seq<char>) {
        match self {
            MessageType::Created(e) => e@,
            MessageType::Updated(e) => e@,
            MessageType::Completed(e) => e@,
        }
    }

    pub fn event_type(&self) -> (r: &'static str)
        ensures
            r@ == event_type_text(*self),
    {
        match self {
            MessageType::Created(_) => "ToDoCreated",
            MessageType::Updated(_) => "ToDoUpdated",
            MessageType::Completed(_) => "ToDoCompleted",
        }
    }

    /// The version of the event's schema.
    pub fn event_version(&self) -> (r: &'static str)
        ensures
            r@ == "v1"@,
    {
        "v1"
    }

    pub fn to_do_id(&self) -> (r: &str)
        ensures
            r@ == self.subject().0,
    {
        match self {
            MessageType::Created(e) => e.to_do_id(),
            MessageType::Updated(e) => e.to_do_id(),
            MessageType::Completed(e) => e.to_do_id(),
        }
    }

    pub fn user_id(&self) -> (r: &str)
        ensures
            r@ == self.subject().1,
    {
        match self {
            MessageType::Created(e) => e.user_id(),
            MessageType::Updated(e) => e.user_id(),
            MessageType::Completed(e) => e.user_id(),
        }
    }
}

/// A publisher that only records each event in the log.
pub struct InMemoryMessagePublisher {}

impl InMemoryMessagePublisher {
    pub fn new() -> (r: Self) {
        Self {}
    }
}

} // verus!
