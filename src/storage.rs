//! How a ToDo is laid out in a key-value table: its keys, and the text
//! attributes that are written and read back.

use vstd::prelude::*;

use crate::domain::{
    date_text, opt_text, parse_succeeds, parsed_completion, status_text, text_or_empty, valid_id,
    wants_complete, ToDo, ToDoId, ToDoModel,
};
use crate::error_types::ValidationError;
use crate::time::Timestamp;

verus! {

/// What `str::to_uppercase` returns for a text.
pub uninterp spec fn upper_of(s: Seq<char>) -> Seq<char>;

/// Relies on `str::to_uppercase`: the result depends on the characters alone.
#[verifier::external_body]
fn uppercase(s: &str) -> (r: String)
    ensures
        r@ == upper_of(s@),
{
    s.to_uppercase()
}

/// The partition key of the ToDos of a user.
pub fn generate_pk(user_id: &str) -> (r: String)
    ensures
        r@ == "USER#"@ + upper_of(user_id@),
{
    String::from_str("USER#").concat(uppercase(user_id).as_str())
}

/// The sort key of a ToDo within its owner's partition.
pub fn generate_sk(todo_id: &str) -> (r: String)
    ensures
        r@ == "TODO#"@ + upper_of(todo_id@),
{
    String::from_str("TODO#").concat(uppercase(todo_id).as_str())
}

/// A text, or nothing when it is empty.
pub open spec fn present(s: Seq<char>) -> Option<Seq<char>> {
    if s.len() == 0 {
        None
    } else {
        Some(s)
    }
}

/// The parsed form of an optional RFC 3339 text; a text that does not parse
/// counts as absent.
pub open spec fn parsed_date(s: Option<String>) -> Option<Timestamp> {
    match s {
        None => None,
        Some(t) => Timestamp::parsed(t@),
    }
}

/// The text attributes of a stored ToDo. Optional ones are absent rather
/// than empty.
pub struct StoredToDo {
    pub id: String,
    pub title: String,
    pub owner_id: String,
    pub status: String,
    pub description: Option<String>,
    pub due_date: Option<String>,
    pub completed_on: Option<String>,
}

impl StoredToDo {
    /// Whether these attributes are the ones written for the ToDo `m`.
    pub open spec fn records(self, m: ToDoModel) -> bool {
        &&& self.id@ == m.id
        &&& self.title@ == m.title
        &&& self.owner_id@ == m.owner
        &&& self.status@ == status_text(m.is_complete())
        &&& opt_text(self.description) == present(text_or_empty(m.description))
        &&& opt_text(self.due_date) == present(date_text(m.due_date))
        &&& opt_text(self.completed_on) == present(date_text(m.completed_on))
    }
}

fn present_text(s: String) -> (r: Option<String>)
    ensures
        opt_text(r) == present(s@),
{
    if s.as_str().is_empty() {
        None
    } else {
        Some(s)
    }
}

/// The attributes written for a ToDo.
pub fn stored_record(todo: &ToDo) -> (r: StoredToDo)
    ensures
        r.records(todo@),
{
    StoredToDo {
        id: String::from_str(todo.get_id()),
        title: String::from_str(todo.get_title()),
        owner_id: String::from_str(todo.get_owner()),
        status: todo.get_status(),
        description: present_text(String::from_str(todo.get_description())),
        due_date: present_text(todo.get_due_date()),
        completed_on: present_text(todo.get_completed_on()),
    }
}

/// Reads a stored ToDo back. The identifier must be valid; the rest is
/// checked as `ToDo::parse` checks it, with dates that do not parse taken as
/// absent.
pub fn parse_stored(record: StoredToDo) -> (r: Result<ToDo, Vec<ValidationError>>)
    ensures
        r is Ok <==> valid_id(record.id@) && parse_succeeds(
            record.title@,
            record.owner_id@,
            wants_complete(Some(record.status@)),
            parsed_date(record.completed_on),
        ),
        r matches Ok(t) ==> {
            &&& t@.id == record.id@
            &&& t@.title == record.title@
            &&& t@.owner == record.owner_id@
            &&& t@.description == opt_text(record.description)
            &&& t@.due_date == parsed_date(record.due_date)
            &&& t@.completed_on == parsed_completion(
                wants_complete(Some(record.status@)),
                parsed_date(record.completed_on),
            )
            &&& !t@.has_changes
        },
{
    let StoredToDo { id, title, owner_id, status, description, due_date, completed_on } = record;
    let existing_id = match ToDoId::parse(id.as_str()) {
        Ok(existing_id) => existing_id,
        Err(e) => return Err(vec![e]),
    };
    let due = match &due_date {
        None => None,
        Some(d) => Timestamp::parse_rfc3339(d.as_str()),
    };
    let done = match &completed_on {
        None => None,
        Some(d) => Timestamp::parse_rfc3339(d.as_str()),
    };
    ToDo::parse(
        title.as_str(),
        owner_id.as_str(),
        Some(status),
        Some(existing_id),
        description,
        due,
        done,
    )
}

} // verus!
