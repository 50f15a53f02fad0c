//! What the create, update and list services decide, apart from the
//! repository and the publisher that they call.

use vstd::prelude::*;

use crate::domain::{
    completed, described, length_error, opt_text, owner_error, redated, retitled, valid_owner,
    valid_title, OwnerId, Title, ToDo, ToDoModel,
};
use crate::error_types::{validation_text, ServiceError, ValidationError};
use crate::events::{MessageType, ToDoCompleted, ToDoUpdated};
use crate::public_types::{CreateToDoCommand, ToDoItem, UpdateToDoCommand};
use crate::time::Timestamp;

verus! {

/// The text that one optional error adds to a combined message.
pub open spec fn error_text(o: Option<Seq<char>>) -> Seq<char> {
    match o {
        None => seq![],
        Some(m) => validation_text(m),
    }
}

/// Each optional error, in order, after a space.
pub open spec fn combined(errs: Seq<Option<Seq<char>>>) -> Seq<char>
    decreases errs.len(),
{
    if errs.len() == 0 {
        seq![]
    } else {
        combined(errs.drop_last()) + seq![' '] + error_text(errs.last())
    }
}

pub open spec fn option_messages(errs: Seq<Option<ValidationError>>) -> Seq<Option<Seq<char>>> {
    errs.map_values(
        |o: Option<ValidationError>|
            match o {
                None => None,
                Some(e) => Some(e@),
            },
    )
}

/// The title's error, if the title breaks its rule.
pub open spec fn title_problem(title: Seq<char>) -> Option<Seq<char>> {
    if valid_title(title) {
        None
    } else {
        Some(length_error())
    }
}

/// The owner's error, if the owner breaks its rule.
pub open spec fn owner_problem(owner: Seq<char>) -> Option<Seq<char>> {
    if valid_owner(owner) {
        None
    } else {
        Some(owner_error())
    }
}

/// Combines optional validation errors into one service error.
pub fn combine_errors(err: Vec<Option<ValidationError>>) -> (r: ServiceError)
    ensures
        r@ == combined(option_messages(err@)),
{
    let mut error_builder = String::new();
    let mut i: usize = 0;
    while i < err.len()
        invariant
            i <= err@.len(),
            error_builder@ == combined(option_messages(err@).take(i as int)),
        decreases err@.len() - i,
    {
        let piece = match &err[i] {
            None => String::new(),
            Some(e) => e.to_string(),
        };
        proof {
            reveal_strlit(" ");
            assert(option_messages(err@).take(i + 1).drop_last() =~= option_messages(err@).take(
                i as int,
            ));
        }
        error_builder = error_builder.concat(" ").concat(piece.as_str());
        i = i + 1;
    }
    assert(option_messages(err@).take(err@.len() as int) =~= option_messages(err@));
    ServiceError::new(error_builder)
}

/// The due date of a command: the parsed text, or none when it does not parse.
pub open spec fn parsed_due_date(due_date: Option<String>) -> Option<Timestamp> {
    match due_date {
        None => None,
        Some(s) => Timestamp::parsed(s@),
    }
}

/// Validates a create command for `owner` and builds the new, incomplete
/// ToDo. A due date that does not parse is dropped. When the title or the
/// owner fails its check the error combines the message of each that failed.
pub fn create_to_do(owner: &str, input: CreateToDoCommand) -> (r: Result<ToDo, ServiceError>)
    ensures
        r is Ok <==> valid_title(input.title@) && valid_owner(owner@),
        r matches Err(e) ==> e@ == combined(
            seq![title_problem(input.title@), owner_problem(owner@)],
        ),
        r matches Ok(t) ==> {
            &&& t@.id.len() == 36
            &&& t@.title == input.title@
            &&& t@.owner == owner@
            &&& t@.description == opt_text(input.description)
            &&& t@.due_date == parsed_due_date(input.due_date)
            &&& !t@.is_complete()
            &&& !t@.has_changes
        },
{
    let CreateToDoCommand { title, description, due_date } = input;
    let parsed_title = Title::new(title.as_str());
    let parsed_owner = OwnerId::new(owner);
    if parsed_title.is_err() || parsed_owner.is_err() {
        let errors = vec![parsed_title.err(), parsed_owner.err()];
        assert(option_messages(errors@) =~= seq![title_problem(title@), owner_problem(owner@)]);
        return Err(combine_errors(errors));
    }
    let parsed_due_date = match &due_date {
        None => None,
        Some(d) => Timestamp::parse_rfc3339(d.as_str()),
    };
    match ToDo::new(title.as_str(), owner, description, parsed_due_date) {
        Ok(t) => Ok(t),
        Err(_) => Err(ServiceError::new(String::new())),
    }
}

/// The ToDo after an update command, when a completion would be stamped `now`:
/// completion first, then title, description and due date.
pub open spec fn updated(
    m: ToDoModel,
    title: Seq<char>,
    set_as_complete: bool,
    description: Option<Seq<char>>,
    due_date: Option<Seq<char>>,
    now: Timestamp,
) -> ToDoModel {
    let status = if set_as_complete {
        completed(m, now)
    } else {
        m
    };
    redated(described(retitled(status, title), description), due_date)
}

/// Whether `event` is what an update announces: nothing when nothing is
/// written, else a completion or an update of the ToDo `id` of `owner`.
pub open spec fn announces(
    event: Option<MessageType>,
    persist: bool,
    set_as_complete: bool,
    id: Seq<char>,
    owner: Seq<char>,
) -> bool {
    match event {
        None => !persist,
        Some(MessageType::Completed(e)) => persist && set_as_complete && e@ == (id, owner),
        Some(MessageType::Updated(e)) => persist && !set_as_complete && e@ == (id, owner),
        Some(MessageType::Created(_)) => false,
    }
}

/// What an update decided: the updated ToDo, whether it must be written,
/// and the event to publish after the write.
pub struct UpdateOutcome {
    pub todo: ToDo,
    pub persist: bool,
    pub event: Option<MessageType>,
}

/// Applies an update command to a stored ToDo: completes it when asked,
/// then updates title, description and due date. The result is written, and
/// an event published, only when the ToDo reports changes.
pub fn update_todo(todo: ToDo, update_command: UpdateToDoCommand) -> (r: Result<
    UpdateOutcome,
    ServiceError,
>)
    ensures
        r is Ok <==> valid_title(update_command.title@),
        r matches Err(e) ==> e@ == validation_text(length_error()),
        r matches Ok(o) ==> {
            &&& o.todo@ == updated(
                todo@,
                update_command.title@,
                update_command.set_as_complete,
                opt_text(update_command.description),
                opt_text(update_command.due_date),
                o.todo@.completed_on->0,
            )
            &&& o.persist == o.todo@.has_changes
            &&& announces(o.event, o.persist, update_command.set_as_complete, o.todo@.id, o.todo@.owner)
        },
{
    let UpdateToDoCommand { title, set_as_complete, description, due_date } = update_command;
    let updated_status = if set_as_complete {
        todo.set_completed()
    } else {
        todo
    };
    let retitled_todo = match updated_status.update_title(title.as_str()) {
        Ok(t) => t,
        Err(e) => return Err(ServiceError::new(e.to_string())),
    };
    let updated_todo = retitled_todo.update_description(description).update_due_date(due_date);
    let persist = updated_todo.has_changes();
    let event = if !persist {
        None
    } else if set_as_complete {
        Some(MessageType::Completed(ToDoCompleted::new(updated_todo.get_id(), updated_todo.get_owner())))
    } else {
        Some(MessageType::Updated(ToDoUpdated::new(updated_todo.get_id(), updated_todo.get_owner())))
    };
    Ok(UpdateOutcome { todo: updated_todo, persist, event })
}

/// The items that show a list of ToDos, in the same order.
pub fn to_items(todos: &Vec<ToDo>) -> (r: Vec<ToDoItem>)
    ensures
        r@.len() == todos@.len(),
        forall|i: int| 0 <= i < r@.len() ==> #[trigger] r@[i].shows(todos@[i]@),
{
    let mut items: Vec<ToDoItem> = Vec::new();
    let mut i: usize = 0;
    while i < todos.len()
        invariant
            i <= todos@.len(),
            items@.len() == i,
            forall|j: int| 0 <= j < i ==> #[trigger] items@[j].shows(todos@[j]@),
        decreases todos@.len() - i,
    {
        items.push(todos[i].as_dto());
        i = i + 1;
    }
    items
}

} // verus!
