//! Properties that relate several operations of the ToDo model.

use vstd::prelude::*;

use crate::domain::{
    completed, parse_succeeds, parsed_completion, status_text, valid_owner, valid_title,
    wants_complete, ToDoModel, COMPLETE_STATUS, INCOMPLETE_STATUS,
};
use crate::public_types::ToDoItem;
use crate::time::Timestamp;

verus! {

/// Completing a ToDo twice stamps it once: the second `set_completed`, at any
/// instant, keeps the completion date of the first and reports no change.
pub proof fn lemma_set_completed_idempotent(m: ToDoModel, first: Timestamp, second: Timestamp)
    ensures
        completed(completed(m, first), second).completed_on == completed(m, first).completed_on,
        !completed(completed(m, first), second).has_changes,
        completed(completed(m, first), second) == completed(m, first).with_changes(false),
{
}

/// A new ToDo, shown as an item and parsed back from the item's title and
/// status with its owner, parses: with the same title and owner, and, like
/// the new ToDo, incomplete, whatever completion date is passed.
pub proof fn lemma_new_item_parses_back(
    title: Seq<char>,
    owner: Seq<char>,
    m: ToDoModel,
    item: ToDoItem,
    completed_on: Option<Timestamp>,
)
    requires
        valid_title(title),
        valid_owner(owner),
        m.title == title,
        m.owner == owner,
        !m.is_complete(),
        item.shows(m),
    ensures
        parse_succeeds(
            item.title@,
            owner,
            wants_complete(Some(status_text(item.is_complete))),
            completed_on,
        ),
        item.title@ == title,
        status_text(item.is_complete) == status_text(m.is_complete()),
        parsed_completion(wants_complete(Some(status_text(item.is_complete))), completed_on) is None,
{
    reveal_strlit("COMPLETE");
    reveal_strlit("INCOMPLETE");
    assert(INCOMPLETE_STATUS@ != COMPLETE_STATUS@) by {
        assert(INCOMPLETE_STATUS@.len() != COMPLETE_STATUS@.len());
    }
}

} // verus!
