//! The ToDo lifecycle: validated value objects and a two-state entity whose
//! transitions each return a new value.

use vstd::prelude::*;

use crate::error_types::ValidationError;
use crate::helpers::{check_not_empty_and_length_less_than, length_message, within_length};
use crate::public_types::ToDoItem;
use crate::time::Timestamp;

verus! {

pub const INCOMPLETE_STATUS: &'static str = "INCOMPLETE";

pub const COMPLETE_STATUS: &'static str = "COMPLETE";

/// The longest title and identifier, in characters.
pub const MAX_LENGTH: i64 = 50;

pub open spec fn valid_title(s: Seq<char>) -> bool {
    within_length(s, MAX_LENGTH as int)
}

pub open spec fn valid_id(s: Seq<char>) -> bool {
    within_length(s, MAX_LENGTH as int)
}

pub open spec fn valid_owner(s: Seq<char>) -> bool {
    s.len() >= 1
}

/// The message of a title or identifier with a bad length.
pub open spec fn length_error() -> Seq<char> {
    length_message(MAX_LENGTH as int)
}

/// The message of an empty owner.
pub open spec fn owner_error() -> Seq<char> {
    "Owner Id must have a length"@
}

/// The message of a complete status without a completion date.
pub open spec fn completed_on_error() -> Seq<char> {
    "If the status is complete a valid completed on date must be passed"@
}

/// The messages of the field checks that `title` and `owner` fail, title first.
pub open spec fn field_errors(title: Seq<char>, owner: Seq<char>) -> Seq<Seq<char>> {
    (if valid_title(title) { seq![] } else { seq![length_error()] }) + (if valid_owner(owner) {
        seq![]
    } else {
        seq![owner_error()]
    })
}

/// Fields that raise no error are both valid.
proof fn lemma_no_field_errors(title: Seq<char>, owner: Seq<char>, errors: Seq<ValidationError>)
    requires
        messages(errors) == field_errors(title, owner),
        errors.len() == 0,
    ensures
        valid_title(title),
        valid_owner(owner),
{
    assert(field_errors(title, owner).len() == 0);
    if !valid_title(title) {
        assert(field_errors(title, owner)[0] == length_error());
    }
}

/// The messages of a list of validation errors.
pub open spec fn messages(errors: Seq<ValidationError>) -> Seq<Seq<char>> {
    errors.map_values(|e: ValidationError| e@)
}

pub open spec fn opt_text(o: Option<String>) -> Option<Seq<char>> {
    match o {
        Some(s) => Some(s@),
        None => None,
    }
}

/// Whether a status asks for a complete ToDo.
pub open spec fn wants_complete(status: Option<Seq<char>>) -> bool {
    status == Some(COMPLETE_STATUS@)
}

/// Whether `parse` accepts its values: valid fields, and a completion date
/// when a complete ToDo is asked for.
pub open spec fn parse_succeeds(
    title: Seq<char>,
    owner: Seq<char>,
    complete: bool,
    completed_on: Option<Timestamp>,
) -> bool {
    valid_title(title) && valid_owner(owner) && (complete ==> completed_on is Some)
}

/// The completion date of a parsed ToDo: none unless a complete one was asked for.
pub open spec fn parsed_completion(complete: bool, completed_on: Option<Timestamp>) -> Option<
    Timestamp,
> {
    if complete {
        completed_on
    } else {
        None
    }
}

/// A text, or the empty text when there is none.
pub open spec fn text_or_empty(o: Option<Seq<char>>) -> Seq<char> {
    match o {
        Some(s) => s,
        None => seq![],
    }
}

/// The RFC 3339 text of an instant, or the empty text when there is none.
pub open spec fn date_text(o: Option<Timestamp>) -> Seq<char> {
    match o {
        Some(t) => t.rfc3339(),
        None => seq![],
    }
}

/// The status text of a ToDo.
pub open spec fn status_text(complete: bool) -> Seq<char> {
    if complete {
        COMPLETE_STATUS@
    } else {
        INCOMPLETE_STATUS@
    }
}

/// The identifier of a ToDo: between 1 and 50 characters.
pub struct ToDoId {
    value: String,
}

impl View for ToDoId {
    type V = Seq<char>;

    closed spec fn view(&self) -> Seq<char> {
        self.value@
    }
}

/// Relies on `uuid::Uuid::new_v4` and its `Display`, which writes the
/// hyphenated form of 36 characters.
#[verifier::external_body]
fn new_uuid_text() -> (r: String)
    ensures
        r@.len() == 36,
{
    uuid::Uuid::new_v4().to_string()
}

impl ToDoId {
    #[verifier::type_invariant]
    spec fn inv(&self) -> bool {
        valid_id(self.value@)
    }

    /// A fresh random identifier.
    pub fn new() -> (r: ToDoId)
        ensures
            r@.len() == 36,
    {
        let value = new_uuid_text();
        ToDoId { value }
    }

    /// An identifier read back from storage.
    pub fn parse(existing_id: &str) -> (r: Result<ToDoId, ValidationError>)
        ensures
            r is Ok <==> valid_id(existing_id@),
            r matches Ok(id) ==> id@ == existing_id@,
            r matches Err(e) ==> e@ == length_error(),
    {
        match check_not_empty_and_length_less_than(existing_id, MAX_LENGTH) {
            Ok(()) => Ok(ToDoId { value: String::from_str(existing_id) }),
            Err(e) => Err(e),
        }
    }

    pub fn to_string(&self) -> (r: &str)
        ensures
            r@ == self@,
    {
        self.value.as_str()
    }

    pub fn get_value(&self) -> (r: String)
        ensures
            r@ == self@,
    {
        self.value.clone()
    }
}

/// The title of a ToDo: between 1 and 50 characters.
pub struct Title {
    value: String,
}

impl View for Title {
    type V = Seq<char>;

    closed spec fn view(&self) -> Seq<char> {
        self.value@
    }
}

impl Title {
    #[verifier::type_invariant]
    spec fn inv(&self) -> bool {
        valid_title(self.value@)
    }

    pub fn new(title: &str) -> (r: Result<Title, ValidationError>)
        ensures
            r is Ok <==> valid_title(title@),
            r matches Ok(t) ==> t@ == title@,
            r matches Err(e) ==> e@ == length_error(),
    {
        match check_not_empty_and_length_less_than(title, MAX_LENGTH) {
            Ok(()) => Ok(Title { value: String::from_str(title) }),
            Err(e) => Err(e),
        }
    }

    pub fn to_string(&self) -> (r: &str)
        ensures
            r@ == self@,
    {
        self.value.as_str()
    }

    pub fn get_value(&self) -> (r: String)
        ensures
            r@ == self@,
    {
        self.value.clone()
    }
}

/// The user who owns a ToDo: a non-empty text.
pub struct OwnerId {
    value: String,
}

impl View for OwnerId {
    type V = Seq<char>;

    closed spec fn view(&self) -> Seq<char> {
        self.value@
    }
}

impl OwnerId {
    #[verifier::type_invariant]
    spec fn inv(&self) -> bool {
        valid_owner(self.value@)
    }

    pub fn new(owner_id: &str) -> (r: Result<OwnerId, ValidationError>)
        ensures
            r is Ok <==> valid_owner(owner_id@),
            r matches Ok(o) ==> o@ == owner_id@,
            r matches Err(e) ==> e@ == owner_error(),
    {
        if owner_id.is_empty() {
            Err(ValidationError::new(String::from_str("Owner Id must have a length")))
        } else {
            Ok(OwnerId { value: String::from_str(owner_id) })
        }
    }

    pub fn to_string(&self) -> (r: &str)
        ensures
            r@ == self@,
    {
        self.value.as_str()
    }

    pub fn get_value(&self) -> (r: String)
        ensures
            r@ == self@,
    {
        self.value.clone()
    }
}

/// Whether a ToDo is complete, named as its status text.
#[allow(non_camel_case_types)]
#[derive(Debug, Clone, Copy, PartialEq, Eq)]
pub enum IsComplete {
    INCOMPLETE,
    COMPLETE,
}

impl IsComplete {
    pub fn to_string(&self) -> (r: String)
        ensures
            r@ == status_text(*self == IsComplete::COMPLETE),
    {
        match self {
            IsComplete::INCOMPLETE => String::from_str(INCOMPLETE_STATUS),
            IsComplete::COMPLETE => String::from_str(COMPLETE_STATUS),
        }
    }
}

/// What a ToDo holds, as mathematical values. `completed_on` is present
/// exactly when the ToDo is complete.
pub struct ToDoModel {
    pub id: Seq<char>,
    pub title: Seq<char>,
    pub owner: Seq<char>,
    pub description: Option<Seq<char>>,
    pub due_date: Option<Timestamp>,
    pub completed_on: Option<Timestamp>,
    pub has_changes: bool,
}

impl ToDoModel {
    pub open spec fn is_complete(self) -> bool {
        self.completed_on is Some
    }

    pub open spec fn wf(self) -> bool {
        &&& valid_id(self.id)
        &&& valid_title(self.title)
        &&& valid_owner(self.owner)
    }

    /// The same ToDo with another change flag.
    pub open spec fn with_changes(self, has_changes: bool) -> ToDoModel {
        ToDoModel { has_changes, ..self }
    }
}

/// The ToDo after `update_title`: a complete one keeps its title and flag.
pub open spec fn retitled(m: ToDoModel, new_title: Seq<char>) -> ToDoModel {
    if m.is_complete() {
        m
    } else {
        ToDoModel { title: new_title, has_changes: true, ..m }
    }
}

/// The ToDo after `update_description`.
pub open spec fn described(m: ToDoModel, new_description: Option<Seq<char>>) -> ToDoModel {
    match new_description {
        None => m,
        Some(d) => ToDoModel { description: Some(d), has_changes: true, ..m },
    }
}

/// The ToDo after `update_due_date`: only a text that parses changes it.
pub open spec fn redated(m: ToDoModel, new_due_date: Option<Seq<char>>) -> ToDoModel {
    match new_due_date {
        None => m,
        Some(s) => match Timestamp::parsed(s) {
            None => m,
            Some(d) => ToDoModel { due_date: Some(d), has_changes: true, ..m },
        },
    }
}

/// The ToDo after `set_completed`, when it ran at instant `now`.
pub open spec fn completed(m: ToDoModel, now: Timestamp) -> ToDoModel {
    if m.is_complete() {
        m.with_changes(false)
    } else {
        ToDoModel { completed_on: Some(now), has_changes: true, ..m }
    }
}

/// Represents a ToDo list item, a ToDo can be incomplete or complete.
#[non_exhaustive]
pub enum ToDo {
    /// Represents an incomplete ToDo item
    Incomplete(IncompleteToDo),
    /// Represents a complete ToDo item
    Complete(CompleteToDo),
}

/// Represents the structure of an incomplete ToDo
#[non_exhaustive]
pub struct IncompleteToDo {
    to_do_id: ToDoId,
    title: Title,
    description: Option<String>,
    due_date: Option<Timestamp>,
    owner: OwnerId,
    has_changes: bool,
}

/// Represents the structure of a complete ToDo item
#[non_exhaustive]
pub struct CompleteToDo {
    to_do_id: ToDoId,
    title: Title,
    description: Option<String>,
    due_date: Option<Timestamp>,
    owner: OwnerId,
    completed_on: Timestamp,
    has_changes: bool,
}

impl View for ToDo {
    type V = ToDoModel;

    closed spec fn view(&self) -> ToDoModel {
        match self {
            ToDo::Incomplete(t) => ToDoModel {
                id: t.to_do_id@,
                title: t.title@,
                owner: t.owner@,
                description: opt_text(t.description),
                due_date: t.due_date,
                completed_on: None,
                has_changes: t.has_changes,
            },
            ToDo::Complete(t) => ToDoModel {
                id: t.to_do_id@,
                title: t.title@,
                owner: t.owner@,
                description: opt_text(t.description),
                due_date: t.due_date,
                completed_on: Some(t.completed_on),
                has_changes: t.has_changes,
            },
        }
    }
}

impl ToDo {
    /// Whether every value object of this ToDo satisfies its own rule; true of
    /// every ToDo.
    pub fn is_well_formed(&self) -> (r: bool)
        ensures
            r,
            self@.wf(),
    {
        match self {
            ToDo::Incomplete(t) => {
                proof {
                    use_type_invariant(&t.to_do_id);
                    use_type_invariant(&t.title);
                    use_type_invariant(&t.owner);
                }
            },
            ToDo::Complete(t) => {
                proof {
                    use_type_invariant(&t.to_do_id);
                    use_type_invariant(&t.title);
                    use_type_invariant(&t.owner);
                }
            },
        }
        true
    }

    fn check_title(input: &str) -> (r: Result<(), ValidationError>)
        ensures
            r is Ok <==> valid_title(input@),
            r matches Err(e) ==> e@ == length_error(),
    {
        check_not_empty_and_length_less_than(input, MAX_LENGTH)
    }

    fn check_owner_id(input: &str) -> (r: Result<(), ValidationError>)
        ensures
            r is Ok <==> valid_owner(input@),
            r matches Err(e) ==> e@ == owner_error(),
    {
        if input.is_empty() {
            Err(ValidationError::new(String::from_str("Owner Id must have a length")))
        } else {
            Ok(())
        }
    }

    /// Checks the title and the owner, and collects the error of each that fails.
    fn check_fields(title: &str, owner: &str) -> (r: Vec<ValidationError>)
        ensures
            messages(r@) == field_errors(title@, owner@),
    {
        let mut errors: Vec<ValidationError> = Vec::new();
        match ToDo::check_title(title) {
            Ok(()) => {},
            Err(e) => errors.push(e),
        }
        match ToDo::check_owner_id(owner) {
            Ok(()) => {},
            Err(e) => errors.push(e),
        }
        assert(messages(errors@) =~= field_errors(title@, owner@));
        errors
    }

    /// Create a new ToDo item from a title and owner, with a fresh identifier.
    /// Every field that fails its check gives one error, title first.
    pub fn new(title: &str, owner_id: &str, description: Option<String>, due_date: Option<
        Timestamp,
    >) -> (r: Result<ToDo, Vec<ValidationError>>)
        ensures
            r is Ok <==> valid_title(title@) && valid_owner(owner_id@),
            r matches Ok(t) ==> {
                &&& t@.id.len() == 36
                &&& t@.title == title@
                &&& t@.owner == owner_id@
                &&& t@.description == opt_text(description)
                &&& t@.due_date == due_date
                &&& !t@.is_complete()
                &&& !t@.has_changes
            },
            r matches Err(es) ==> messages(es@) == field_errors(title@, owner_id@),
    {
        let errors = ToDo::check_fields(title, owner_id);
        if errors.len() > 0 {
            return Err(errors);
        }
        proof {
            lemma_no_field_errors(title@, owner_id@, errors@);
        }
        Ok(
            ToDo::Incomplete(
                IncompleteToDo {
                    to_do_id: ToDoId::new(),
                    title: Title { value: String::from_str(title) },
                    description,
                    due_date,
                    owner: OwnerId { value: String::from_str(owner_id) },
                    has_changes: false,
                },
            ),
        )
    }
}

impl ToDo {
    /// Parse a ToDo from a set of existing values. The status `COMPLETE`
    /// selects a complete ToDo, which needs a completion date; any other
    /// status, or none, an incomplete one. Without an existing identifier a
    /// fresh one is made.
    pub fn parse(
        title: &str,
        owner_id: &str,
        status: Option<String>,
        existing_id: Option<ToDoId>,
        description: Option<String>,
        due_date: Option<Timestamp>,
        completed_on: Option<Timestamp>,
    ) -> (r: Result<ToDo, Vec<ValidationError>>)
        ensures
            r is Ok <==> parse_succeeds(title@, owner_id@, wants_complete(opt_text(status)), completed_on),
            r matches Err(es) ==> messages(es@) == if valid_title(title@) && valid_owner(
                owner_id@,
            ) {
                seq![completed_on_error()]
            } else {
                field_errors(title@, owner_id@)
            },
            r matches Ok(t) ==> {
                &&& t@.title == title@
                &&& t@.owner == owner_id@
                &&& t@.description == opt_text(description)
                &&& t@.due_date == due_date
                &&& t@.completed_on == parsed_completion(wants_complete(opt_text(status)), completed_on)
                &&& !t@.has_changes
                &&& match existing_id {
                    Some(id) => t@.id == id@,
                    None => t@.id.len() == 36,
                }
            },
    {
        let mut errors = ToDo::check_fields(title, owner_id);
        if errors.len() > 0 {
            return Err(errors);
        }
        proof {
            lemma_no_field_errors(title@, owner_id@, errors@);
        }
        let complete = match &status {
            Some(s) => s.eq(&String::from_str(COMPLETE_STATUS)),
            None => false,
        };
        let to_do_id = match existing_id {
            Some(id) => id,
            None => ToDoId::new(),
        };
        let title = Title { value: String::from_str(title) };
        let owner = OwnerId { value: String::from_str(owner_id) };
        if complete {
            match completed_on {
                Some(completed_on) => Ok(
                    ToDo::Complete(
                        CompleteToDo {
                            to_do_id,
                            title,
                            description,
                            due_date,
                            owner,
                            completed_on,
                            has_changes: false,
                        },
                    ),
                ),
                None => {
                    errors.push(
                        ValidationError::new(
                            String::from_str(
                                "If the status is complete a valid completed on date must be passed",
                            ),
                        ),
                    );
                    assert(messages(errors@) =~= seq![completed_on_error()]);
                    Err(errors)
                },
            }
        } else {
            Ok(
                ToDo::Incomplete(
                    IncompleteToDo { to_do_id, title, description, due_date, owner, has_changes: false },
                ),
            )
        }
    }

    pub fn has_changes(&self) -> (r: bool)
        ensures
            r == self@.has_changes,
    {
        match self {
            ToDo::Incomplete(t) => t.has_changes,
            ToDo::Complete(t) => t.has_changes,
        }
    }

    pub fn is_complete(&self) -> (r: bool)
        ensures
            r == self@.is_complete(),
    {
        match self {
            ToDo::Incomplete(_) => false,
            ToDo::Complete(_) => true,
        }
    }

    /// GET the title of the ToDo
    pub fn get_title(&self) -> (r: &str)
        ensures
            r@ == self@.title,
    {
        match self {
            ToDo::Incomplete(t) => t.title.to_string(),
            ToDo::Complete(t) => t.title.to_string(),
        }
    }

    /// GET the owner of the ToDo
    pub fn get_owner(&self) -> (r: &str)
        ensures
            r@ == self@.owner,
    {
        match self {
            ToDo::Incomplete(t) => t.owner.to_string(),
            ToDo::Complete(t) => t.owner.to_string(),
        }
    }

    /// GET the ID of the ToDo
    pub fn get_id(&self) -> (r: &str)
        ensures
            r@ == self@.id,
    {
        match self {
            ToDo::Incomplete(t) => t.to_do_id.to_string(),
            ToDo::Complete(t) => t.to_do_id.to_string(),
        }
    }

    /// GET the status of the ToDo: `INCOMPLETE` or `COMPLETE`.
    pub fn get_status(&self) -> (r: String)
        ensures
            r@ == status_text(self@.is_complete()),
    {
        match self {
            ToDo::Incomplete(_) => String::from_str(INCOMPLETE_STATUS),
            ToDo::Complete(_) => String::from_str(COMPLETE_STATUS),
        }
    }

    /// GET the description of the ToDo, empty when there is none.
    pub fn get_description(&self) -> (r: &str)
        ensures
            r@ == text_or_empty(self@.description),
    {
        let description = match self {
            ToDo::Incomplete(t) => &t.description,
            ToDo::Complete(t) => &t.description,
        };
        proof {
            reveal_strlit("");
        }
        match description {
            Some(d) => d.as_str(),
            None => "",
        }
    }

    /// GET the due date of the ToDo as RFC 3339 text, empty when there is none.
    pub fn get_due_date(&self) -> (r: String)
        ensures
            r@ == date_text(self@.due_date),
    {
        let due_date = match self {
            ToDo::Incomplete(t) => t.due_date,
            ToDo::Complete(t) => t.due_date,
        };
        match due_date {
            Some(d) => d.to_rfc3339(),
            None => String::new(),
        }
    }

    /// GET the date the ToDo was completed. Returns an empty string if incomplete.
    pub fn get_completed_on(&self) -> (r: String)
        ensures
            r@ == date_text(self@.completed_on),
    {
        match self {
            ToDo::Incomplete(_) => String::new(),
            ToDo::Complete(t) => t.completed_on.to_rfc3339(),
        }
    }
}

impl ToDo {
    /// Update the title of the existing ToDo.
    /// If the ToDo is already completed then the title cannot be updated:
    /// it comes back unchanged, with its change flag as it was.
    pub fn update_title(self, new_title: &str) -> (r: Result<ToDo, ValidationError>)
        ensures
            r is Ok <==> valid_title(new_title@),
            r matches Err(e) ==> e@ == length_error(),
            r matches Ok(t) ==> t@ == retitled(self@, new_title@),
    {
        let new_title_value = match Title::new(new_title) {
            Ok(t) => t,
            Err(e) => return Err(e),
        };
        match self {
            ToDo::Incomplete(t) => Ok(
                ToDo::Incomplete(
                    IncompleteToDo {
                        to_do_id: t.to_do_id,
                        title: new_title_value,
                        description: t.description,
                        due_date: t.due_date,
                        owner: t.owner,
                        has_changes: true,
                    },
                ),
            ),
            ToDo::Complete(t) => Ok(ToDo::Complete(t)),
        }
    }

    /// Replace the description, in either state. `None` changes nothing.
    pub fn update_description(self, new_description: Option<String>) -> (r: ToDo)
        ensures
            r@ == described(self@, opt_text(new_description)),
    {
        match new_description {
            None => self,
            Some(desc) => match self {
                ToDo::Incomplete(t) => ToDo::Incomplete(
                    IncompleteToDo {
                        to_do_id: t.to_do_id,
                        title: t.title,
                        description: Some(desc),
                        due_date: t.due_date,
                        owner: t.owner,
                        has_changes: true,
                    },
                ),
                ToDo::Complete(t) => ToDo::Complete(
                    CompleteToDo {
                        to_do_id: t.to_do_id,
                        title: t.title,
                        description: Some(desc),
                        due_date: t.due_date,
                        owner: t.owner,
                        completed_on: t.completed_on,
                        has_changes: true,
                    },
                ),
            },
        }
    }

    /// Replace the due date, in either state, with the RFC 3339 text given.
    /// `None`, or a text that does not parse, changes nothing.
    pub fn update_due_date(self, new_due_date: Option<String>) -> (r: ToDo)
        ensures
            r@ == redated(self@, opt_text(new_due_date)),
    {
        let parsed = match &new_due_date {
            None => None,
            Some(s) => Timestamp::parse_rfc3339(s.as_str()),
        };
        match parsed {
            None => self,
            Some(date) => match self {
                ToDo::Incomplete(t) => ToDo::Incomplete(
                    IncompleteToDo {
                        to_do_id: t.to_do_id,
                        title: t.title,
                        description: t.description,
                        due_date: Some(date),
                        owner: t.owner,
                        has_changes: true,
                    },
                ),
                ToDo::Complete(t) => ToDo::Complete(
                    CompleteToDo {
                        to_do_id: t.to_do_id,
                        title: t.title,
                        description: t.description,
                        due_date: Some(date),
                        owner: t.owner,
                        completed_on: t.completed_on,
                        has_changes: true,
                    },
                ),
            },
        }
    }

    /// Set the ToDo as completed, stamped with the current time. A ToDo that
    /// is already complete keeps its date and reports no change.
    pub fn set_completed(self) -> (r: ToDo)
        ensures
            r@.is_complete(),
            r@ == completed(self@, r@.completed_on->0),
    {
        match self {
            ToDo::Incomplete(t) => ToDo::Complete(
                CompleteToDo {
                    to_do_id: t.to_do_id,
                    title: t.title,
                    description: t.description,
                    due_date: t.due_date,
                    owner: t.owner,
                    completed_on: Timestamp::now(),
                    has_changes: true,
                },
            ),
            ToDo::Complete(t) => ToDo::Complete(
                CompleteToDo {
                    to_do_id: t.to_do_id,
                    title: t.title,
                    description: t.description,
                    due_date: t.due_date,
                    owner: t.owner,
                    completed_on: t.completed_on,
                    has_changes: false,
                },
            ),
        }
    }

    /// Convert the ToDo into a ToDoItem Data Transfer Object
    pub fn as_dto(&self) -> (r: ToDoItem)
        ensures
            r.shows(self@),
    {
        ToDoItem {
            id: String::from_str(self.get_id()),
            title: String::from_str(self.get_title()),
            is_complete: self.is_complete(),
            completed_on: self.get_completed_on(),
            description: String::from_str(self.get_description()),
            due_date: self.get_due_date(),
        }
    }

    /// Convert the ToDo into a ToDoItem Data Transfer Object
    pub fn into_dto(self) -> (r: ToDoItem)
        ensures
            r.shows(self@),
    {
        self.as_dto()
    }
}

} // verus!
