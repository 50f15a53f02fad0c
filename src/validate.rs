//! A builder that checks the fields of a new ToDo one at a time and reports
//! every failed check at once.

use vstd::prelude::*;

use crate::domain::{valid_owner, valid_title, IsComplete, OwnerId, Title};
use crate::error_types::{validation_text, ValidationError};

verus! {

/// The message of a title with a bad length, in this builder.
pub open spec fn title_rule() -> Seq<char> {
    "Must be between 0 and 50 chars"@
}

/// The message of an empty owner, in this builder.
pub open spec fn owner_rule() -> Seq<char> {
    "Must be greater than 0"@
}

/// The messages of the failed checks, each after ` - `.
pub open spec fn joined(errors: Seq<Seq<char>>) -> Seq<char>
    decreases errors.len(),
{
    if errors.len() == 0 {
        seq![]
    } else {
        joined(errors.drop_last()) + " - "@ + validation_text(errors.last())
    }
}

/// A title and owner that passed their checks.
pub struct ValidatedToDo {
    pub title: Title,
    pub is_complete: IsComplete,
    pub owner_id: OwnerId,
}

/// What the builder holds: the fields that passed, and the messages of the
/// checks that failed, in order.
pub struct ValidateToDoModel {
    pub title: Option<Seq<char>>,
    pub owner_id: Option<Seq<char>>,
    pub errors: Seq<Seq<char>>,
}

impl ValidateToDoModel {
    pub open spec fn with_title(self, title: Seq<char>) -> ValidateToDoModel {
        ValidateToDoModel { title: Some(title), ..self }
    }

    pub open spec fn with_owner(self, owner_id: Seq<char>) -> ValidateToDoModel {
        ValidateToDoModel { owner_id: Some(owner_id), ..self }
    }

    pub open spec fn with_error(self, message: Seq<char>) -> ValidateToDoModel {
        ValidateToDoModel { errors: self.errors.push(message), ..self }
    }

    /// A check failed, or both fields passed theirs.
    pub open spec fn is_ready(self) -> bool {
        self.errors.len() > 0 || (self.title is Some && self.owner_id is Some)
    }
}

pub struct ValidateToDo {
    title: Option<Title>,
    owner_id: Option<OwnerId>,
    is_complete: IsComplete,
    errors: Vec<ValidationError>,
}

impl View for ValidateToDo {
    type V = ValidateToDoModel;

    closed spec fn view(&self) -> ValidateToDoModel {
        ValidateToDoModel {
            title: match self.title {
                Some(t) => Some(t@),
                None => None,
            },
            owner_id: match self.owner_id {
                Some(o) => Some(o@),
                None => None,
            },
            errors: self.errors@.map_values(|e: ValidationError| e@),
        }
    }
}

impl ValidateToDo {
    #[verifier::type_invariant]
    spec fn inv(&self) -> bool {
        self.is_complete == IsComplete::INCOMPLETE
    }

    pub fn new() -> (r: Self)
        ensures
            r@.title is None,
            r@.owner_id is None,
            r@.errors.len() == 0,
    {
        ValidateToDo { title: None, owner_id: None, is_complete: IsComplete::INCOMPLETE, errors: Vec::new() }
    }

    /// Records the title, or the failure of its check.
    pub fn check_title(self, title: String) -> (r: Self)
        ensures
            valid_title(title@) ==> r@ == self@.with_title(title@),
            !valid_title(title@) ==> r@ == self@.with_error(title_rule()),
    {
        proof {
            use_type_invariant(&self);
        }
        let ValidateToDo { title: old_title, owner_id, is_complete, mut errors } = self;
        match Title::new(title.as_str()) {
            Ok(t) => ValidateToDo { title: Some(t), owner_id, is_complete, errors },
            Err(_) => {
                errors.push(ValidationError::new(String::from_str("Must be between 0 and 50 chars")));
                let r = ValidateToDo { title: old_title, owner_id, is_complete, errors };
                assert(r@.errors =~= self@.errors.push(title_rule()));
                r
            },
        }
    }

    /// Records the owner, or the failure of its check.
    pub fn check_owner_id(self, owner_id: String) -> (r: Self)
        ensures
            valid_owner(owner_id@) ==> r@ == self@.with_owner(owner_id@),
            !valid_owner(owner_id@) ==> r@ == self@.with_error(owner_rule()),
    {
        proof {
            use_type_invariant(&self);
        }
        let ValidateToDo { title, owner_id: old_owner, is_complete, mut errors } = self;
        match OwnerId::new(owner_id.as_str()) {
            Ok(o) => ValidateToDo { title, owner_id: Some(o), is_complete, errors },
            Err(_) => {
                errors.push(ValidationError::new(String::from_str("Must be greater than 0")));
                let r = ValidateToDo { title, owner_id: old_owner, is_complete, errors };
                assert(r@.errors =~= self@.errors.push(owner_rule()));
                r
            },
        }
    }

    /// The validated, incomplete ToDo; or, when a check failed, one error that
    /// joins the messages of all failed checks.
    pub fn generate(self) -> (r: Result<ValidatedToDo, ValidationError>)
        requires
            self@.is_ready(),
        ensures
            r is Err <==> self@.errors.len() > 0,
            r matches Err(e) ==> e@ == joined(self@.errors),
            r matches Ok(v) ==> {
                &&& Some(v.title@) == self@.title
                &&& Some(v.owner_id@) == self@.owner_id
                &&& v.is_complete == IsComplete::INCOMPLETE
            },
    {
        proof {
            use_type_invariant(&self);
        }
        if self.errors.len() > 0 {
            let ghost messages = self@.errors;
            let mut text = String::new();
            let mut i: usize = 0;
            while i < self.errors.len()
                invariant
                    i <= self.errors@.len(),
                    messages == self.errors@.map_values(|e: ValidationError| e@),
                    text@ == joined(messages.take(i as int)),
                decreases self.errors@.len() - i,
            {
                let piece = self.errors[i].to_string();
                proof {
                    reveal_strlit(" - ");
                    assert(messages.take(i + 1).drop_last() =~= messages.take(i as int));
                }
                text = text.concat(" - ").concat(piece.as_str());
                i = i + 1;
            }
            assert(messages.take(messages.len() as int) =~= messages);
            return Err(ValidationError::new(text));
        }
        let ValidateToDo { title, owner_id, is_complete, errors: _ } = self;
        match (title, owner_id) {
            (Some(title), Some(owner_id)) => Ok(ValidatedToDo { title, is_complete, owner_id }),
            _ => {
                assert(false);
                Err(ValidationError::new(String::new()))
            },
        }
    }
}

} // verus!
