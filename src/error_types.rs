//! The errors of the ToDo model and of the services around it.

use vstd::prelude::*;

verus! {

/// A failure of the storage behind a repository, with the backend's detail
/// kept behind a fixed prefix.
#[derive(Debug, Clone)]
pub struct RepositoryError {
    error_message: String,
}

impl View for RepositoryError {
    type V = Seq<char>;

    closed spec fn view(&self) -> Seq<char> {
        self.error_message@
    }
}

impl RepositoryError {
    pub fn new(data_access_error: String) -> (r: RepositoryError)
        ensures
            r@ == data_access_error@,
    {
        RepositoryError { error_message: data_access_error }
    }

    pub fn to_string(&self) -> (r: String)
        ensures
            r@ == "Error persisting data "@ + self@,
    {
        String::from_str("Error persisting data ").concat(self.error_message.as_str())
    }
}

/// A field-level constraint that an input broke, with a readable message.
#[derive(Debug, Clone)]
pub struct ValidationError {
    error_message: String,
}

impl View for ValidationError {
    type V = Seq<char>;

    closed spec fn view(&self) -> Seq<char> {
        self.error_message@
    }
}

/// The text of a validation error whose message is `message`.
pub open spec fn validation_text(message: Seq<char>) -> Seq<char> {
    "Validation error: "@ + message
}

impl ValidationError {
    pub fn new(message: String) -> (r: ValidationError)
        ensures
            r@ == message@,
    {
        ValidationError { error_message: message }
    }

    /// The message alone.
    pub fn message(&self) -> (r: &str)
        ensures
            r@ == self@,
    {
        self.error_message.as_str()
    }

    pub fn to_string(&self) -> (r: String)
        ensures
            r@ == validation_text(self@),
    {
        String::from_str("Validation error: ").concat(self.error_message.as_str())
    }
}

/// A failure that a service hands to its caller.
#[derive(Debug, Clone)]
pub struct ServiceError {
    error_message: String,
}

impl View for ServiceError {
    type V = Seq<char>;

    closed spec fn view(&self) -> Seq<char> {
        self.error_message@
    }
}

impl ServiceError {
    pub fn new(message: String) -> (r: ServiceError)
        ensures
            r@ == message@,
    {
        ServiceError { error_message: message }
    }

    /// The message alone.
    pub fn message(&self) -> (r: &str)
        ensures
            r@ == self@,
    {
        self.error_message.as_str()
    }

    pub fn to_string(&self) -> (r: String)
        ensures
            r@ == "Service error: "@ + self@,
    {
        String::from_str("Service error: ").concat(self.error_message.as_str())
    }
}

} // verus!
