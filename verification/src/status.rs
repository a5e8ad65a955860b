//! The failures that the graph layer reports to its callers.

use vstd::prelude::*;

verus! {

/// The kind of a failure.
#[derive(Clone, Copy, Debug, PartialEq, Eq, Structural)]
pub enum Code {
    /// A search was given neither a name nor an identifier, a node was to
    /// be created without properties, or an edge joins kinds that no
    /// assignment joins.
    InvalidArgument,
    /// A node of that kind and name is already there.
    AlreadyExists,
    /// A search found nothing.
    NotFound,
    /// A query gave back a node of another kind than was asked for.
    Aborted,
    /// The store failed inside.
    Internal,
    /// The store could not be reached.
    Unavailable,
}

/// A failure: its kind and a message for the caller.
#[derive(Debug)]
pub struct Status {
    pub code: Code,
    pub message: String,
}

impl Status {
    /// A failure of the given kind.
    pub fn new(code: Code, message: &str) -> (r: Self)
        ensures
            r.code == code,
            r.message@ == message@,
    {
        Status { code, message: String::from_str(message) }
    }

    /// Neither a name nor an identifier was given, or the like.
    pub fn invalid_argument(message: &str) -> (r: Self)
        ensures
            r.code == Code::InvalidArgument,
            r.message@ == message@,
    {
        Status::new(Code::InvalidArgument, message)
    }

    /// What was to be created is already there.
    pub fn already_exists(message: &str) -> (r: Self)
        ensures
            r.code == Code::AlreadyExists,
            r.message@ == message@,
    {
        Status::new(Code::AlreadyExists, message)
    }

    /// What was looked for is not there.
    pub fn not_found(message: &str) -> (r: Self)
        ensures
            r.code == Code::NotFound,
            r.message@ == message@,
    {
        Status::new(Code::NotFound, message)
    }

    /// The store answered with something that does not fit the question.
    pub fn aborted(message: &str) -> (r: Self)
        ensures
            r.code == Code::Aborted,
            r.message@ == message@,
    {
        Status::new(Code::Aborted, message)
    }

    /// The kind of the failure.
    pub fn code(&self) -> (r: Code)
        ensures
            r == self.code,
    {
        self.code
    }
}

/// The message of a node that is not of the kind that was expected.
pub open spec fn wrong_kind_text() -> Seq<char> {
    "node type error!"@
}

/// The message of a search for a user attribute that finds nothing.
pub open spec fn no_user_attribute() -> Seq<char> {
    "User attribute not found!"@
}

/// The message of a search that finds nothing.
pub open spec fn nothing_found() -> Seq<char> {
    "node not found!"@
}

} // verus!
