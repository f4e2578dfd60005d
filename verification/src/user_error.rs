//! The error side of every request: what can go wrong, the text shown for
//! it, and the HTTP status class it translates to.

use vstd::prelude::*;

verus! {

/// Every failure a request can end in.
#[derive(Debug)]
pub enum UserError {
    /// A lookup that was expected to yield a row yielded nothing, or the
    /// fetch could not be scheduled.
    NotFound,
    /// The create operation could not be scheduled.
    AddingUser,
    /// The update operation could not be scheduled.
    UpdatingUser,
    /// The delete operation could not be scheduled.
    DeletingUser,
    /// The caller supplied a public identifier that does not parse; a client
    /// error, never a crash.
    InvalidUserId,
    /// The storage layer failed; carries the storage layer's own description.
    StorageError(String),
}

impl UserError {
    /// The text shown to the caller for this failure.
    pub open spec fn spec_message(&self) -> Seq<char> {
        match self {
            UserError::NotFound => "User not found"@,
            UserError::AddingUser => "Error adding user"@,
            UserError::UpdatingUser => "Error updating user"@,
            UserError::DeletingUser => "Error deleting user"@,
            UserError::InvalidUserId => "Invalid user id"@,
            UserError::StorageError(s) => s@,
        }
    }

    /// The HTTP status this failure translates to: missing rows are a 404,
    /// a malformed public identifier is the caller's fault (400), and every
    /// storage or scheduling failure is a 500.
    pub open spec fn spec_status_code(&self) -> int {
        match self {
            UserError::NotFound => 404,
            UserError::InvalidUserId => 400,
            _ => 500,
        }
    }

    /// Human-readable description of the failure.
    pub fn message(&self) -> (m: String)
        ensures
            m@ == self.spec_message(),
    {
        match self {
            UserError::NotFound => String::from_str("User not found"),
            UserError::AddingUser => String::from_str("Error adding user"),
            UserError::UpdatingUser => String::from_str("Error updating user"),
            UserError::DeletingUser => String::from_str("Error deleting user"),
            UserError::InvalidUserId => String::from_str("Invalid user id"),
            UserError::StorageError(s) => s.clone(),
        }
    }

    /// The HTTP status code of the response this failure becomes.
    pub fn status_code(&self) -> (c: u16)
        ensures
            c as int == self.spec_status_code(),
    {
        match self {
            UserError::NotFound => 404,
            UserError::InvalidUserId => 400,
            _ => 500,
        }
    }
}

} // verus!
