//! The failures a board operation can end in.

use vstd::prelude::*;

verus! {

/// Why an operation on a board was refused or could not be carried out.
#[derive(Clone, Copy, Debug, PartialEq, Eq, Structural)]
pub enum BoardError {
    /// No record exists for the board id.
    NotFound,
    /// The password did not match, or the session token is malformed or expired.
    Unauthorized,
    /// The input has the wrong shape; nothing was changed.
    ValidationFailed,
    /// The store, or a service the record depends on, failed.
    StoreFailure,
}

impl BoardError {
    /// The HTTP status that stands for this failure.
    pub open spec fn spec_status(self) -> u16 {
        match self {
            BoardError::NotFound => 404,
            BoardError::Unauthorized => 401,
            BoardError::ValidationFailed => 400,
            BoardError::StoreFailure => 500,
        }
    }

    /// The HTTP status that stands for this failure.
    pub fn status(self) -> (code: u16)
        ensures
            code == self.spec_status(),
    {
        match self {
            BoardError::NotFound => 404,
            BoardError::Unauthorized => 401,
            BoardError::ValidationFailed => 400,
            BoardError::StoreFailure => 500,
        }
    }
}

} // verus!
