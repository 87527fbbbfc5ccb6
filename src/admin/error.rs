//! Errors of the administrative surface, with the status and message a
//! client receives.
use vstd::prelude::*;

use crate::database::error::Error as StoreError;

verus! {

pub const CONFLICT: u16 = 409;

pub const INTERNAL_SERVER_ERROR: u16 = 500;

#[derive(Debug, PartialEq, Eq)]
pub enum Error {
    TagAlreadyExists,
    DatabaseError(StoreError),
    FailedToSendMessage,
    FailedToLoad(String),
}

impl Error {
    pub open spec fn status_code(&self) -> u16 {
        match self {
            Error::TagAlreadyExists => 409,
            _ => 500,
        }
    }

    pub open spec fn text(&self) -> Seq<char> {
        match self {
            Error::TagAlreadyExists => "Host already exists, use update instead"@,
            Error::DatabaseError(e) => e.text(),
            Error::FailedToSendMessage => "Failed to send message"@,
            Error::FailedToLoad(reason) => "Failed to load: "@ + reason@,
        }
    }

    /// The HTTP status a client receives.
    pub fn status(&self) -> (r: u16)
        ensures
            r == self.status_code(),
    {
        match self {
            Error::TagAlreadyExists => CONFLICT,
            _ => INTERNAL_SERVER_ERROR,
        }
    }

    /// The error message a client receives.
    pub fn message(&self) -> (r: String)
        ensures
            r@ == self.text(),
    {
        match self {
            Error::TagAlreadyExists => String::from_str("Host already exists, use update instead"),
            Error::DatabaseError(e) => e.to_string(),
            Error::FailedToSendMessage => String::from_str("Failed to send message"),
            Error::FailedToLoad(reason) => String::from_str("Failed to load: ").concat(
                reason.as_str(),
            ),
        }
    }
}

} // verus!
