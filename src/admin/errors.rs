//! Errors of the host-routing surface: address, conflict and lookup
//! failures with the status and message a client receives.
use vstd::prelude::*;

use crate::database::errors::DatabaseError;

verus! {

#[derive(Debug, PartialEq, Eq)]
pub enum ApiError {
    InvalidIp(String),
    HostAlreadyExists,
    NotFound,
    DatabaseError(DatabaseError),
}

impl ApiError {
    pub open spec fn status_code(&self) -> u16 {
        match self {
            ApiError::InvalidIp(_) => 400,
            ApiError::HostAlreadyExists => 409,
            ApiError::NotFound => 404,
            ApiError::DatabaseError(_) => 500,
        }
    }

    pub open spec fn text(&self) -> Seq<char> {
        match self {
            ApiError::InvalidIp(ip) => "Invalid IPv4 address: "@ + ip@,
            ApiError::HostAlreadyExists => "Host already exists, use update instead"@,
            ApiError::NotFound => "Road not found"@,
            ApiError::DatabaseError(e) => e.text(),
        }
    }

    /// The HTTP status a client receives.
    pub fn status(&self) -> (r: u16)
        ensures
            r == self.status_code(),
    {
        match self {
            ApiError::InvalidIp(_) => 400,
            ApiError::HostAlreadyExists => 409,
            ApiError::NotFound => 404,
            ApiError::DatabaseError(_) => 500,
        }
    }

    /// The error message a client receives.
    pub fn message(&self) -> (r: String)
        ensures
            r@ == self.text(),
    {
        match self {
            ApiError::InvalidIp(ip) => String::from_str("Invalid IPv4 address: ").concat(
                ip.as_str(),
            ),
            ApiError::HostAlreadyExists => String::from_str(
                "Host already exists, use update instead",
            ),
            ApiError::NotFound => String::from_str("Road not found"),
            ApiError::DatabaseError(e) => e.to_string(),
        }
    }
}

} // verus!
