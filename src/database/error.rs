//! Failures of the extension store, as the administrative surface reports
//! them.
use vstd::prelude::*;

verus! {

#[derive(Debug, PartialEq, Eq, Structural)]
pub enum Error {
    UnableToReadRoads,
    UnableToCreateRoad,
    UnableToUpdateRoad,
    UnableToDeleteRoad,
}

impl Error {
    pub open spec fn text(&self) -> Seq<char> {
        match self {
            Error::UnableToCreateRoad => "Could not create road"@,
            Error::UnableToReadRoads => "Could not read the roads"@,
            Error::UnableToUpdateRoad => "Could not update road"@,
            Error::UnableToDeleteRoad => "Could not delete road"@,
        }
    }

    /// The message shown to a client.
    pub fn to_string(&self) -> (r: String)
        ensures
            r@ == self.text(),
    {
        match self {
            Error::UnableToCreateRoad => String::from_str("Could not create road"),
            Error::UnableToReadRoads => String::from_str("Could not read the roads"),
            Error::UnableToUpdateRoad => String::from_str("Could not update road"),
            Error::UnableToDeleteRoad => String::from_str("Could not delete road"),
        }
    }
}

} // verus!
