//! Store failures reported by the host-routing surface.
use vstd::prelude::*;

verus! {

#[derive(Debug, PartialEq, Eq, Structural)]
pub enum DatabaseError {
    UnableToReadRoads,
    UnableToCreateRoad,
    UnableToDeleteRoad,
}

impl DatabaseError {
    pub open spec fn text(&self) -> Seq<char> {
        match self {
            DatabaseError::UnableToCreateRoad => "Could not create road"@,
            DatabaseError::UnableToReadRoads => "Could not read the roads"@,
            DatabaseError::UnableToDeleteRoad => "Could not delete road"@,
        }
    }

    /// The message shown to a client.
    pub fn to_string(&self) -> (r: String)
        ensures
            r@ == self.text(),
    {
        match self {
            DatabaseError::UnableToCreateRoad => String::from_str("Could not create road"),
            DatabaseError::UnableToReadRoads => String::from_str("Could not read the roads"),
            DatabaseError::UnableToDeleteRoad => String::from_str("Could not delete road"),
        }
    }
}

} // verus!
