//! An extension to load at start: its tag and the file holding it.
use vstd::prelude::*;

verus! {

#[derive(Debug, PartialEq, Eq)]
pub struct Configuration {
    pub tag: String,
    pub path: String,
}

} // verus!
