//! A routing entry: a host name bound to a component.
use vstd::prelude::*;

verus! {

/// A host name with the component that serves it.
#[derive(Debug, PartialEq, Eq)]
pub struct Road {
    pub host: String,
    pub component: Vec<u8>,
}

} // verus!
