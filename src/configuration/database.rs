//! Where the extension store keeps its file.
use vstd::prelude::*;

verus! {

#[derive(Debug, PartialEq, Eq)]
pub struct Configuration {
    pub name: String,
    pub path: String,
}

impl Default for Configuration {
    fn default() -> (r: Configuration)
        ensures
            r.name@ == "roads"@,
            r.path@ == "."@,
    {
        Configuration { name: String::from_str("roads"), path: String::from_str(".") }
    }
}

} // verus!
