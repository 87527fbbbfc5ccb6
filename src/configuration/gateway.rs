//! Settings of the gateway.
use vstd::prelude::*;

verus! {

pub const DEFAULT_PORT: u16 = 80;

#[derive(Debug, PartialEq, Eq, Structural)]
pub struct Configuration {
    pub port: u16,
}

impl Default for Configuration {
    fn default() -> (r: Configuration)
        ensures
            r.port == 80,
    {
        Configuration { port: DEFAULT_PORT }
    }
}

} // verus!
