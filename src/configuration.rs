//! Settings of the whole program: the administrative surface and the
//! gateway.
pub mod api;
pub mod database;
pub mod gateway;
pub mod proxy;
pub mod validation;

use vstd::prelude::*;

verus! {

#[derive(Debug, PartialEq, Eq)]
pub struct Configuration {
    pub api: api::Configuration,
    pub gateway: gateway::Configuration,
}

impl Default for Configuration {
    fn default() -> (r: Configuration)
        ensures
            r.api.port == 8150,
            r.api.database.name@ == "roads"@,
            r.api.database.path@ == "."@,
            r.api.proxys@.len() == 0,
            r.gateway.port == 80,
    {
        Configuration { api: api::Configuration::default(), gateway: gateway::Configuration::default() }
    }
}

} // verus!
