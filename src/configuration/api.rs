//! Settings of the administrative surface.
use vstd::prelude::*;

use super::database;
use super::proxy;

verus! {

pub const DEFAULT_PORT: u16 = 8150;

#[derive(Debug, PartialEq, Eq)]
pub struct Configuration {
    pub port: u16,
    pub database: database::Configuration,
    pub proxys: Vec<proxy::Configuration>,
}

impl Default for Configuration {
    fn default() -> (r: Configuration)
        ensures
            r.port == 8150,
            r.database.name@ == "roads"@,
            r.database.path@ == "."@,
            r.proxys@.len() == 0,
    {
        Configuration {
            port: DEFAULT_PORT,
            database: database::Configuration::default(),
            proxys: Vec::new(),
        }
    }
}

} // verus!
