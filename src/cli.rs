//! Choosing the settings the program starts with.
use vstd::prelude::*;

use crate::configuration::Configuration;

verus! {

/// The settings to start with: those read from a settings file where one
/// was given (its read, parse or validation error where that failed), else
/// the defaults.
pub fn evaluate(from_file: Option<Result<Configuration, String>>) -> (r: Result<
    Configuration,
    String,
>)
    ensures
        match from_file {
            Some(loaded) => r == loaded,
            None => r matches Ok(c) && c.api.port == 8150 && c.gateway.port == 80
                && c.api.database.name@ == "roads"@ && c.api.database.path@ == "."@
                && c.api.proxys@.len() == 0,
        },
{
    match from_file {
        Some(loaded) => loaded,
        None => Ok(Configuration::default()),
    }
}

} // verus!
