//! Where the bytes of a new extension come from.
use vstd::prelude::*;

verus! {

/// Credentials for logging in to a registry.
#[derive(Debug, PartialEq, Eq)]
pub struct Login {
    pub username: String,
    pub password: String,
}

/// A component held in a registry.
#[derive(Debug, PartialEq, Eq)]
pub struct RegistryCredentials {
    pub host: String,
    pub login: Option<Login>,
    pub tag: String,
}

/// The source of an extension's component bytes.
#[derive(Debug, PartialEq, Eq)]
pub enum Loader {
    /// The bytes themselves.
    Payload(Vec<u8>),
    /// A reference into a registry.
    Registry(RegistryCredentials),
}

/// Why no component bytes could be had.
#[derive(Debug, PartialEq, Eq, Structural)]
pub enum LoadError {
    /// Fetching from a registry is not available.
    RegistryUnsupported,
}

impl LoadError {
    pub open spec fn text(&self) -> Seq<char> {
        "loading from a registry is not supported"@
    }

    pub fn to_string(&self) -> (r: String)
        ensures
            r@ == self.text(),
    {
        String::from_str("loading from a registry is not supported")
    }
}

impl Loader {
    /// The component bytes: a payload as it is; a registry reference is
    /// refused.
    pub fn load(self) -> (r: Result<Vec<u8>, LoadError>)
        ensures
            match self {
                Loader::Payload(bytes) => r == Ok::<Vec<u8>, LoadError>(bytes),
                Loader::Registry(_) => r == Err::<Vec<u8>, LoadError>(
                    LoadError::RegistryUnsupported,
                ),
            },
    {
        match self {
            Loader::Payload(bytes) => Ok(bytes),
            Loader::Registry(_) => Err(LoadError::RegistryUnsupported),
        }
    }
}

} // verus!
