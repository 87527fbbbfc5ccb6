//! Errors of the extension store.
pub mod error;
pub mod errors;
