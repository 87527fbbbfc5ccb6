//! The administrative side: extension payloads, the errors the
//! administrative surface reports, and its decisions on when to hot-swap.
pub mod endpoints;
pub mod error;
pub mod errors;
pub mod loader;
pub mod road;
