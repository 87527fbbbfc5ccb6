//! Execution core of a programmable reverse proxy.
//!
//! Inbound requests are handed to a sandboxed, hot-swappable extension
//! module that either forwards the (possibly rewritten) request upstream or
//! answers it directly. This crate holds the verified parts of that core:
//! the request model and its capability surface, the per-invocation
//! execution context, how a sandbox result becomes a resolution, the
//! active-module slot and the compile step of the execution engine.
pub mod admin;
pub mod cli;
pub mod configuration;
pub mod context;
pub mod database;
pub mod engine;
pub mod extension;
pub mod gateway;
pub mod laws;
pub mod proxy;
pub mod request;
pub mod resolution;
pub mod runtime;
pub mod slot;

pub use context::{CapabilityError, Context};
pub use engine::{CompileError, ExecutionEngine, Module, ENTRY_POINT, PROXY_INTERFACE};
pub use request::{Request, RequestView};
pub use runtime::Runtime;
pub use resolution::{resolve, RawResolution, Resolution, Response, RuntimeFault};
pub use slot::{ActiveSlot, ExtensionSlot};
