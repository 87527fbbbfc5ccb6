//! The outcome of an invocation, and how it follows from what the sandbox
//! returned.
use vstd::prelude::*;

use crate::context::Context;
use crate::engine::CompileError;
use crate::request::{status_code_accepted, valid_status_code, Request};

verus! {

/// A synthesized response: a status code and an optional body.
#[derive(Debug, PartialEq, Eq)]
pub struct Response {
    pub status_code: u16,
    pub body: Option<Vec<u8>>,
}

/// What an entry point returns across the sandbox boundary. `Forward`
/// carries nothing: the extension has already changed the bound request
/// through the capability calls.
#[derive(Debug, PartialEq, Eq)]
pub enum RawResolution {
    Forward,
    Respond(Response),
}

/// The single outcome of a successful invocation.
#[derive(Debug, PartialEq, Eq)]
pub enum Resolution {
    /// Dispatch this (possibly changed) request upstream.
    Forward(Request),
    /// Answer directly; upstream is never contacted.
    Respond(Response),
}

/// A host-side condition that aborted an invocation or a swap.
#[derive(Debug, PartialEq, Eq)]
pub enum RuntimeFault {
    /// No engine could be set up; the text is the reason.
    Engine(String),
    /// Candidate bytes were not accepted as a module.
    Compile(CompileError),
    /// Instantiation or execution failed (a trap, a type mismatch, a
    /// linkage error); the text is the sandbox's reason.
    Trap(String),
    /// The extension answered with a status code outside 100 to 999.
    InvalidStatus(u16),
}

impl RuntimeFault {
    pub open spec fn text(&self) -> Seq<char> {
        match self {
            RuntimeFault::Engine(reason) => "engine unavailable: "@ + reason@,
            RuntimeFault::Compile(e) => e.text(),
            RuntimeFault::Trap(reason) => reason@,
            RuntimeFault::InvalidStatus(_) => "extension answered with an invalid status code"@,
        }
    }

    /// A description of the fault.
    pub fn message(&self) -> (r: String)
        ensures
            r@ == self.text(),
    {
        match self {
            RuntimeFault::Engine(reason) => String::from_str("engine unavailable: ").concat(
                reason.as_str(),
            ),
            RuntimeFault::Compile(e) => e.message(),
            RuntimeFault::Trap(reason) => reason.clone(),
            RuntimeFault::InvalidStatus(_) => String::from_str(
                "extension answered with an invalid status code",
            ),
        }
    }
}

/// The resolution that `outcome` gives for an invocation whose context
/// holds the request `request`, with the request itself left out: `Ok(None)`
/// stands for forwarding it.
pub open spec fn resolution_of(outcome: Result<RawResolution, String>) -> Result<
    Option<Response>,
    RuntimeFault,
> {
    match outcome {
        Err(reason) => Err(RuntimeFault::Trap(reason)),
        Ok(RawResolution::Forward) => Ok(None),
        Ok(RawResolution::Respond(response)) => if valid_status_code(response.status_code) {
            Ok(Some(response))
        } else {
            Err(RuntimeFault::InvalidStatus(response.status_code))
        },
    }
}

/// Whether `r` is the resolution that `outcome` gives for an invocation
/// that ended with `context` as its state.
pub open spec fn resolves_to(
    r: Result<Resolution, RuntimeFault>,
    context: crate::request::RequestView,
    outcome: Result<RawResolution, String>,
) -> bool {
    match resolution_of(outcome) {
        Err(fault) => r == Err::<Resolution, RuntimeFault>(fault),
        Ok(None) => r matches Ok(Resolution::Forward(q)) && q@ == context,
        Ok(Some(response)) => r == Ok::<Resolution, RuntimeFault>(Resolution::Respond(response)),
    }
}

/// Ends an invocation: turns what the sandbox returned into a resolution.
/// A fault never yields `Forward`; `Forward` hands back the request as the
/// extension left it.
pub fn resolve(context: Context, outcome: Result<RawResolution, String>) -> (r: Result<
    Resolution,
    RuntimeFault,
>)
    ensures
        resolves_to(r, context@, outcome),
{
    match outcome {
        Err(reason) => Err(RuntimeFault::Trap(reason)),
        Ok(RawResolution::Forward) => Ok(Resolution::Forward(context.into_request())),
        Ok(RawResolution::Respond(response)) => {
            if status_code_accepted(response.status_code) {
                Ok(Resolution::Respond(response))
            } else {
                Err(RuntimeFault::InvalidStatus(response.status_code))
            }
        },
    }
}

} // verus!
